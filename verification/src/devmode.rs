use vstd::prelude::*;

verus! {

/// The tabs of the developer overlay.
#[derive(PartialEq, Eq, Clone, Copy, Debug, Structural)]
pub enum DevTab {
    Items,
    Rooms,
    Scripts,
    Info,
}

impl Default for DevTab {
    /// The overlay opens on the item tab.
    fn default() -> (r: Self)
        ensures
            r == DevTab::Items,
    {
        DevTab::Items
    }
}

/// Most lines the developer console keeps.
pub const CONSOLE_LOG_LIMIT: usize = 200;

/// The console log after appending `line`: when it grows past the limit the
/// oldest line goes.
pub open spec fn log_after(log: Seq<String>, line: String) -> Seq<String> {
    if log.len() + 1 > CONSOLE_LOG_LIMIT {
        log.push(line).drop_first()
    } else {
        log.push(line)
    }
}

/// Appends a line to the developer console log, dropping the oldest line
/// once the log holds more than `CONSOLE_LOG_LIMIT` lines.
pub fn push_log_line(log: &mut Vec<String>, line: String)
    requires
        old(log)@.len() < usize::MAX,
    ensures
        final(log)@ == log_after(old(log)@, line),
{
    log.push(line);
    if log.len() > CONSOLE_LOG_LIMIT {
        log.remove(0);
        assert(final(log)@ =~= old(log)@.push(line).drop_first());
    }
}

/// Appending keeps the newest lines in order: the log afterwards is the
/// last lines of the old log followed by the new one, and it is as long as
/// the old log plus one, capped at `CONSOLE_LOG_LIMIT` when the old log
/// was within the limit.
pub proof fn log_keeps_newest_lines(log: Seq<String>, line: String)
    requires
        log.len() <= CONSOLE_LOG_LIMIT,
    ensures
        ({
            let after = log_after(log, line);
            let n = after.len();
            &&& n == if log.len() + 1 > CONSOLE_LOG_LIMIT {
                CONSOLE_LOG_LIMIT as int
            } else {
                log.len() + 1int
            }
            &&& after == log.push(line).subrange(log.len() + 1 - n, log.len() + 1int)
        }),
{
    let after = log_after(log, line);
    assert(after =~= log.push(line).subrange(log.len() + 1 - after.len(), log.len() + 1int));
}

/// A log that holds at most `CONSOLE_LOG_LIMIT` lines still does after a
/// line is appended, and the newest line is always last.
pub proof fn log_stays_bounded(log: Seq<String>, line: String)
    requires
        log.len() <= CONSOLE_LOG_LIMIT,
    ensures
        log_after(log, line).len() <= CONSOLE_LOG_LIMIT,
        log_after(log, line).last() == line,
{
}

} // verus!
