use vstd::prelude::*;
use vstd::string::StringExecFns;

use crate::text::{decimal, push_decimal};

verus! {

/// What an item is. A key opens the door whose `key_room_id` is its `room_id`.
#[derive(Clone, Copy, Debug, PartialEq, Eq, Structural)]
pub enum ItemKind {
    Key { room_id: usize },
    SanityPill,
    WindUpToy,
    Cd,
    CdPlayer,
}

/// The name shown for an item kind.
pub open spec fn label_of(kind: ItemKind) -> Seq<char> {
    match kind {
        ItemKind::Key { .. } => "Key"@,
        ItemKind::SanityPill => "Sanity Pill"@,
        ItemKind::WindUpToy => "Wind-Up Toy"@,
        ItemKind::Cd => "CD"@,
        ItemKind::CdPlayer => "CD Player"@,
    }
}

/// The name shown for an item kind (hotbar, inventory and pickup messages).
pub fn item_label(kind: &ItemKind) -> (r: &'static str)
    ensures
        r@ == label_of(*kind),
{
    match kind {
        ItemKind::Key { .. } => "Key",
        ItemKind::SanityPill => "Sanity Pill",
        ItemKind::WindUpToy => "Wind-Up Toy",
        ItemKind::Cd => "CD",
        ItemKind::CdPlayer => "CD Player",
    }
}

/// `i` is the first position of `s` that holds `k`.
pub open spec fn is_first_index(s: Seq<ItemKind>, k: ItemKind, i: int) -> bool {
    &&& 0 <= i < s.len()
    &&& s[i] == k
    &&& forall|j: int| 0 <= j < i ==> s[j] != k
}

/// `s` after taking out its first `k`; `s` itself when it holds none.
pub open spec fn without_first(s: Seq<ItemKind>, k: ItemKind) -> Seq<ItemKind> {
    if s.contains(k) {
        s.remove(choose|i: int| is_first_index(s, k, i))
    } else {
        s
    }
}

/// Rank of a kind in the summary, which lists kinds in the order of their
/// labels: "CD Player", "CD", "Key", "Sanity Pill", "Wind-Up Toy".
pub open spec fn summary_rank(kind: ItemKind) -> nat {
    match kind {
        ItemKind::CdPlayer => 0,
        ItemKind::Cd => 1,
        ItemKind::Key { .. } => 2,
        ItemKind::SanityPill => 3,
        ItemKind::WindUpToy => 4,
    }
}

/// Label of the kinds of a given summary rank.
pub open spec fn rank_label(rank: nat) -> Seq<char> {
    if rank == 0 {
        "CD Player"@
    } else if rank == 1 {
        "CD"@
    } else if rank == 2 {
        "Key"@
    } else if rank == 3 {
        "Sanity Pill"@
    } else {
        "Wind-Up Toy"@
    }
}

/// How many items of `s` have the given summary rank.
pub open spec fn count_rank(s: Seq<ItemKind>, rank: nat) -> nat
    decreases s.len(),
{
    if s.len() == 0 {
        0
    } else {
        count_rank(s.drop_last(), rank) + if summary_rank(s.last()) == rank {
            1nat
        } else {
            0nat
        }
    }
}

/// The text "label xN" of rank `rank` with count `n`.
pub open spec fn line_text(rank: nat, n: nat) -> Seq<char> {
    rank_label(rank) + " x"@ + decimal(n)
}

/// The summary line of one rank: "label xN", or nothing when no item has it.
pub open spec fn summary_entry(s: Seq<ItemKind>, rank: nat) -> Seq<Seq<char>> {
    if count_rank(s, rank) > 0 {
        seq![line_text(rank, count_rank(s, rank))]
    } else {
        Seq::empty()
    }
}

/// The inventory summary: one line per kind of label present, in label order.
pub open spec fn summary_of(s: Seq<ItemKind>) -> Seq<Seq<char>> {
    summary_entry(s, 0) + summary_entry(s, 1) + summary_entry(s, 2) + summary_entry(s, 3)
        + summary_entry(s, 4)
}

/// Items the player carries, in the order they were picked up.
pub struct Inventory {
    pub items: Vec<ItemKind>,
}

impl Default for Inventory {
    fn default() -> (r: Self)
        ensures
            r.items@ == Seq::<ItemKind>::empty(),
    {
        Inventory { items: Vec::new() }
    }
}

/// First position of `k` in `items`, if any.
fn position_of(items: &Vec<ItemKind>, k: ItemKind) -> (r: Option<usize>)
    ensures
        r matches Some(i) ==> is_first_index(items@, k, i as int),
        r is None <==> !items@.contains(k),
{
    let mut i: usize = 0;
    while i < items.len()
        invariant
            i <= items.len(),
            forall|j: int| 0 <= j < i ==> items@[j] != k,
        decreases items.len() - i,
    {
        if items[i] == k {
            return Some(i);
        }
        i = i + 1;
    }
    None
}

/// Removes the first `k` from `items`; tells whether there was one.
pub(crate) fn remove_first(items: &mut Vec<ItemKind>, k: ItemKind) -> (r: bool)
    ensures
        r == old(items)@.contains(k),
        final(items)@ == without_first(old(items)@, k),
{
    match position_of(items, k) {
        Some(i) => {
            proof {
                let c: int = choose|c: int| is_first_index(old(items)@, k, c);
                assert(is_first_index(old(items)@, k, c));
                if c < i {
                } else if c > i {
                }
                assert(c == i);
            }
            items.remove(i);
            true
        },
        None => false,
    }
}

impl Inventory {
    /// Puts an item at the end of the inventory.
    pub fn add(&mut self, kind: ItemKind)
        ensures
            final(self).items@ == old(self).items@.push(kind),
    {
        self.items.push(kind);
    }

    /// Whether the player carries the key of room `room_id`.
    pub fn has_key_for(&self, room_id: usize) -> (r: bool)
        ensures
            r == self.items@.contains(ItemKind::Key { room_id }),
    {
        position_of(&self.items, ItemKind::Key { room_id }).is_some()
    }

    /// Spends the first key of room `room_id`; false, with nothing changed,
    /// when the player has none.
    pub fn use_key_for(&mut self, room_id: usize) -> (r: bool)
        ensures
            r == old(self).items@.contains(ItemKind::Key { room_id }),
            final(self).items@ == without_first(old(self).items@, ItemKind::Key { room_id }),
    {
        remove_first(&mut self.items, ItemKind::Key { room_id })
    }

    /// Whether the player carries a sanity pill.
    pub fn has_pill(&self) -> (r: bool)
        ensures
            r == self.items@.contains(ItemKind::SanityPill),
    {
        position_of(&self.items, ItemKind::SanityPill).is_some()
    }

    /// Spends the first sanity pill; false, with nothing changed, when there is none.
    pub fn use_pill(&mut self) -> (r: bool)
        ensures
            r == old(self).items@.contains(ItemKind::SanityPill),
            final(self).items@ == without_first(old(self).items@, ItemKind::SanityPill),
    {
        remove_first(&mut self.items, ItemKind::SanityPill)
    }

    /// Whether the player carries a CD.
    pub fn has_cd(&self) -> (r: bool)
        ensures
            r == self.items@.contains(ItemKind::Cd),
    {
        position_of(&self.items, ItemKind::Cd).is_some()
    }

    /// Whether the player carries a CD player.
    pub fn has_cd_player(&self) -> (r: bool)
        ensures
            r == self.items@.contains(ItemKind::CdPlayer),
    {
        position_of(&self.items, ItemKind::CdPlayer).is_some()
    }

    /// One line "label xN" per kind of label carried, sorted by label.
    pub fn summary(&self) -> (r: Vec<String>)
        ensures
            r@.map_values(|line: String| line@) == summary_of(self.items@),
    {
        let counts = count_ranks(&self.items);
        let mut out: Vec<String> = Vec::new();
        let mut rank: usize = 0;
        while rank < 5
            invariant
                rank <= 5,
                counts@.len() == 5,
                forall|k: int| 0 <= k < 5 ==> counts@[k] == count_rank(self.items@, k as nat),
                out@.map_values(|line: String| line@) == summary_prefix(self.items@, rank as nat),
            decreases 5 - rank,
        {
            let ghost before = out@;
            let n: usize = counts[rank];
            if n > 0 {
                let mut line = String::new();
                line.append(label_for_rank(rank));
                line.append(" x");
                push_decimal(&mut line, n);
                out.push(line);
                assert(out@.map_values(|l: String| l@) =~= before.map_values(|l: String| l@).push(
                    line_text(rank as nat, n as nat),
                ));
            } else {
                assert(out@.map_values(|l: String| l@) =~= before.map_values(|l: String| l@));
            }
            rank = rank + 1;
        }
        assert(summary_prefix(self.items@, 5) =~= summary_of(self.items@)) by {
            reveal_with_fuel(summary_prefix, 6);
        }
        out
    }
}

/// Groups of equal labels with their counts, in order of first appearance,
/// each group named by its summary rank.
pub open spec fn rank_groups(s: Seq<ItemKind>) -> Seq<(nat, nat)>
    decreases s.len(),
{
    if s.len() == 0 {
        Seq::empty()
    } else {
        add_to_groups(rank_groups(s.drop_last()), summary_rank(s.last()))
    }
}

/// Position of the first group of rank `r` in `g`; `g.len()` when there is none.
pub open spec fn group_position(g: Seq<(nat, nat)>, r: nat) -> int
    decreases g.len(),
{
    if g.len() == 0 {
        0
    } else if g[0].0 == r {
        0
    } else {
        1 + group_position(g.drop_first(), r)
    }
}

/// `g` with one more item of rank `r`: its group counts one more, or a new
/// group of one is appended.
pub open spec fn add_to_groups(g: Seq<(nat, nat)>, r: nat) -> Seq<(nat, nat)> {
    let i: int = group_position(g, r);
    if i < g.len() {
        g.update(i, (r, g[i].1 + 1))
    } else {
        g.push((r, 1))
    }
}

proof fn lemma_group_position(g: Seq<(nat, nat)>, r: nat, j: int)
    requires
        0 <= j <= g.len(),
        forall|k: int| 0 <= k < j ==> g[k].0 != r,
        j < g.len() ==> g[j].0 == r,
    ensures
        group_position(g, r) == j,
    decreases j,
{
    if j > 0 {
        assert(g[0].0 != r);
        lemma_group_position(g.drop_first(), r, j - 1);
    }
}

/// The inventory panel's groups: each label once, in order of first
/// appearance, with how many items carry it.
pub fn inventory_groups(items: &Vec<ItemKind>) -> (r: Vec<(&'static str, usize)>)
    ensures
        r@.len() == rank_groups(items@).len(),
        forall|k: int|
            0 <= k < r@.len() ==> (#[trigger] r@[k]).0@ == rank_label(rank_groups(items@)[k].0)
                && r@[k].1 == rank_groups(items@)[k].1,
{
    let mut groups: Vec<(usize, usize)> = Vec::new();
    let mut i: usize = 0;
    while i < items.len()
        invariant
            i <= items.len(),
            groups@.len() == rank_groups(items@.take(i as int)).len(),
            forall|k: int|
                0 <= k < groups@.len() ==> (#[trigger] groups@[k]).0 == rank_groups(
                    items@.take(i as int),
                )[k].0 && groups@[k].1 == rank_groups(items@.take(i as int))[k].1,
            forall|k: int| 0 <= k < groups@.len() ==> (#[trigger] groups@[k]).1 <= i,
            forall|k: int| 0 <= k < groups@.len() ==> (#[trigger] groups@[k]).0 < 5,
        decreases items.len() - i,
    {
        let ghost before = rank_groups(items@.take(i as int));
        let ghost prev = groups@;
        let rank: usize = match items[i] {
            ItemKind::CdPlayer => 0,
            ItemKind::Cd => 1,
            ItemKind::Key { .. } => 2,
            ItemKind::SanityPill => 3,
            ItemKind::WindUpToy => 4,
        };
        assert(items@.take(i as int + 1).drop_last() =~= items@.take(i as int));
        assert(items@.take(i as int + 1).last() == items@[i as int]);
        assert(summary_rank(items@[i as int]) == rank as nat);
        let ghost after = add_to_groups(before, rank as nat);
        assert(rank_groups(items@.take(i as int + 1)) == after);
        let mut j: usize = 0;
        while j < groups.len()
            invariant
                j <= groups.len(),
                groups@ == prev,
                forall|k: int| 0 <= k < j ==> (#[trigger] groups@[k]).0 != rank,
            ensures
                j <= groups.len(),
                groups@ == prev,
                forall|k: int| 0 <= k < j ==> (#[trigger] groups@[k]).0 != rank,
                j < groups.len() ==> groups@[j as int].0 == rank,
            decreases groups.len() - j,
        {
            if groups[j].0 == rank {
                break;
            }
            j = j + 1;
        }
        proof {
            assert forall|k: int| 0 <= k < j implies before[k].0 != rank as nat by {
                assert(groups@[k].0 != rank);
            }
            lemma_group_position(before, rank as nat, j as int);
        }
        if j < groups.len() {
            let (g_rank, g_count) = groups[j];
            groups.set(j, (g_rank, g_count + 1));
        } else {
            groups.push((rank, 1));
            assert(after == before.push((rank as nat, 1nat)));
        }
        i = i + 1;
    }
    assert(items@.take(items.len() as int) =~= items@);
    let mut out: Vec<(&'static str, usize)> = Vec::new();
    let mut k: usize = 0;
    while k < groups.len()
        invariant
            k <= groups.len(),
            out@.len() == k,
            groups@.len() == rank_groups(items@).len(),
            forall|m: int|
                0 <= m < groups@.len() ==> (#[trigger] groups@[m]).0 == rank_groups(items@)[m].0
                    && groups@[m].1 == rank_groups(items@)[m].1,
            forall|m: int| 0 <= m < groups@.len() ==> (#[trigger] groups@[m]).0 < 5,
            forall|m: int|
                0 <= m < k ==> (#[trigger] out@[m]).0@ == rank_label(rank_groups(items@)[m].0)
                    && out@[m].1 == rank_groups(items@)[m].1,
        decreases groups.len() - k,
    {
        let (g_rank, g_count) = groups[k];
        out.push((label_for_rank(g_rank), g_count));
        k = k + 1;
    }
    out
}

/// The hotbar label of slot `slot`: the item's label, or a dot when empty.
pub fn hotbar_label(inventory: &Inventory, slot: usize) -> (r: &'static str)
    ensures
        slot < inventory.items@.len() ==> r@ == label_of(inventory.items@[slot as int]),
        slot >= inventory.items@.len() ==> r@ == "\u{b7}"@,
{
    if slot < inventory.items.len() {
        item_label(&inventory.items[slot])
    } else {
        "\u{b7}"
    }
}

proof fn lemma_first_index_from(s: Seq<ItemKind>, k: ItemKind, j: int)
    requires
        0 <= j < s.len(),
        s[j] == k,
    ensures
        exists|i: int| is_first_index(s, k, i),
    decreases j,
{
    if exists|m: int| 0 <= m < j && s[m] == k {
        let m: int = choose|m: int| 0 <= m < j && s[m] == k;
        lemma_first_index_from(s, k, m);
    } else {
        assert(is_first_index(s, k, j));
    }
}

proof fn lemma_first_index(s: Seq<ItemKind>, k: ItemKind)
    requires
        s.contains(k),
    ensures
        is_first_index(s, k, choose|i: int| is_first_index(s, k, i)),
{
    let j: int = choose|j: int| 0 <= j < s.len() && s[j] == k;
    lemma_first_index_from(s, k, j);
}

/// Two kinds have the same label exactly when they are the same kind up to
/// the room of a key, and the summary names each kind by its label.
pub proof fn labels_tell_kinds_apart(a: ItemKind, b: ItemKind)
    ensures
        label_of(a) == label_of(b) <==> summary_rank(a) == summary_rank(b),
        summary_rank(a) == summary_rank(b) <==> (a == b || (a is Key && b is Key)),
        rank_label(summary_rank(a)) == label_of(a),
        label_of(a).len() > 0,
{
    reveal_strlit("Key");
    reveal_strlit("Sanity Pill");
    reveal_strlit("Wind-Up Toy");
    reveal_strlit("CD");
    reveal_strlit("CD Player");
    if label_of(a) == label_of(b) && summary_rank(a) != summary_rank(b) {
        let la = label_of(a);
        let lb = label_of(b);
        assert(la.len() != lb.len() || la[0] != lb[0] || la[1] != lb[1] || la[3] != lb[3]);
    }
}

/// Spending removes the first item of its kind: the items before it stay,
/// none of them is of that kind, and the items after it move up by one.
pub proof fn spending_takes_the_first(s: Seq<ItemKind>, k: ItemKind)
    ensures
        s.contains(k) ==> exists|i: int|
            0 <= i < s.len() && s[i] == k && (forall|j: int| 0 <= j < i ==> s[j] != k)
                && without_first(s, k) == s.subrange(0, i) + s.subrange(i + 1, s.len() as int),
{
    if s.contains(k) {
        lemma_first_index(s, k);
        let i: int = choose|i: int| is_first_index(s, k, i);
        assert(without_first(s, k) =~= s.subrange(0, i) + s.subrange(i + 1, s.len() as int));
    }
}

/// Spending an item takes out exactly one of its kind, when there is one:
/// the carried items lose one `k` and nothing else, and stay as they were
/// when there is no `k`.
pub proof fn spending_takes_exactly_one(s: Seq<ItemKind>, k: ItemKind)
    ensures
        without_first(s, k).to_multiset() =~= s.to_multiset().remove(k),
        s.contains(k) ==> without_first(s, k).len() + 1 == s.len(),
        !s.contains(k) ==> without_first(s, k) == s,
{
    broadcast use vstd::seq_lib::to_multiset_remove, vstd::seq_lib::to_multiset_contains;
    broadcast use vstd::multiset::group_multiset_axioms;

    if s.contains(k) {
        lemma_first_index(s, k);
    } else {
        assert(s.to_multiset().count(k) == 0);
    }
}

/// A key that was just picked up is found, and spending an item right after
/// picking up one of its kind gives back the carried items (as a multiset;
/// exactly, in order, when none of that kind was carried before).
pub proof fn pick_up_then_spend(s: Seq<ItemKind>, k: ItemKind)
    ensures
        s.push(k).contains(k),
        without_first(s.push(k), k).to_multiset() =~= s.to_multiset(),
        !s.contains(k) ==> without_first(s.push(k), k) == s,
{
    broadcast use vstd::seq_lib::to_multiset_build;
    broadcast use vstd::multiset::group_multiset_axioms;

    assert(s.push(k)[s.len() as int] == k);
    spending_takes_exactly_one(s.push(k), k);
    if !s.contains(k) {
        lemma_first_index(s.push(k), k);
        let i: int = choose|i: int| is_first_index(s.push(k), k, i);
        if i < s.len() {
            assert(s[i] == k);
        }
        assert(without_first(s.push(k), k) =~= s);
    }
}

/// Every carried item is counted in exactly one summary rank.
pub proof fn summary_counts_every_item(s: Seq<ItemKind>)
    ensures
        count_rank(s, 0) + count_rank(s, 1) + count_rank(s, 2) + count_rank(s, 3) + count_rank(
            s,
            4,
        ) == s.len(),
    decreases s.len(),
{
    if s.len() > 0 {
        summary_counts_every_item(s.drop_last());
    }
}

/// `a` comes before `b` in character order: at the first place where they
/// differ `a` has the smaller character, or `a` is a proper prefix of `b`.
pub open spec fn text_before(a: Seq<char>, b: Seq<char>) -> bool {
    exists|i: int|
        0 <= i <= a.len() && i <= b.len() && #[trigger] a.subrange(0, i) == b.subrange(0, i) && (
        (i == a.len() && i < b.len()) || (i < a.len() && i < b.len() && (a[i] as int) < (
        b[i] as int)))
}

proof fn lemma_line_order(r1: nat, r2: nat, n1: nat, n2: nat)
    requires
        r1 < r2 < 5,
    ensures
        text_before(line_text(r1, n1), line_text(r2, n2)),
{
    reveal_strlit("CD Player");
    reveal_strlit("CD");
    reveal_strlit("Key");
    reveal_strlit("Sanity Pill");
    reveal_strlit("Wind-Up Toy");
    reveal_strlit(" x");
    let a = line_text(r1, n1);
    let b = line_text(r2, n2);
    if r1 == 0 && r2 == 1 {
        assert(a[0] == 'C' && a[1] == 'D' && a[2] == ' ' && a[3] == 'P');
        assert(b[0] == 'C' && b[1] == 'D' && b[2] == ' ' && b[3] == 'x');
        assert(a.subrange(0, 3) =~= b.subrange(0, 3));
    } else {
        assert(a.subrange(0, 0) =~= b.subrange(0, 0));
        assert((a[0] as int) < (b[0] as int));
    }
}

proof fn lemma_prefix_sorted(s: Seq<ItemKind>, k: nat)
    requires
        k <= 5,
    ensures
        forall|i: int, j: int|
            0 <= i < j < summary_prefix(s, k).len() ==> text_before(
                #[trigger] summary_prefix(s, k)[i],
                #[trigger] summary_prefix(s, k)[j],
            ),
        forall|i: int|
            0 <= i < summary_prefix(s, k).len() ==> exists|r: nat|
                r < k && count_rank(s, r) > 0 && #[trigger] summary_prefix(s, k)[i] == line_text(
                    r,
                    count_rank(s, r),
                ),
    decreases k,
{
    if k > 0 {
        let k1: nat = (k - 1) as nat;
        lemma_prefix_sorted(s, k1);
        let p = summary_prefix(s, k1);
        let q = summary_prefix(s, k);
        assert(q == p + summary_entry(s, k1));
        assert forall|i: int| 0 <= i < q.len() implies exists|r: nat|
            r < k && count_rank(s, r) > 0 && #[trigger] q[i] == line_text(r, count_rank(s, r)) by {
            if i < p.len() {
                assert(q[i] == p[i]);
                let r: nat = choose|r: nat|
                    r < k1 && count_rank(s, r) > 0 && p[i] == line_text(r, count_rank(s, r));
                assert(q[i] == line_text(r, count_rank(s, r)));
            } else {
                assert(q[i] == line_text(k1, count_rank(s, k1)));
            }
        }
        assert forall|i: int, j: int| 0 <= i < j < q.len() implies text_before(
            #[trigger] q[i],
            #[trigger] q[j],
        ) by {
            if j < p.len() {
                assert(q[i] == p[i] && q[j] == p[j]);
            } else {
                assert(q[i] == p[i]);
                let r: nat = choose|r: nat|
                    r < k1 && count_rank(s, r) > 0 && p[i] == line_text(r, count_rank(s, r));
                assert(q[j] == line_text(k1, count_rank(s, k1)));
                lemma_line_order(r, k1, count_rank(s, r), count_rank(s, k1));
            }
        }
    }
}

proof fn lemma_count_positive(s: Seq<ItemKind>, i: int)
    requires
        0 <= i < s.len(),
    ensures
        count_rank(s, summary_rank(s[i])) > 0,
    decreases s.len(),
{
    if i < s.len() - 1 {
        lemma_count_positive(s.drop_last(), i);
    }
}

proof fn lemma_count_has_item(s: Seq<ItemKind>, r: nat)
    requires
        count_rank(s, r) > 0,
    ensures
        exists|i: int| 0 <= i < s.len() && summary_rank(#[trigger] s[i]) == r,
    decreases s.len(),
{
    if summary_rank(s.last()) != r {
        lemma_count_has_item(s.drop_last(), r);
        let i: int = choose|i: int| 0 <= i < s.len() - 1 && summary_rank(#[trigger] s.drop_last()[i]) == r;
        assert(s[i] == s.drop_last()[i]);
    }
}

proof fn lemma_prefix_grows(s: Seq<ItemKind>, m: nat, n: nat)
    requires
        m <= n,
    ensures
        summary_prefix(s, m).len() <= summary_prefix(s, n).len(),
        forall|i: int|
            0 <= i < summary_prefix(s, m).len() ==> #[trigger] summary_prefix(s, n)[i]
                == summary_prefix(s, m)[i],
    decreases n,
{
    if m < n {
        lemma_prefix_grows(s, m, (n - 1) as nat);
        let p = summary_prefix(s, (n - 1) as nat);
        assert(summary_prefix(s, n) == p + summary_entry(s, (n - 1) as nat));
        assert forall|i: int| 0 <= i < summary_prefix(s, m).len() implies #[trigger] summary_prefix(
            s,
            n,
        )[i] == summary_prefix(s, m)[i] by {
            assert(summary_prefix(s, n)[i] == p[i]);
        }
    }
}

proof fn lemma_rank_line_in_summary(s: Seq<ItemKind>, r: nat)
    requires
        r < 5,
        count_rank(s, r) > 0,
    ensures
        summary_of(s).contains(line_text(r, count_rank(s, r))),
{
    let p = summary_prefix(s, r);
    let q = summary_prefix(s, r + 1);
    assert(q == p + summary_entry(s, r));
    assert(q[p.len() as int] == line_text(r, count_rank(s, r)));
    lemma_prefix_grows(s, r + 1, 5);
    assert(summary_prefix(s, 5) =~= summary_of(s)) by {
        reveal_with_fuel(summary_prefix, 6);
    }
    assert(summary_of(s)[p.len() as int] == line_text(r, count_rank(s, r)));
}

/// Each summary line is the label of a carried item, " x", and the number of
/// carried items with that label in decimal; every carried item's label has
/// such a line.
pub proof fn summary_lines_name_carried_items(s: Seq<ItemKind>)
    ensures
        forall|i: int|
            0 <= i < summary_of(s).len() ==> exists|j: int|
                0 <= j < s.len() && #[trigger] summary_of(s)[i] == label_of(#[trigger] s[j]) + " x"@
                    + decimal(count_rank(s, summary_rank(s[j]))),
        forall|j: int|
            0 <= j < s.len() ==> summary_of(s).contains(
                label_of(#[trigger] s[j]) + " x"@ + decimal(count_rank(s, summary_rank(s[j]))),
            ),
{
    lemma_prefix_sorted(s, 5);
    assert(summary_prefix(s, 5) =~= summary_of(s)) by {
        reveal_with_fuel(summary_prefix, 6);
    }
    let t = summary_of(s);
    assert forall|i: int| 0 <= i < t.len() implies exists|j: int|
        0 <= j < s.len() && #[trigger] t[i] == label_of(#[trigger] s[j]) + " x"@ + decimal(
            count_rank(s, summary_rank(s[j])),
        ) by {
        let r: nat = choose|r: nat|
            r < 5 && count_rank(s, r) > 0 && #[trigger] summary_prefix(s, 5)[i] == line_text(
                r,
                count_rank(s, r),
            );
        assert(t[i] == line_text(r, count_rank(s, r)));
        lemma_count_has_item(s, r);
        let j: int = choose|j: int| 0 <= j < s.len() && summary_rank(#[trigger] s[j]) == r;
        labels_tell_kinds_apart(s[j], s[j]);
        assert(t[i] == label_of(s[j]) + " x"@ + decimal(count_rank(s, summary_rank(s[j]))));
    }
    assert forall|j: int| 0 <= j < s.len() implies t.contains(
        label_of(#[trigger] s[j]) + " x"@ + decimal(count_rank(s, summary_rank(s[j]))),
    ) by {
        let r = summary_rank(s[j]);
        lemma_count_positive(s, j);
        labels_tell_kinds_apart(s[j], s[j]);
        lemma_rank_line_in_summary(s, r);
    }
}

/// The summary comes sorted: each line is before the next in character order.
pub proof fn summary_is_sorted(s: Seq<ItemKind>)
    ensures
        forall|i: int, j: int|
            0 <= i < j < summary_of(s).len() ==> text_before(
                #[trigger] summary_of(s)[i],
                #[trigger] summary_of(s)[j],
            ),
{
    lemma_prefix_sorted(s, 5);
    assert(summary_prefix(s, 5) =~= summary_of(s)) by {
        reveal_with_fuel(summary_prefix, 6);
    }
}

proof fn lemma_group_position_bounds(g: Seq<(nat, nat)>, r: nat)
    ensures
        0 <= group_position(g, r) <= g.len(),
        group_position(g, r) < g.len() ==> g[group_position(g, r)].0 == r,
        forall|k: int| 0 <= k < group_position(g, r) ==> g[k].0 != r,
    decreases g.len(),
{
    if g.len() > 0 && g[0].0 != r {
        lemma_group_position_bounds(g.drop_first(), r);
        assert forall|k: int| 0 <= k < group_position(g, r) implies g[k].0 != r by {
            if k > 0 {
                assert(g[k] == g.drop_first()[k - 1]);
            }
        }
    }
}

/// The inventory panel and the summary agree: each group of the panel holds
/// as many items as the summary counts for its label, every label carried has
/// exactly one group, and no group is empty.
pub proof fn groups_agree_with_summary(s: Seq<ItemKind>)
    ensures
        forall|k: int|
            0 <= k < rank_groups(s).len() ==> (#[trigger] rank_groups(s)[k]).1 == count_rank(
                s,
                rank_groups(s)[k].0,
            ) && rank_groups(s)[k].1 > 0,
        forall|a: int, b: int|
            0 <= a < b < rank_groups(s).len() ==> (#[trigger] rank_groups(s)[a]).0 != (
            #[trigger] rank_groups(s)[b]).0,
        forall|r: nat|
            #![trigger count_rank(s, r)]
            count_rank(s, r) > 0 ==> exists|k: int|
                0 <= k < rank_groups(s).len() && (#[trigger] rank_groups(s)[k]).0 == r,
    decreases s.len(),
{
    if s.len() > 0 {
        let t = s.drop_last();
        groups_agree_with_summary(t);
        let g = rank_groups(t);
        let r0: nat = summary_rank(s.last());
        let pos: int = group_position(g, r0);
        lemma_group_position_bounds(g, r0);
        let h = rank_groups(s);
        assert(h == add_to_groups(g, r0));
        assert forall|k: int| 0 <= k < h.len() implies (#[trigger] h[k]).1 == count_rank(
            s,
            h[k].0,
        ) && h[k].1 > 0 by {
            assert(count_rank(s, h[k].0) == count_rank(t, h[k].0) + if h[k].0 == r0 {
                1nat
            } else {
                0nat
            });
            if k < g.len() && k != pos {
                assert(h[k] == g[k]);
                if g[k].0 == r0 {
                    assert(g[pos].0 == r0);
                }
            } else if k == pos && pos < g.len() {
                assert(h[k] == (r0, g[pos].1 + 1));
            } else {
                assert(h[k] == (r0, 1nat));
                if count_rank(t, r0) > 0 {
                    let j: int = choose|j: int| 0 <= j < g.len() && (#[trigger] g[j]).0 == r0;
                    assert(g[j].0 != r0);
                }
            }
        }
        assert forall|a: int, b: int| 0 <= a < b < h.len() implies (#[trigger] h[a]).0 != (
        #[trigger] h[b]).0 by {
            if b == g.len() {
                assert(h[a] == g[a] || a == pos);
            } else {
                assert(g[a].0 != g[b].0);
            }
        }
        assert forall|r: nat| #![trigger count_rank(s, r)] count_rank(s, r) > 0 implies exists|
            k: int,
        | 0 <= k < h.len() && (#[trigger] h[k]).0 == r by {
            if r == r0 {
                assert(h[pos].0 == r);
            } else {
                assert(count_rank(t, r) > 0);
                let k: int = choose|k: int| 0 <= k < g.len() && (#[trigger] g[k]).0 == r;
                assert(h[k].0 == r);
            }
        }
    }
}

/// Summary lines of the ranks below `upto`.
pub open spec fn summary_prefix(s: Seq<ItemKind>, upto: nat) -> Seq<Seq<char>>
    decreases upto,
{
    if upto == 0 {
        Seq::empty()
    } else {
        summary_prefix(s, (upto - 1) as nat) + summary_entry(s, (upto - 1) as nat)
    }
}

/// The label of a summary rank.
fn label_for_rank(rank: usize) -> (r: &'static str)
    requires
        rank < 5,
    ensures
        r@ == rank_label(rank as nat),
{
    if rank == 0 {
        "CD Player"
    } else if rank == 1 {
        "CD"
    } else if rank == 2 {
        "Key"
    } else if rank == 3 {
        "Sanity Pill"
    } else {
        "Wind-Up Toy"
    }
}

/// Counts the items of each summary rank.
fn count_ranks(items: &Vec<ItemKind>) -> (r: Vec<usize>)
    ensures
        r@.len() == 5,
        forall|k: int| 0 <= k < 5 ==> r@[k] == count_rank(items@, k as nat),
{
    let mut counts: Vec<usize> = vec![0, 0, 0, 0, 0];
    let mut i: usize = 0;
    while i < items.len()
        invariant
            i <= items.len(),
            counts@.len() == 5,
            forall|k: int| 0 <= k < 5 ==> counts@[k] == count_rank(items@.take(i as int), k as nat),
            forall|k: int| 0 <= k < 5 ==> counts@[k] <= i,
        decreases items.len() - i,
    {
        let rank: usize = match items[i] {
            ItemKind::CdPlayer => 0,
            ItemKind::Cd => 1,
            ItemKind::Key { .. } => 2,
            ItemKind::SanityPill => 3,
            ItemKind::WindUpToy => 4,
        };
        assert(items@.take(i as int + 1).drop_last() =~= items@.take(i as int));
        counts.set(rank, counts[rank] + 1);
        i = i + 1;
    }
    assert(items@.take(items.len() as int) =~= items@);
    counts
}

} // verus!
