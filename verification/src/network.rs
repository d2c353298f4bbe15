use vstd::prelude::*;
use rand::Rng;

use crate::text::push_char;

verus! {

/// What a player does to the shared world.
#[derive(Clone, Copy, Debug, PartialEq, Eq, Structural)]
pub enum InteractKind {
    PickupItem { index: usize },
    UseDoor { index: usize },
}

/// Where the multiplayer connection stands.
#[derive(Debug, PartialEq)]
pub enum ConnectionState {
    Offline,
    Connecting,
    Connected,
    Hosting,
    Failed(String),
}

impl Clone for ConnectionState {
    fn clone(&self) -> (r: Self)
        ensures
            r == *self,
    {
        match self {
            ConnectionState::Offline => ConnectionState::Offline,
            ConnectionState::Connecting => ConnectionState::Connecting,
            ConnectionState::Connected => ConnectionState::Connected,
            ConnectionState::Hosting => ConnectionState::Hosting,
            ConnectionState::Failed(reason) => ConnectionState::Failed(reason.clone()),
        }
    }
}

impl ConnectionState {
    /// Online means connected to a host or hosting a session.
    pub fn is_online(&self) -> (r: bool)
        ensures
            r == (self is Connected || self is Hosting),
    {
        match self {
            ConnectionState::Connected => true,
            ConnectionState::Hosting => true,
            _ => false,
        }
    }
}

/// Lower-case hexadecimal digit of `n` (below 16).
pub open spec fn hex_digit(n: int) -> char {
    if n < 10 {
        crate::text::digit_char(n as nat)
    } else if n == 10 {
        'a'
    } else if n == 11 {
        'b'
    } else if n == 12 {
        'c'
    } else if n == 13 {
        'd'
    } else if n == 14 {
        'e'
    } else {
        'f'
    }
}

/// Two lower-case hex digits of a byte.
pub open spec fn hex2(b: u8) -> Seq<char> {
    seq![hex_digit((b / 16) as int), hex_digit((b % 16) as int)]
}

/// The version-4 UUID text of 16 random bytes, grouped 8-4-4-4-12: the
/// version digit is 4 followed by the low nibble of byte 6, and byte 8 has
/// its top two bits set to `10`.
pub open spec fn uuid_text(b: Seq<u8>) -> Seq<char> {
    hex2(b[0]) + hex2(b[1]) + hex2(b[2]) + hex2(b[3]) + seq!['-'] + hex2(b[4]) + hex2(b[5])
        + seq!['-', '4', hex_digit((b[6] & 0x0f) as int)] + hex2(b[7]) + seq!['-'] + hex2(
        ((b[8] & 0x3f) | 0x80) as u8,
    ) + hex2(b[9]) + seq!['-'] + hex2(b[10]) + hex2(b[11]) + hex2(b[12]) + hex2(b[13]) + hex2(
        b[14],
    ) + hex2(b[15])
}

fn hex_char(n: u8) -> (c: char)
    requires
        n < 16,
    ensures
        c == hex_digit(n as int),
{
    if n == 0 {
        '0'
    } else if n == 1 {
        '1'
    } else if n == 2 {
        '2'
    } else if n == 3 {
        '3'
    } else if n == 4 {
        '4'
    } else if n == 5 {
        '5'
    } else if n == 6 {
        '6'
    } else if n == 7 {
        '7'
    } else if n == 8 {
        '8'
    } else if n == 9 {
        '9'
    } else if n == 10 {
        'a'
    } else if n == 11 {
        'b'
    } else if n == 12 {
        'c'
    } else if n == 13 {
        'd'
    } else if n == 14 {
        'e'
    } else {
        'f'
    }
}

fn push_hex2(s: &mut String, b: u8)
    ensures
        final(s)@ == old(s)@ + hex2(b),
{
    push_char(s, hex_char(b / 16));
    push_char(s, hex_char(b % 16));
    assert(final(s)@ =~= old(s)@ + hex2(b));
}

/// Formats 16 bytes as a version-4 UUID (see `uuid_text`).
pub fn format_uuid(b: &[u8]) -> (r: String)
    requires
        b@.len() == 16,
    ensures
        r@ == uuid_text(b@),
{
    let mut s = String::new();
    push_hex2(&mut s, b[0]);
    push_hex2(&mut s, b[1]);
    push_hex2(&mut s, b[2]);
    push_hex2(&mut s, b[3]);
    push_char(&mut s, '-');
    push_hex2(&mut s, b[4]);
    push_hex2(&mut s, b[5]);
    push_char(&mut s, '-');
    push_char(&mut s, '4');
    let b6: u8 = b[6];
    let low: u8 = b6 & 0x0f;
    assert(low < 16) by (bit_vector)
        requires
            low == b6 & 0x0f,
    ;
    push_char(&mut s, hex_char(low));
    push_hex2(&mut s, b[7]);
    push_char(&mut s, '-');
    push_hex2(&mut s, (b[8] & 0x3f) | 0x80);
    push_hex2(&mut s, b[9]);
    push_char(&mut s, '-');
    push_hex2(&mut s, b[10]);
    push_hex2(&mut s, b[11]);
    push_hex2(&mut s, b[12]);
    push_hex2(&mut s, b[13]);
    push_hex2(&mut s, b[14]);
    push_hex2(&mut s, b[15]);
    assert(s@ =~= uuid_text(b@));
    s
}

/// The value of a lower-case hexadecimal digit.
pub open spec fn hex_value(c: char) -> int {
    if '0' <= c && c <= '9' {
        (c as int) - ('0' as int)
    } else {
        (c as int) - ('a' as int) + 10
    }
}

/// The byte written as the two hex digits at `i` and `i + 1` of `t`.
pub open spec fn byte_at(t: Seq<char>, i: int) -> int {
    16 * hex_value(t[i]) + hex_value(t[i + 1])
}

/// Every hex digit reads back as its value and is one of `0-9a-f`.
pub proof fn hex_digits_read_back(n: int)
    requires
        0 <= n < 16,
    ensures
        hex_value(hex_digit(n)) == n,
        ('0' <= hex_digit(n) && hex_digit(n) <= '9') || ('a' <= hex_digit(n) && hex_digit(n)
            <= 'f'),
{
}

proof fn lemma_hex2(b: u8)
    ensures
        hex2(b).len() == 2,
        byte_at(hex2(b), 0) == b,
{
    hex_digits_read_back((b / 16) as int);
    hex_digits_read_back((b % 16) as int);
}

/// The UUID text has the 8-4-4-4-12 layout with dashes between the groups,
/// reads back as the 16 bytes it was made of, except that the version digit
/// is 4 followed by the low nibble of byte 6 and that byte 8 has its top two
/// bits set to `10`.
#[verifier::rlimit(60)]
#[verifier::spinoff_prover]
pub proof fn uuid_reads_back(b: Seq<u8>)
    requires
        b.len() == 16,
    ensures
        ({
            let t = uuid_text(b);
            &&& t.len() == 36
            &&& t[8] == '-' && t[13] == '-' && t[18] == '-' && t[23] == '-'
            &&& t[14] == '4'
            &&& byte_at(t, 0) == b[0] && byte_at(t, 2) == b[1] && byte_at(t, 4) == b[2]
                && byte_at(t, 6) == b[3]
            &&& byte_at(t, 9) == b[4] && byte_at(t, 11) == b[5]
            &&& hex_value(t[15]) == b[6] % 16
            &&& byte_at(t, 16) == b[7]
            &&& byte_at(t, 19) == b[8] % 64 + 128
            &&& byte_at(t, 21) == b[9]
            &&& byte_at(t, 24) == b[10] && byte_at(t, 26) == b[11] && byte_at(t, 28) == b[12]
            &&& byte_at(t, 30) == b[13] && byte_at(t, 32) == b[14] && byte_at(t, 34) == b[15]
        }),
{
    let b6 = b[6];
    let b8 = b[8];
    assert(b6 & 0x0f == b6 % 16) by (bit_vector);
    assert((b8 & 0x3f) | 0x80 == b8 % 64 + 128) by (bit_vector);
    hex_digits_read_back((b6 & 0x0f) as int);
    let v8: u8 = ((b8 & 0x3f) | 0x80) as u8;
    let t = uuid_text(b);
    lemma_hex2(b[0]);
    lemma_hex2(b[1]);
    lemma_hex2(b[2]);
    lemma_hex2(b[3]);
    lemma_hex2(b[4]);
    lemma_hex2(b[5]);
    lemma_hex2(b[7]);
    lemma_hex2(v8);
    lemma_hex2(b[9]);
    lemma_hex2(b[10]);
    lemma_hex2(b[11]);
    lemma_hex2(b[12]);
    lemma_hex2(b[13]);
    lemma_hex2(b[14]);
    lemma_hex2(b[15]);
    assert(t =~= hex2(b[0]) + hex2(b[1]) + hex2(b[2]) + hex2(b[3]) + seq!['-'] + hex2(b[4])
        + hex2(b[5]) + seq!['-', '4', hex_digit((b6 & 0x0f) as int)] + hex2(b[7]) + seq!['-']
        + hex2(v8) + hex2(b[9]) + seq!['-'] + hex2(b[10]) + hex2(b[11]) + hex2(b[12]) + hex2(
        b[13],
    ) + hex2(b[14]) + hex2(b[15]));
    assert(t.len() == 36);
    assert(t.subrange(0, 2) =~= hex2(b[0]));
    assert(t.subrange(2, 4) =~= hex2(b[1]));
    assert(t.subrange(4, 6) =~= hex2(b[2]));
    assert(t.subrange(6, 8) =~= hex2(b[3]));
    assert(t.subrange(9, 11) =~= hex2(b[4]));
    assert(t.subrange(11, 13) =~= hex2(b[5]));
    assert(t.subrange(16, 18) =~= hex2(b[7]));
    assert(t.subrange(19, 21) =~= hex2(v8));
    assert(t.subrange(21, 23) =~= hex2(b[9]));
    assert(t.subrange(24, 26) =~= hex2(b[10]));
    assert(t.subrange(26, 28) =~= hex2(b[11]));
    assert(t.subrange(28, 30) =~= hex2(b[12]));
    assert(t.subrange(30, 32) =~= hex2(b[13]));
    assert(t.subrange(32, 34) =~= hex2(b[14]));
    assert(t.subrange(34, 36) =~= hex2(b[15]));
}

/// Sixteen bytes from `rand`'s thread-local generator
/// (`rand::thread_rng().gen::<[u8; 16]>()`). The bytes are random, so
/// nothing is stated of them; `rand` documents that the thread generator
/// panics only when the operating system cannot seed it.
#[verifier::external_body]
fn random_bytes() -> [u8; 16] {
    rand::thread_rng().gen::<[u8; 16]>()
}

/// A fresh random player id in version-4 UUID form.
pub fn simple_uuid() -> (r: String)
    ensures
        exists|b: Seq<u8>| b.len() == 16 && r@ == uuid_text(b),
{
    let b = random_bytes();
    let r = format_uuid(&b);
    assert(b@.len() == 16);
    r
}

} // verus!
