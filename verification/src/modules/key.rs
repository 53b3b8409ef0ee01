//! Keys of counters that are kept by direction.

use vstd::prelude::*;

verus! {

/// The number that eight bytes spell, the first being the least.
pub open spec fn key_number(first: u8, rest: [u8; 7]) -> int {
    first + 0x100 * rest[0] + 0x1_0000 * rest[1] + 0x100_0000 * rest[2] + 0x1_0000_0000 * rest[3]
        + 0x100_0000_0000 * rest[4] + 0x1_0000_0000_0000 * rest[5] + 0x100_0000_0000_0000
        * rest[6]
}

/// Puts eight bytes together into one number, the first being the least.
pub fn number_of_key(first: u8, rest: [u8; 7]) -> (r: u64)
    ensures
        r == key_number(first, rest),
{
    first as u64 + 0x100 * (rest[0] as u64) + 0x1_0000 * (rest[1] as u64) + 0x100_0000 * (
    rest[2] as u64) + 0x1_0000_0000 * (rest[3] as u64) + 0x100_0000_0000 * (rest[4] as u64)
        + 0x1_0000_0000_0000 * (rest[5] as u64) + 0x100_0000_0000_0000 * (rest[6] as u64)
}

proof fn lemma_lowest_byte(a: u8, high_a: int, b: u8, high_b: int)
    requires
        a + 0x100 * high_a == b + 0x100 * high_b,
    ensures
        a == b,
        high_a == high_b,
{
}

/// What the bytes of a key's filler spell from a given one on.
spec fn spelled_from(rest: [u8; 7], i: int) -> int
    decreases 7 - i,
{
    if 0 <= i < 7 {
        rest[i] + 0x100 * spelled_from(rest, i + 1)
    } else {
        0
    }
}

proof fn lemma_spelled_from(x: [u8; 7], y: [u8; 7], i: int)
    requires
        0 <= i <= 7,
        spelled_from(x, i) == spelled_from(y, i),
    ensures
        forall|k: int| i <= k < 7 ==> #[trigger] x[k] == y[k],
    decreases 7 - i,
{
    if i < 7 {
        lemma_lowest_byte(x[i], spelled_from(x, i + 1), y[i], spelled_from(y, i + 1));
        lemma_spelled_from(x, y, i + 1);
    }
}

proof fn lemma_key_number(first: u8, rest: [u8; 7])
    ensures
        key_number(first, rest) == first + 0x100 * spelled_from(rest, 0),
{
    reveal_with_fuel(spelled_from, 8);
}

/// Different bytes make different numbers.
pub proof fn law_key_numbers_differ(a: u8, x: [u8; 7], b: u8, y: [u8; 7])
    requires
        key_number(a, x) == key_number(b, y),
    ensures
        a == b,
        x@ == y@,
{
    lemma_key_number(a, x);
    lemma_key_number(b, y);
    lemma_lowest_byte(a, spelled_from(x, 0), b, spelled_from(y, 0));
    lemma_spelled_from(x, y, 0);
    assert(x@ =~= y@);
}

} // verus!
