//! The 64-bit FNV-1a hash.

use vstd::prelude::*;

verus! {

/// The hash of no bytes.
pub const FNV_OFFSET_BASIS: u64 = 0xcbf2_9ce4_8422_2325;

/// What each round multiplies by.
pub const FNV_PRIME: u64 = 0x0000_0100_0000_01b3;

/// One round: mix in a byte, then multiply modulo 2 to the power 64.
pub open spec fn fnv1a64_round(hash: u64, byte: u8) -> u64 {
    (((hash ^ (byte as u64)) * FNV_PRIME) % 0x1_0000_0000_0000_0000) as u64
}

/// The FNV-1a hash of some bytes.
pub open spec fn fnv1a64_of(bytes: Seq<u8>) -> u64
    decreases bytes.len(),
{
    if bytes.len() == 0 {
        FNV_OFFSET_BASIS
    } else {
        fnv1a64_round(fnv1a64_of(bytes.drop_last()), bytes.last())
    }
}

/// Hashes some bytes.
pub fn fnv1a64(bytes: &[u8]) -> (hash: u64)
    ensures
        hash == fnv1a64_of(bytes@),
{
    let mut hash: u64 = FNV_OFFSET_BASIS;
    let n: usize = bytes.len();
    for i in 0..n
        invariant
            n == bytes@.len(),
            hash == fnv1a64_of(bytes@.take(i as int)),
    {
        let ghost next = bytes@.take(i + 1);
        assert(next.drop_last() == bytes@.take(i as int));
        assert(next.last() == bytes@[i as int]);
        let mixed: u64 = hash ^ (bytes[i] as u64);
        hash = mixed.wrapping_mul(FNV_PRIME);
    }
    assert(bytes@.take(n as int) == bytes@);
    hash
}

/// The hash of no bytes is the offset basis, and each further byte is mixed in
/// from the right and spread by the prime, modulo 2 to the power 64.
pub proof fn law_bytes_are_mixed_in_one_by_one(bytes: Seq<u8>, byte: u8)
    ensures
        fnv1a64_of(Seq::empty()) == 0xcbf2_9ce4_8422_2325u64,
        fnv1a64_of(bytes.push(byte)) == ((fnv1a64_of(bytes) ^ (byte as u64)) * 0x100_0000_01b3)
            % 0x1_0000_0000_0000_0000,
{
    assert(bytes.push(byte).drop_last() =~= bytes);
    assert(bytes.push(byte).last() == byte);
}

} // verus!
