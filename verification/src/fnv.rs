use vstd::prelude::*;

verus! {

/// The 64-bit FNV-1a offset basis.
pub const FNV_OFFSET_BASIS: u64 = 0xcbf2_9ce4_8422_2325;

/// The 64-bit FNV prime.
pub const FNV_PRIME: u64 = 0x0000_0100_0000_01b3;

/// One FNV-1a round: xor in the byte, then multiply by the prime modulo 2^64.
pub open spec fn fnv1a_step(h: u64, b: u8) -> u64 {
    (h ^ (b as u64)).wrapping_mul(FNV_PRIME)
}

/// The 64-bit FNV-1a hash of `data`.
pub open spec fn spec_fnv1a(data: Seq<u8>) -> u64
    decreases data.len(),
{
    if data.len() == 0 {
        FNV_OFFSET_BASIS
    } else {
        fnv1a_step(spec_fnv1a(data.drop_last()), data.last())
    }
}

/// The 64-bit FNV-1a hash of `data`, the content hash that identifies a clip.
pub fn fnv1a(data: &[u8]) -> (h: u64)
    ensures
        h == spec_fnv1a(data@),
{
    let mut h: u64 = FNV_OFFSET_BASIS;
    let mut i: usize = 0;
    while i < data.len()
        invariant
            i <= data@.len(),
            h == spec_fnv1a(data@.take(i as int)),
        decreases data.len() - i,
    {
        assert(data@.take(i + 1).drop_last() =~= data@.take(i as int));
        h ^= data[i] as u64;
        h = h.wrapping_mul(FNV_PRIME);
        i += 1;
    }
    assert(data@.take(data@.len() as int) =~= data@);
    h
}

} // verus!
