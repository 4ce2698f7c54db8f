//! Stable handler ids: the 32-bit FNV-1a hash of `service/function`.

use vstd::prelude::*;
use vstd::utf8::encode_utf8;

verus! {

/// The FNV-1a 32-bit offset basis.
pub const FNV_OFFSET: u32 = 0x811c_9dc5u32;

/// The FNV-1a 32-bit prime.
pub const FNV_PRIME: u32 = 0x0100_0193u32;

/// FNV-1a over `bytes`: starting from the offset basis, every byte is
/// xor-ed in and the state multiplied by the prime modulo 2^32.
pub open spec fn fnv(bytes: Seq<u8>) -> u32
    decreases bytes.len(),
{
    if bytes.len() == 0 {
        FNV_OFFSET
    } else {
        (fnv(bytes.drop_last()) ^ (bytes.last() as u32)).wrapping_mul(FNV_PRIME)
    }
}

/// FNV-1a 32-bit hash of `bytes`.
pub fn fnv1a_32(bytes: &[u8]) -> (r: u32)
    ensures
        r == fnv(bytes@),
{
    let mut hash: u32 = FNV_OFFSET;
    let mut i: usize = 0;
    while i < bytes.len()
        invariant
            i <= bytes@.len(),
            hash == fnv(bytes@.subrange(0, i as int)),
        decreases bytes@.len() - i,
    {
        hash = hash ^ (bytes[i] as u32);
        hash = hash.wrapping_mul(FNV_PRIME);
        assert(bytes@.subrange(0, i + 1).drop_last() =~= bytes@.subrange(0, i as int));
        i = i + 1;
    }
    assert(bytes@.subrange(0, bytes@.len() as int) =~= bytes@);
    hash
}

/// The UTF-8 bytes of `svc/func`.
pub open spec fn id_source(svc: Seq<char>, func: Seq<char>) -> Seq<u8> {
    encode_utf8(svc) + seq![47u8] + encode_utf8(func)
}

/// The stable wire id of handler `func` of service `svc`: the FNV-1a hash
/// of the UTF-8 bytes of `svc/func`.
pub fn stable_handler_id(svc: &str, func: &str) -> (r: u32)
    ensures
        r == fnv(id_source(svc@, func@)),
{
    let mut buf: Vec<u8> = Vec::new();
    let a = svc.as_bytes();
    let b = func.as_bytes();
    let mut i: usize = 0;
    while i < a.len()
        invariant
            i <= a@.len(),
            buf@ == a@.subrange(0, i as int),
        decreases a@.len() - i,
    {
        buf.push(a[i]);
        i = i + 1;
        assert(buf@ =~= a@.subrange(0, i as int));
    }
    buf.push(47u8);
    let mut j: usize = 0;
    while j < b.len()
        invariant
            j <= b@.len(),
            buf@ == a@ + seq![47u8] + b@.subrange(0, j as int),
        decreases b@.len() - j,
    {
        buf.push(b[j]);
        j = j + 1;
        assert(buf@ =~= a@ + seq![47u8] + b@.subrange(0, j as int));
    }
    assert(buf@ =~= id_source(svc@, func@));
    fnv1a_32(buf.as_slice())
}

} // verus!
