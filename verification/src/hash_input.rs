//! The byte writes that feed a `DefaultHasher`: one write per flag, enum
//! variant, integer or text, laid out as the standard `Hash` impls lay them
//! out on a little-endian 64-bit target.

use vstd::prelude::*;
use std::collections::hash_map::DefaultHasher;
use std::hash::Hasher;
use vstd::std_specs::hash::DefaultHasherAdditionalSpecFns;
use vstd::string::StringSliceAdditionalSpecFns;
use vstd::utf8::encode_utf8;

verus! {

/// Bytes hashed for a flag: one byte, 1 for true.
#[verifier::opaque]
pub open spec fn flag_bytes(b: bool) -> Seq<u8> {
    seq![if b {
        1u8
    } else {
        0u8
    }]
}

/// Bytes hashed for an enum value: its variant index as eight
/// little-endian bytes.
#[verifier::opaque]
pub open spec fn variant_bytes(i: u8) -> Seq<u8> {
    seq![i, 0u8, 0u8, 0u8, 0u8, 0u8, 0u8, 0u8]
}

/// Byte `k` (0 is the lowest) of a 64-bit word.
pub open spec fn u64_byte(x: u64, k: nat) -> u8 {
    (((x as nat) / pow256(k)) % 256) as u8
}

/// 256 to the power `k`.
pub open spec fn pow256(k: nat) -> nat
    decreases k,
{
    if k == 0 {
        1
    } else {
        256 * pow256((k - 1) as nat)
    }
}

/// Bytes hashed for a 64-bit integer: eight little-endian bytes.
pub open spec fn u64_bytes(x: u64) -> Seq<u8> {
    Seq::new(8, |k: int| u64_byte(x, k as nat))
}

/// The writes that hash a text: its UTF-8 bytes, then the byte 0xff that
/// ends every text.
pub open spec fn str_chunks(s: Seq<char>) -> Seq<Seq<u8>> {
    seq![encode_utf8(s), seq![0xffu8]]
}

/// Hashes a flag.
pub fn write_flag(hasher: &mut DefaultHasher, b: bool)
    ensures
        final(hasher)@ == old(hasher)@.push(flag_bytes(b)),
{
    let x: u8 = if b {
        1
    } else {
        0
    };
    let bytes: [u8; 1] = [x];
    hasher.write(bytes.as_slice());
    reveal(flag_bytes);
    assert(bytes@ =~= flag_bytes(b));
}

/// Hashes an enum value by its variant index.
pub fn write_variant(hasher: &mut DefaultHasher, i: u8)
    ensures
        final(hasher)@ == old(hasher)@.push(variant_bytes(i)),
{
    let bytes: [u8; 8] = [i, 0, 0, 0, 0, 0, 0, 0];
    hasher.write(bytes.as_slice());
    reveal(variant_bytes);
    assert(bytes@ =~= variant_bytes(i));
}

/// Hashes a byte.
pub fn write_u8(hasher: &mut DefaultHasher, x: u8)
    ensures
        final(hasher)@ == old(hasher)@.push(seq![x]),
{
    let bytes: [u8; 1] = [x];
    hasher.write(bytes.as_slice());
    assert(bytes@ =~= seq![x]);
}

/// Hashes a 64-bit integer.
pub fn write_u64(hasher: &mut DefaultHasher, x: u64)
    ensures
        final(hasher)@ == old(hasher)@.push(u64_bytes(x)),
{
    let mut bytes: [u8; 8] = [0; 8];
    let mut rest: u64 = x;
    let mut k: usize = 0;
    assert(pow256(0) == 1);
    assert((x as nat) / 1 == x);
    while k < 8
        invariant
            k <= 8,
            rest == (x as nat) / pow256(k as nat),
            forall|j: int| 0 <= j < k ==> bytes@[j] == u64_byte(x, j as nat),
            bytes@.len() == 8,
        decreases 8 - k,
    {
        proof {
            lemma_pow256_step(k as nat);
            vstd::arithmetic::div_mod::lemma_div_denominator(x as int, pow256(k as nat) as int, 256);
        }
        bytes[k] = (rest % 256) as u8;
        rest = rest / 256;
        k = k + 1;
    }
    hasher.write(bytes.as_slice());
    assert(bytes@ =~= u64_bytes(x));
}

proof fn lemma_pow256_step(k: nat)
    ensures
        pow256(k) > 0,
        pow256(k + 1) == pow256(k) * 256,
    decreases k,
{
    if k > 0 {
        lemma_pow256_step((k - 1) as nat);
    }
}

/// Hashes a text: its bytes, then the end marker.
pub fn write_str(hasher: &mut DefaultHasher, s: &str)
    ensures
        final(hasher)@ == old(hasher)@ + str_chunks(s@),
{
    hasher.write(s.as_bytes());
    let end: [u8; 1] = [0xff];
    hasher.write(end.as_slice());
    assert(end@ =~= seq![0xffu8]);
}

} // verus!
