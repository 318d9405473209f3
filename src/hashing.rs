//! Hash tree roots of small fixed-size containers: each field becomes one
//! 32-byte leaf, and the leaves are merkleized.
use vstd::prelude::*;
use vstd::arithmetic::div_mod::lemma_div_denominator;
use vstd::arithmetic::power::{lemma_pow_positive, pow};
use crate::primitives::Hash256;

verus! {

/// The root that `tree_hash::merkle_root` computes over `bytes`, packed into
/// 32-byte leaves and padded with zero leaves up to `minimum_leaf_count`.
pub uninterp spec fn merkle_root_of(bytes: Seq<u8>, minimum_leaf_count: nat) -> Seq<u8>;

/// Relies on `tree_hash::merkle_root`: the SHA-256 merkle root of the bytes,
/// which depends on the bytes and the leaf count alone. The leaf count is
/// bounded because the hasher rounds it up to a power of two.
#[verifier::external_body]
pub(crate) fn merkle_root(bytes: &Vec<u8>, minimum_leaf_count: usize) -> (r: Hash256)
    requires
        minimum_leaf_count <= 0x1_0000_0000,
    ensures
        r.bytes@ == merkle_root_of(bytes@, minimum_leaf_count as nat),
{
    Hash256 { bytes: tree_hash::merkle_root(bytes, minimum_leaf_count).0 }
}

/// The little-endian bytes of `x`.
pub open spec fn le_bytes(x: u64) -> Seq<u8> {
    Seq::new(8, |k: int| ((x as int / pow(256, k as nat)) % 256) as u8)
}

/// The leaf of an integer field: its little-endian bytes, padded with zeros.
pub open spec fn u64_leaf(x: u64) -> Seq<u8> {
    le_bytes(x) + Seq::new(24, |k: int| 0u8)
}

/// Appends the leaf of an integer field.
pub fn push_u64_leaf(out: &mut Vec<u8>, x: u64)
    ensures
        final(out)@ == old(out)@ + u64_leaf(x),
{
    let ghost start = old(out)@;
    let mut v: u64 = x;
    let mut k: usize = 0;
    proof {
        vstd::arithmetic::power::lemma_pow0(256);
    }
    while k < 8
        invariant
            k <= 8,
            out@ == start + le_bytes(x).take(k as int),
            v as int == x as int / pow(256, k as nat),
        decreases 8 - k,
    {
        proof {
            lemma_pow_positive(256, k as nat);
            lemma_div_denominator(x as int, pow(256, k as nat), 256);
            assert(pow(256, (k + 1) as nat) == pow(256, k as nat) * 256) by {
                vstd::arithmetic::power::lemma_pow_adds(256, k as nat, 1);
                vstd::arithmetic::power::lemma_pow1(256);
            }
        }
        out.push((v % 256) as u8);
        v = v / 256;
        k = k + 1;
        assert(out@ =~= start + le_bytes(x).take(k as int));
    }
    assert(le_bytes(x).take(8) =~= le_bytes(x));
    let mut z: usize = 0;
    while z < 24
        invariant
            z <= 24,
            out@ == start + le_bytes(x) + Seq::new(z as nat, |k: int| 0u8),
        decreases 24 - z,
    {
        out.push(0u8);
        z = z + 1;
        assert(out@ =~= start + le_bytes(x) + Seq::new(z as nat, |k: int| 0u8));
    }
    assert(start + le_bytes(x) + Seq::new(24, |k: int| 0u8) =~= start + u64_leaf(x));
}

/// Appends the leaf of a root field: the root's own bytes.
pub fn push_root_leaf(out: &mut Vec<u8>, root: &Hash256)
    ensures
        final(out)@ == old(out)@ + root.bytes@,
{
    let ghost start = old(out)@;
    let mut k: usize = 0;
    while k < 32
        invariant
            k <= 32,
            out@ == start + root.bytes@.take(k as int),
        decreases 32 - k,
    {
        out.push(root.bytes[k]);
        k = k + 1;
        assert(out@ =~= start + root.bytes@.take(k as int));
    }
    assert(root.bytes@.take(32) =~= root.bytes@);
}

/// The bytes of a root, as a vector.
pub fn root_bytes(root: &Hash256) -> (r: Vec<u8>)
    ensures
        r@ == root.bytes@,
{
    let mut out: Vec<u8> = Vec::new();
    push_root_leaf(&mut out, root);
    assert(out@ =~= root.bytes@);
    out
}

} // verus!
