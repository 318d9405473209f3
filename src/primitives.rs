//! Fixed-size values shared by every component: roots, keys, signatures.
use vstd::prelude::*;

verus! {

broadcast use vstd::array::group_array_axioms;

pub type Slot = u64;

pub type Epoch = u64;

/// A 32-byte root (block root, state root, shuffling root).
#[derive(Clone, Copy, Debug, PartialEq, Eq, Hash)]
pub struct Hash256 {
    pub bytes: [u8; 32],
}

/// A BLS public key in its 48-byte compressed form.
#[derive(Clone, Copy, Debug, PartialEq, Eq, Hash)]
pub struct PublicKey {
    pub bytes: [u8; 48],
}

/// A BLS signature in its 96-byte compressed form.
#[derive(Clone, Copy, Debug, PartialEq, Eq, Hash)]
pub struct Signature {
    pub bytes: [u8; 96],
}

/// Compares two byte arrays of the same length, one byte at a time.
fn bytes_equal<const N: usize>(a: &[u8; N], b: &[u8; N]) -> (r: bool)
    ensures
        r == (*a == *b),
{
    let mut i: usize = 0;
    while i < N
        invariant
            0 <= i <= N,
            forall|j: int| 0 <= j < i ==> a[j] == b[j],
        decreases N - i,
    {
        if a[i] != b[i] {
            return false;
        }
        i = i + 1;
    }
    assert(*a =~= *b);
    true
}

impl Hash256 {
    /// The root whose 32 bytes are all zero.
    pub fn zero() -> (r: Hash256)
        ensures
            forall|i: int| 0 <= i < 32 ==> r.bytes[i] == 0,
    {
        Hash256 { bytes: [0u8; 32] }
    }

    /// Whether two roots hold the same bytes.
    pub fn same_as(&self, other: &Hash256) -> (r: bool)
        ensures
            r == (*self == *other),
    {
        bytes_equal(&self.bytes, &other.bytes)
    }
}

impl PublicKey {
    /// Whether two keys hold the same bytes.
    pub fn same_as(&self, other: &PublicKey) -> (r: bool)
        ensures
            r == (*self == *other),
    {
        bytes_equal(&self.bytes, &other.bytes)
    }
}

} // verus!
