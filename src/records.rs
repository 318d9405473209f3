//! Small records of the chain state and their hash tree roots.
use vstd::prelude::*;
use crate::hashing::{merkle_root_of, push_root_leaf, push_u64_leaf, root_bytes, merkle_root, u64_leaf};
use crate::primitives::{Epoch, Hash256, Slot};

verus! {

/// The latest crosslink of a shard: the epoch and the shard block it points to.
#[derive(Clone, Copy, Debug, PartialEq, Eq, Hash, Default)]
pub struct Crosslink {
    pub epoch: Epoch,
    pub shard_block_root: Hash256,
}

/// A validator moved to another shard from a given slot.
#[derive(Clone, Copy, Debug, PartialEq, Eq)]
pub struct ShardReassignmentRecord {
    pub validator_index: u64,
    pub shard: u64,
    pub slot: Slot,
}

impl Default for Hash256 {
    fn default() -> (r: Hash256)
        ensures
            r.bytes@ == Seq::new(32, |k: int| 0u8),
    {
        let r = Hash256::zero();
        assert(r.bytes@ =~= Seq::new(32, |k: int| 0u8));
        r
    }
}

impl Crosslink {
    /// The crosslink at epoch zero pointing at the zero root.
    pub fn zero() -> (r: Crosslink)
        ensures
            r.epoch == 0,
            r.shard_block_root.bytes@ == Seq::new(32, |k: int| 0u8),
    {
        let r = Crosslink { epoch: 0, shard_block_root: Hash256::zero() };
        assert(r.shard_block_root.bytes@ =~= Seq::new(32, |k: int| 0u8));
        r
    }

    /// The leaves of the record: one per field, in field order.
    pub open spec fn leaves(&self) -> Seq<u8> {
        u64_leaf(self.epoch) + self.shard_block_root.bytes@
    }

    /// The hash tree root of the record, as 32 bytes.
    pub fn hash_tree_root_internal(&self) -> (r: Vec<u8>)
        ensures
            r@ == merkle_root_of(self.leaves(), 2),
            r@.len() == 32,
    {
        let mut leaves: Vec<u8> = Vec::new();
        push_u64_leaf(&mut leaves, self.epoch);
        push_root_leaf(&mut leaves, &self.shard_block_root);
        assert(leaves@ =~= self.leaves());
        root_bytes(&merkle_root(&leaves, 2))
    }
}

impl ShardReassignmentRecord {
    /// The leaves of the record: one per field, in field order.
    pub open spec fn leaves(&self) -> Seq<u8> {
        u64_leaf(self.validator_index) + u64_leaf(self.shard) + u64_leaf(self.slot)
    }

    /// The hash tree root of the record, as 32 bytes.
    pub fn hash_tree_root_internal(&self) -> (r: Vec<u8>)
        ensures
            r@ == merkle_root_of(self.leaves(), 3),
            r@.len() == 32,
    {
        let mut leaves: Vec<u8> = Vec::new();
        push_u64_leaf(&mut leaves, self.validator_index);
        push_u64_leaf(&mut leaves, self.shard);
        push_u64_leaf(&mut leaves, self.slot);
        assert(leaves@ =~= self.leaves());
        root_bytes(&merkle_root(&leaves, 3))
    }
}

} // verus!
