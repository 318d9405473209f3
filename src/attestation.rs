//! Attestations: the data a committee votes on, the bitfield of who has voted,
//! and the signatures folded so far.
use vstd::prelude::*;
use crate::hashing::{merkle_root_of, push_root_leaf, push_u64_leaf, merkle_root, u64_leaf};
use crate::primitives::{Epoch, Hash256, Signature, Slot};

verus! {

/// An epoch together with the root of the block at its start.
#[derive(Clone, Copy, Debug, PartialEq, Eq, Hash)]
pub struct Checkpoint {
    pub epoch: Epoch,
    pub root: Hash256,
}

/// What a committee member votes on. Two attestations with equal data can be
/// folded into one.
#[derive(Clone, Copy, Debug, PartialEq, Eq, Hash)]
pub struct AttestationData {
    pub slot: Slot,
    pub shard: u64,
    pub beacon_block_root: Hash256,
    pub source: Checkpoint,
    pub target: Checkpoint,
}

/// The custody bit signed along with attestation data; always unset until
/// custody proofs exist.
pub const PHASE_0_CUSTODY_BIT: bool = false;

/// The hash tree root of a checkpoint.
pub open spec fn checkpoint_root(c: Checkpoint) -> Seq<u8> {
    merkle_root_of(u64_leaf(c.epoch) + c.root.bytes@, 2)
}

/// The leaves of attestation data, one per field; a checkpoint's leaf is its root.
pub open spec fn data_leaves(d: AttestationData) -> Seq<u8> {
    u64_leaf(d.slot) + u64_leaf(d.shard) + d.beacon_block_root.bytes@ + checkpoint_root(d.source)
        + checkpoint_root(d.target)
}

/// The message a validator signs: the hash tree root of the data together
/// with the custody bit.
pub open spec fn signable_message_spec(d: AttestationData, custody_bit: bool) -> Seq<u8> {
    merkle_root_of(
        merkle_root_of(data_leaves(d), 5) + u64_leaf(
            if custody_bit {
                1u64
            } else {
                0u64
            },
        ),
        2,
    )
}

fn checkpoint_root_exec(c: &Checkpoint) -> (r: Hash256)
    ensures
        r.bytes@ == checkpoint_root(*c),
{
    let mut leaves: Vec<u8> = Vec::new();
    push_u64_leaf(&mut leaves, c.epoch);
    push_root_leaf(&mut leaves, &c.root);
    merkle_root(&leaves, 2)
}

impl Checkpoint {
    pub fn same_as(&self, other: &Checkpoint) -> (r: bool)
        ensures
            r == (*self == *other),
    {
        self.epoch == other.epoch && self.root.same_as(&other.root)
    }
}

impl AttestationData {
    /// The message a validator signs for this data, which is also the key
    /// under which votes for it are aggregated.
    pub fn signable_message(&self, custody_bit: bool) -> (r: Hash256)
        ensures
            r.bytes@ == signable_message_spec(*self, custody_bit),
    {
        let mut leaves: Vec<u8> = Vec::new();
        push_u64_leaf(&mut leaves, self.slot);
        push_u64_leaf(&mut leaves, self.shard);
        push_root_leaf(&mut leaves, &self.beacon_block_root);
        push_root_leaf(&mut leaves, &checkpoint_root_exec(&self.source));
        push_root_leaf(&mut leaves, &checkpoint_root_exec(&self.target));
        let data_root = merkle_root(&leaves, 5);
        let mut outer: Vec<u8> = Vec::new();
        push_root_leaf(&mut outer, &data_root);
        push_u64_leaf(&mut outer, if custody_bit { 1 } else { 0 });
        merkle_root(&outer, 2)
    }

    /// Whether two attestations vote for the same thing.
    pub fn same_as(&self, other: &AttestationData) -> (r: bool)
        ensures
            r == (*self == *other),
    {
        self.slot == other.slot && self.shard == other.shard
            && self.beacon_block_root.same_as(&other.beacon_block_root)
            && self.source.same_as(&other.source) && self.target.same_as(&other.target)
    }
}

/// One bit per committee position.
#[derive(Debug, PartialEq, Eq)]
pub struct Bitfield {
    pub bits: Vec<bool>,
}

/// The bits after setting position `i` to `v`; the field grows with unset bits
/// when `i` lies beyond its end.
pub open spec fn set_bit(bits: Seq<bool>, i: int, v: bool) -> Seq<bool> {
    if i < bits.len() {
        bits.update(i, v)
    } else {
        (bits + Seq::new((i + 1 - bits.len()) as nat, |k: int| false)).update(i, v)
    }
}

/// Whether position `i` is set; a position beyond the end is unset.
pub open spec fn bit_at(bits: Seq<bool>, i: int) -> bool {
    0 <= i < bits.len() && bits[i]
}

impl View for Bitfield {
    type V = Seq<bool>;

    open spec fn view(&self) -> Seq<bool> {
        self.bits@
    }
}

impl Bitfield {
    /// An empty field.
    pub fn new() -> (r: Bitfield)
        ensures
            r@ == Seq::<bool>::empty(),
    {
        Bitfield { bits: Vec::new() }
    }

    /// A field of `n` unset bits.
    pub fn with_len(n: usize) -> (r: Bitfield)
        ensures
            r@ == Seq::new(n as nat, |k: int| false),
    {
        let mut bits: Vec<bool> = Vec::new();
        let mut i: usize = 0;
        while i < n
            invariant
                i <= n,
                bits@ == Seq::new(i as nat, |k: int| false),
            decreases n - i,
        {
            bits.push(false);
            i = i + 1;
        }
        Bitfield { bits }
    }

    pub fn len(&self) -> (r: usize)
        ensures
            r == self@.len(),
    {
        self.bits.len()
    }

    /// The bit at `i`, or `None` beyond the end.
    pub fn get(&self, i: usize) -> (r: Option<bool>)
        ensures
            r == (if i < self@.len() { Some(self@[i as int]) } else { None::<bool> }),
    {
        if i < self.bits.len() {
            Some(self.bits[i])
        } else {
            None
        }
    }

    /// Sets position `i` to `v`, growing the field with unset bits if needed.
    pub fn set(&mut self, i: usize, v: bool)
        requires
            i < usize::MAX,
        ensures
            final(self)@ == set_bit(old(self)@, i as int, v),
    {
        let ghost before = self.bits@;
        while self.bits.len() <= i
            invariant
                i < usize::MAX,
                before.len() <= i ==> self.bits@ == before + Seq::new(
                    (self.bits@.len() - before.len()) as nat,
                    |k: int| false,
                ),
                before.len() > i ==> self.bits@ == before,
                self.bits@.len() <= i + 1 || self.bits@ == before,
            decreases i + 1 - self.bits.len(),
        {
            self.bits.push(false);
            proof {
                let n = (self.bits@.len() - before.len()) as nat;
                assert(self.bits@ =~= before + Seq::new(n, |k: int| false));
            }
        }
        self.bits.set(i, v);
        proof {
            if before.len() <= i {
                assert(self.bits@.len() == i + 1);
            }
        }
    }

    /// A copy of this field.
    pub fn duplicate(&self) -> (r: Bitfield)
        ensures
            r@ == self@,
    {
        let mut bits: Vec<bool> = Vec::new();
        let mut i: usize = 0;
        while i < self.bits.len()
            invariant
                i <= self.bits@.len(),
                bits@ == self.bits@.take(i as int),
            decreases self.bits@.len() - i,
        {
            bits.push(self.bits[i]);
            i = i + 1;
            assert(bits@ =~= self.bits@.take(i as int));
        }
        assert(self.bits@.take(i as int) =~= self.bits@);
        Bitfield { bits }
    }
}

/// The signature at slot `i` after setting it to `v`; the slots grow with empty
/// ones when `i` lies beyond their end.
pub open spec fn set_slot(slots: Seq<Option<Signature>>, i: int, v: Option<Signature>) -> Seq<
    Option<Signature>,
> {
    if i < slots.len() {
        slots.update(i, v)
    } else {
        (slots + Seq::new((i + 1 - slots.len()) as nat, |k: int| None::<Signature>)).update(i, v)
    }
}

/// The signature in slot `i`; a slot beyond the end is empty.
pub open spec fn slot_at(slots: Seq<Option<Signature>>, i: int) -> Option<Signature> {
    if 0 <= i < slots.len() {
        slots[i]
    } else {
        None
    }
}

/// The signatures folded into an attestation, one slot per committee
/// position. BLS aggregation is order-independent: the aggregate is the sum of
/// the filled slots, and the slots do not depend on the order in which the
/// votes arrived.
#[derive(Debug, PartialEq, Eq)]
pub struct AggregateSignature {
    pub signatures: Vec<Option<Signature>>,
}

impl View for AggregateSignature {
    type V = Seq<Option<Signature>>;

    open spec fn view(&self) -> Seq<Option<Signature>> {
        self.signatures@
    }
}

impl AggregateSignature {
    /// An aggregate with no slots.
    pub fn new() -> (r: AggregateSignature)
        ensures
            r@ == Seq::<Option<Signature>>::empty(),
    {
        AggregateSignature { signatures: Vec::new() }
    }

    /// An aggregate of `n` empty slots.
    pub fn with_len(n: usize) -> (r: AggregateSignature)
        ensures
            r@ == Seq::new(n as nat, |k: int| None::<Signature>),
    {
        let mut signatures: Vec<Option<Signature>> = Vec::new();
        let mut i: usize = 0;
        while i < n
            invariant
                i <= n,
                signatures@ == Seq::new(i as nat, |k: int| None::<Signature>),
            decreases n - i,
        {
            signatures.push(None);
            i = i + 1;
            assert(signatures@ =~= Seq::new(i as nat, |k: int| None::<Signature>));
        }
        AggregateSignature { signatures }
    }

    /// Folds in the signature of committee position `i`.
    pub fn add(&mut self, i: usize, signature: &Signature)
        requires
            i < usize::MAX,
        ensures
            final(self)@ == set_slot(old(self)@, i as int, Some(*signature)),
    {
        let ghost before = self.signatures@;
        while self.signatures.len() <= i
            invariant
                i < usize::MAX,
                before.len() <= i ==> self.signatures@ == before + Seq::new(
                    (self.signatures@.len() - before.len()) as nat,
                    |k: int| None::<Signature>,
                ),
                before.len() > i ==> self.signatures@ == before,
                self.signatures@.len() <= i + 1 || self.signatures@ == before,
            decreases i + 1 - self.signatures.len(),
        {
            self.signatures.push(None);
            proof {
                let n = (self.signatures@.len() - before.len()) as nat;
                assert(self.signatures@ =~= before + Seq::new(n, |k: int| None::<Signature>));
            }
        }
        self.signatures.set(i, Some(*signature));
        proof {
            if before.len() <= i {
                assert(self.signatures@.len() == i + 1);
            }
        }
    }

    /// A copy of this aggregate.
    pub fn duplicate(&self) -> (r: AggregateSignature)
        ensures
            r@ == self@,
    {
        let mut signatures: Vec<Option<Signature>> = Vec::new();
        let mut i: usize = 0;
        while i < self.signatures.len()
            invariant
                i <= self.signatures@.len(),
                signatures@ == self.signatures@.take(i as int),
            decreases self.signatures@.len() - i,
        {
            let slot = match &self.signatures[i] {
                Some(sig) => Some(*sig),
                None => None,
            };
            signatures.push(slot);
            i = i + 1;
            assert(signatures@ =~= self.signatures@.take(i as int));
        }
        assert(self.signatures@.take(i as int) =~= self.signatures@);
        AggregateSignature { signatures }
    }
}

/// An attestation as the aggregator keeps it: bit `i` of the aggregation field
/// is set exactly when the member at committee position `i` has a signature
/// folded into `aggregate_signature`.
#[derive(Debug, PartialEq, Eq)]
pub struct Attestation {
    pub data: AttestationData,
    pub aggregation_bitfield: Bitfield,
    pub custody_bitfield: Bitfield,
    pub aggregate_signature: AggregateSignature,
}

/// The mathematical value of an attestation.
pub struct AttestationView {
    pub data: AttestationData,
    pub aggregation_bits: Seq<bool>,
    pub custody_bits: Seq<bool>,
    pub signatures: Seq<Option<Signature>>,
}

impl View for Attestation {
    type V = AttestationView;

    open spec fn view(&self) -> AttestationView {
        AttestationView {
            data: self.data,
            aggregation_bits: self.aggregation_bitfield@,
            custody_bits: self.custody_bitfield@,
            signatures: self.aggregate_signature@,
        }
    }
}

impl Attestation {
    /// A copy of this attestation.
    pub fn duplicate(&self) -> (r: Attestation)
        ensures
            r@ == self@,
    {
        Attestation {
            data: self.data,
            aggregation_bitfield: self.aggregation_bitfield.duplicate(),
            custody_bitfield: self.custody_bitfield.duplicate(),
            aggregate_signature: self.aggregate_signature.duplicate(),
        }
    }
}

/// An aggregate attestation with the aggregator's proof that it was selected
/// to publish on the aggregate topic.
#[derive(Debug, PartialEq, Eq)]
pub struct AggregateAndProof {
    /// The index of the validator that created the aggregate.
    pub aggregator_index: u64,
    pub aggregate: Attestation,
    /// The aggregator's signature over the aggregate's slot.
    pub selection_proof: Signature,
}

/// An aggregate and proof signed by its aggregator.
#[derive(Debug, PartialEq, Eq)]
pub struct SignedAggregateAndProof {
    pub message: AggregateAndProof,
    pub signature: Signature,
}

/// A single validator's signed vote, as received over gossip.
#[derive(Clone, Copy, Debug, PartialEq, Eq)]
pub struct FreeAttestation {
    pub data: AttestationData,
    pub signature: Signature,
    pub validator_index: u64,
}

} // verus!
