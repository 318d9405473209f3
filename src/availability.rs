//! Blocks and their data availability: a block is pending until the blobs it
//! commits to have all arrived, or until it is known that it needs none.
use vstd::prelude::*;
use crate::blob::{BlobSidecar, KzgCommitment};
use crate::hashing::{merkle_root_of, push_root_leaf, push_u64_leaf, u64_leaf, merkle_root};
use crate::primitives::{Epoch, Hash256, Signature, Slot};

verus! {

/// The forks of the chain, oldest first.
#[derive(Clone, Copy, Debug, PartialEq, Eq, Structural)]
pub enum ForkName {
    Base,
    Altair,
    Merge,
    Capella,
    Eip4844,
}

impl ForkName {
    /// Whether blocks of this fork carry blobs.
    pub open spec fn has_blobs(self) -> bool {
        self is Eip4844
    }
}

/// Whether a block is to be checked for the availability of its data.
#[derive(Clone, Copy, Debug, PartialEq, Eq, Structural)]
pub enum DataAvailabilityCheckRequired {
    Yes,
    No,
}

/// A block header: what a block's root commits to.
#[derive(Clone, Copy, Debug, PartialEq, Eq)]
pub struct BeaconBlockHeader {
    pub slot: Slot,
    pub proposer_index: u64,
    pub parent_root: Hash256,
    pub state_root: Hash256,
    pub body_root: Hash256,
}

#[derive(Clone, Copy, Debug, PartialEq, Eq)]
pub struct SignedBeaconBlockHeader {
    pub message: BeaconBlockHeader,
    pub signature: Signature,
}

/// A block: its header fields, the fork it belongs to, and the blob
/// commitments its body carries (the body itself is known by its root).
#[derive(Clone, Debug, PartialEq, Eq)]
pub struct BeaconBlock {
    pub slot: Slot,
    pub proposer_index: u64,
    pub parent_root: Hash256,
    pub state_root: Hash256,
    pub body_root: Hash256,
    pub fork_name: ForkName,
    pub blob_kzg_commitments: Vec<KzgCommitment>,
}

#[derive(Clone, Debug, PartialEq, Eq)]
pub struct SignedBeaconBlock {
    pub message: BeaconBlock,
    pub signature: Signature,
}

/// The leaves of a block header, one per field.
pub open spec fn header_leaves(b: BeaconBlock) -> Seq<u8> {
    u64_leaf(b.slot) + u64_leaf(b.proposer_index) + b.parent_root.bytes@ + b.state_root.bytes@
        + b.body_root.bytes@
}

impl SignedBeaconBlock {
    /// The block's root: the hash tree root of its header.
    pub fn canonical_root(&self) -> (r: Hash256)
        ensures
            r.bytes@ == merkle_root_of(header_leaves(self.message), 5),
    {
        let b = &self.message;
        let mut leaves: Vec<u8> = Vec::new();
        push_u64_leaf(&mut leaves, b.slot);
        push_u64_leaf(&mut leaves, b.proposer_index);
        push_root_leaf(&mut leaves, &b.parent_root);
        push_root_leaf(&mut leaves, &b.state_root);
        push_root_leaf(&mut leaves, &b.body_root);
        assert(leaves@ =~= header_leaves(self.message));
        merkle_root(&leaves, 5)
    }

    pub fn signed_block_header(&self) -> (r: SignedBeaconBlockHeader)
        ensures
            r.message.slot == self.message.slot,
            r.message.proposer_index == self.message.proposer_index,
            r.message.parent_root == self.message.parent_root,
            r.message.state_root == self.message.state_root,
            r.message.body_root == self.message.body_root,
            r.signature == self.signature,
    {
        SignedBeaconBlockHeader {
            message: BeaconBlockHeader {
                slot: self.message.slot,
                proposer_index: self.message.proposer_index,
                parent_root: self.message.parent_root,
                state_root: self.message.state_root,
                body_root: self.message.body_root,
            },
            signature: self.signature,
        }
    }
}

/// Why a block counts as available.
#[derive(Clone, Debug, PartialEq, Eq)]
pub enum VerifiedBlobs {
    /// These blobs are available.
    Available(Vec<BlobSidecar>),
    /// The block lies outside the data availability boundary, so its data is
    /// not checked.
    NotRequired,
    /// The block commits to no blobs.
    EmptyBlobs,
    /// The block predates the fork that brought blobs.
    PreEip4844,
}

/// A block whose data is available.
#[derive(Clone, Debug, PartialEq, Eq)]
pub struct AvailableBlock {
    pub block: SignedBeaconBlock,
    pub blobs: VerifiedBlobs,
}

impl AvailableBlock {
    /// The block's blobs, when it has any.
    pub fn blobs(&self) -> (r: Option<&Vec<BlobSidecar>>)
        ensures
            r is Some <==> self.blobs is Available,
            r matches Some(b) ==> *b == self.blobs->Available_0,
    {
        match &self.blobs {
            VerifiedBlobs::Available(blobs) => Some(blobs),
            _ => None,
        }
    }

    /// Splits into the block and its blobs, if it has any.
    pub fn deconstruct(self) -> (r: (SignedBeaconBlock, Option<Vec<BlobSidecar>>))
        ensures
            r.0 == self.block,
            r.1 is Some <==> self.blobs is Available,
            r.1 matches Some(b) ==> b == self.blobs->Available_0,
    {
        match self.blobs {
            VerifiedBlobs::Available(blobs) => (self.block, Some(blobs)),
            _ => (self.block, None),
        }
    }
}

/// A block on its way from seen to available.
#[derive(Clone, Debug, PartialEq, Eq)]
pub enum BlockWrapper {
    /// Every blob the block needs is here, or it needs none.
    Available(AvailableBlock),
    /// The block still waits for blobs.
    AvailabilityPending(SignedBeaconBlock),
}

/// Whether `blobs` is the full, ordered list of blobs for `commitments`: one
/// per commitment, at its index, carrying it.
pub open spec fn blobs_match(blobs: Seq<BlobSidecar>, commitments: Seq<KzgCommitment>) -> bool {
    &&& blobs.len() == commitments.len()
    &&& forall|i: int| 0 <= i < blobs.len() ==> #[trigger] blob_fits(blobs[i], commitments[i], i)
}

/// Whether `blob` sits at index `i` and carries `commitment`.
pub open spec fn blob_fits(blob: BlobSidecar, commitment: KzgCommitment, i: int) -> bool {
    blob.kzg_commitment == commitment && blob.index == i
}

/// The epoch of a block's slot.
pub open spec fn block_epoch(b: BeaconBlock, slots_per_epoch: u64) -> Epoch {
    (b.slot / slots_per_epoch) as Epoch
}

/// Which kind of availability holds for `block`, given the blobs received
/// for it so far and the epoch of the data availability boundary, if any
/// (blocks of earlier epochs need no blobs):
/// pre-fork, else no commitments, else outside the boundary, else the
/// received blobs when they match the commitments. `None` while blobs are
/// still missing.
pub open spec fn verified_blobs_spec(
    block: SignedBeaconBlock,
    received: Option<Vec<BlobSidecar>>,
    boundary: Option<Epoch>,
    slots_per_epoch: u64,
) -> Option<VerifiedBlobs> {
    let b = block.message;
    if !b.fork_name.has_blobs() {
        Some(VerifiedBlobs::PreEip4844)
    } else if b.blob_kzg_commitments@.len() == 0 {
        Some(VerifiedBlobs::EmptyBlobs)
    } else if boundary matches Some(e) && block_epoch(b, slots_per_epoch) < e {
        Some(VerifiedBlobs::NotRequired)
    } else {
        match received {
            Some(v) => if blobs_match(v@, b.blob_kzg_commitments@) {
                Some(VerifiedBlobs::Available(v))
            } else {
                None
            },
            None => None,
        }
    }
}

/// One step of the availability state machine: an available block stays as
/// it is; a pending one becomes available when `received` settles it.
pub open spec fn step_spec(
    w: BlockWrapper,
    received: Option<Vec<BlobSidecar>>,
    boundary: Option<Epoch>,
    slots_per_epoch: u64,
) -> BlockWrapper {
    match w {
        BlockWrapper::Available(a) => BlockWrapper::Available(a),
        BlockWrapper::AvailabilityPending(block) => match verified_blobs_spec(
            block,
            received,
            boundary,
            slots_per_epoch,
        ) {
            Some(vb) => BlockWrapper::Available(AvailableBlock { block, blobs: vb }),
            None => BlockWrapper::AvailabilityPending(block),
        },
    }
}

/// The state after a run of steps, one per arrival.
pub open spec fn run_spec(
    w: BlockWrapper,
    arrivals: Seq<Option<Vec<BlobSidecar>>>,
    boundary: Option<Epoch>,
    slots_per_epoch: u64,
) -> BlockWrapper
    decreases arrivals.len(),
{
    if arrivals.len() == 0 {
        w
    } else {
        run_spec(
            step_spec(w, arrivals[0], boundary, slots_per_epoch),
            arrivals.drop_first(),
            boundary,
            slots_per_epoch,
        )
    }
}

/// The block inside either state.
pub open spec fn block_of(w: BlockWrapper) -> SignedBeaconBlock {
    match w {
        BlockWrapper::Available(a) => a.block,
        BlockWrapper::AvailabilityPending(b) => b,
    }
}

/// Every step keeps the block.
pub proof fn lemma_run_keeps_block(
    w: BlockWrapper,
    arrivals: Seq<Option<Vec<BlobSidecar>>>,
    boundary: Option<Epoch>,
    slots_per_epoch: u64,
)
    ensures
        block_of(run_spec(w, arrivals, boundary, slots_per_epoch)) == block_of(w),
    decreases arrivals.len(),
{
    if arrivals.len() > 0 {
        lemma_run_keeps_block(
            step_spec(w, arrivals[0], boundary, slots_per_epoch),
            arrivals.drop_first(),
            boundary,
            slots_per_epoch,
        );
    }
}

/// Once a block is available it stays available, with the same block and
/// blobs, whatever arrives afterwards.
pub proof fn lemma_available_is_final(
    w: BlockWrapper,
    arrivals: Seq<Option<Vec<BlobSidecar>>>,
    boundary: Option<Epoch>,
    slots_per_epoch: u64,
)
    requires
        w is Available,
    ensures
        run_spec(w, arrivals, boundary, slots_per_epoch) == w,
    decreases arrivals.len(),
{
    if arrivals.len() > 0 {
        lemma_available_is_final(
            step_spec(w, arrivals[0], boundary, slots_per_epoch),
            arrivals.drop_first(),
            boundary,
            slots_per_epoch,
        );
    }
}

impl KzgCommitment {
    pub fn same_as(&self, other: &KzgCommitment) -> (r: bool)
        ensures
            r == (*self == *other),
    {
        let mut i: usize = 0;
        while i < 48
            invariant
                0 <= i <= 48,
                forall|j: int| 0 <= j < i ==> self.bytes[j] == other.bytes[j],
            decreases 48 - i,
        {
            if self.bytes[i] != other.bytes[i] {
                return false;
            }
            i = i + 1;
        }
        assert(self.bytes =~= other.bytes);
        true
    }
}

/// Whether `blobs` is the full, ordered list of blobs for `commitments`.
pub fn blobs_match_commitments(blobs: &Vec<BlobSidecar>, commitments: &Vec<KzgCommitment>) -> (r: bool)
    ensures
        r == blobs_match(blobs@, commitments@),
{
    if blobs.len() != commitments.len() {
        return false;
    }
    let mut i: usize = 0;
    while i < blobs.len()
        invariant
            blobs@.len() == commitments@.len(),
            i <= blobs@.len(),
            forall|j: int| 0 <= j < i ==> #[trigger] blob_fits(blobs@[j], commitments@[j], j),
        decreases blobs@.len() - i,
    {
        if !blobs[i].kzg_commitment.same_as(&commitments[i]) || blobs[i].index != i as u64 {
            assert(!blob_fits(blobs@[i as int], commitments@[i as int], i as int));
            return false;
        }
        assert(blob_fits(blobs@[i as int], commitments@[i as int], i as int));
        i = i + 1;
    }
    true
}

/// Decides which kind of availability holds for `block`, given the blobs
/// received so far and the epoch of the data availability boundary; `None`
/// while blobs are still missing.
pub fn verified_blobs_for(
    block: &SignedBeaconBlock,
    received: Option<Vec<BlobSidecar>>,
    boundary: Option<Epoch>,
    slots_per_epoch: u64,
) -> (r: Option<VerifiedBlobs>)
    requires
        slots_per_epoch > 0,
    ensures
        r == verified_blobs_spec(*block, received, boundary, slots_per_epoch),
{
    let b = &block.message;
    if !matches!(b.fork_name, ForkName::Eip4844) {
        return Some(VerifiedBlobs::PreEip4844);
    }
    if b.blob_kzg_commitments.len() == 0 {
        return Some(VerifiedBlobs::EmptyBlobs);
    }
    if let Some(e) = boundary {
        if b.slot / slots_per_epoch < e {
            return Some(VerifiedBlobs::NotRequired);
        }
    }
    match received {
        Some(v) => {
            if blobs_match_commitments(&v, &b.blob_kzg_commitments) {
                Some(VerifiedBlobs::Available(v))
            } else {
                None
            }
        },
        None => None,
    }
}

impl BlockWrapper {
    /// Offers the blobs received so far: a pending block becomes available
    /// when they settle it; an available block stays as it is.
    pub fn with_received_blobs(
        self,
        received: Option<Vec<BlobSidecar>>,
        boundary: Option<Epoch>,
        slots_per_epoch: u64,
    ) -> (r: BlockWrapper)
        requires
            slots_per_epoch > 0,
        ensures
            r == step_spec(self, received, boundary, slots_per_epoch),
    {
        match self {
            BlockWrapper::Available(a) => BlockWrapper::Available(a),
            BlockWrapper::AvailabilityPending(block) => {
                match verified_blobs_for(&block, received, boundary, slots_per_epoch) {
                    Some(vb) => BlockWrapper::Available(AvailableBlock { block, blobs: vb }),
                    None => BlockWrapper::AvailabilityPending(block),
                }
            },
        }
    }

    /// The available block, or `None` while pending.
    pub fn into_available_block(self) -> (r: Option<AvailableBlock>)
        ensures
            r is Some <==> self is Available,
            r matches Some(a) ==> self == BlockWrapper::Available(a),
    {
        match self {
            BlockWrapper::AvailabilityPending(_) => None,
            BlockWrapper::Available(block) => Some(block),
        }
    }
}

/// A block just seen waits for its blobs.
impl From<SignedBeaconBlock> for BlockWrapper {
    fn from(block: SignedBeaconBlock) -> (r: BlockWrapper) {
        BlockWrapper::AvailabilityPending(block)
    }
}

impl vstd::std_specs::convert::FromSpecImpl<SignedBeaconBlock> for BlockWrapper {
    open spec fn obeys_from_spec() -> bool {
        true
    }

    open spec fn from_spec(block: SignedBeaconBlock) -> BlockWrapper {
        BlockWrapper::AvailabilityPending(block)
    }
}

impl From<AvailableBlock> for BlockWrapper {
    fn from(block: AvailableBlock) -> (r: BlockWrapper) {
        BlockWrapper::Available(block)
    }
}

impl vstd::std_specs::convert::FromSpecImpl<AvailableBlock> for BlockWrapper {
    open spec fn obeys_from_spec() -> bool {
        true
    }

    open spec fn from_spec(block: AvailableBlock) -> BlockWrapper {
        BlockWrapper::Available(block)
    }
}

/// Uniform access to the block of a wrapper, whatever its state.
pub trait AsBlock {
    spec fn block_spec(&self) -> SignedBeaconBlock;

    fn slot(&self) -> (r: Slot)
        ensures
            r == self.block_spec().message.slot,
    ;

    fn epoch(&self, slots_per_epoch: u64) -> (r: Epoch)
        requires
            slots_per_epoch > 0,
        ensures
            r == block_epoch(self.block_spec().message, slots_per_epoch),
    ;

    fn parent_root(&self) -> (r: Hash256)
        ensures
            r == self.block_spec().message.parent_root,
    ;

    fn state_root(&self) -> (r: Hash256)
        ensures
            r == self.block_spec().message.state_root,
    ;

    fn signed_block_header(&self) -> (r: SignedBeaconBlockHeader)
        ensures
            r.message.slot == self.block_spec().message.slot,
            r.message.proposer_index == self.block_spec().message.proposer_index,
            r.message.parent_root == self.block_spec().message.parent_root,
            r.message.state_root == self.block_spec().message.state_root,
            r.message.body_root == self.block_spec().message.body_root,
            r.signature == self.block_spec().signature,
    ;

    fn as_block(&self) -> (r: &SignedBeaconBlock)
        ensures
            *r == self.block_spec(),
    ;

    fn canonical_root(&self) -> (r: Hash256)
        ensures
            r.bytes@ == merkle_root_of(header_leaves(self.block_spec().message), 5),
    ;
}

impl AsBlock for BlockWrapper {
    open spec fn block_spec(&self) -> SignedBeaconBlock {
        block_of(*self)
    }

    fn slot(&self) -> (r: Slot) {
        self.as_block().message.slot
    }

    fn epoch(&self, slots_per_epoch: u64) -> (r: Epoch) {
        self.as_block().message.slot / slots_per_epoch
    }

    fn parent_root(&self) -> (r: Hash256) {
        self.as_block().message.parent_root
    }

    fn state_root(&self) -> (r: Hash256) {
        self.as_block().message.state_root
    }

    fn signed_block_header(&self) -> (r: SignedBeaconBlockHeader) {
        self.as_block().signed_block_header()
    }

    fn as_block(&self) -> (r: &SignedBeaconBlock) {
        match self {
            BlockWrapper::Available(block) => &block.block,
            BlockWrapper::AvailabilityPending(block) => block,
        }
    }

    fn canonical_root(&self) -> (r: Hash256) {
        self.as_block().canonical_root()
    }
}

} // verus!
