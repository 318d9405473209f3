//! Blob sidecars and the checks a sidecar passes before it is relayed on
//! gossip and handed to the availability cache.
use vstd::prelude::*;
use crate::primitives::{Epoch, Hash256, PublicKey, Signature, Slot};
use crate::state::{BeaconStateError, Fork};

verus! {

/// A 48-byte KZG commitment to a blob.
#[derive(Clone, Copy, Debug, PartialEq, Eq, Hash)]
pub struct KzgCommitment {
    pub bytes: [u8; 48],
}

/// A 48-byte KZG proof that a blob matches its commitment.
#[derive(Clone, Copy, Debug, PartialEq, Eq, Hash)]
pub struct KzgProof {
    pub bytes: [u8; 48],
}

/// One blob of one block, with what binds it to that block.
#[derive(Clone, Debug, PartialEq, Eq)]
pub struct BlobSidecar {
    pub block_root: Hash256,
    pub index: u64,
    pub slot: Slot,
    pub block_parent_root: Hash256,
    pub proposer_index: u64,
    pub blob: Vec<u8>,
    pub kzg_commitment: KzgCommitment,
    pub kzg_proof: KzgProof,
}

/// A sidecar signed by the block's proposer.
#[derive(Clone, Debug, PartialEq, Eq)]
pub struct SignedBlobSidecar {
    pub message: BlobSidecar,
    pub signature: Signature,
}

/// Why the availability cache refused a sidecar.
#[derive(Clone, Copy, Debug, PartialEq, Eq)]
pub enum BlobCacheError {
    /// The cache's lock could not be taken in time.
    LockTimeout,
    /// The sidecar's index lies beyond the blobs a block may carry.
    IndexOutOfBounds(u64),
}

/// Failures of the chain itself, not attributable to the peer.
#[derive(Clone, Copy, Debug, PartialEq, Eq)]
pub enum BeaconChainError {
    UnableToReadSlot,
    ValidatorPubkeyCacheLockTimeout,
    BeaconStateError(BeaconStateError),
}

/// What the KZG library reported, in its own words.
#[derive(Clone, Debug, PartialEq, Eq)]
pub struct KzgError {
    pub message: String,
}

#[derive(Clone, Debug, PartialEq, Eq)]
pub enum BlobError {
    /// The sidecar is from a slot later than the current one, allowing for
    /// clock disparity.
    FutureSlot { message_slot: Slot, latest_permissible_slot: Slot },
    /// The sidecar has a different slot than the block.
    SlotMismatch { blob_slot: Slot, block_slot: Slot },
    /// No KZG commitment goes with the sidecar.
    KzgCommitmentMissing,
    /// The block has no transactions.
    TransactionsMissing,
    /// The blob transactions of the block do not carry the block's commitments.
    TransactionCommitmentMismatch,
    /// No trusted setup is loaded.
    TrustedSetupNotInitialized,
    /// The blobs do not match their commitments and proofs.
    InvalidKzgProof,
    /// The KZG library failed.
    KzgError(KzgError),
    /// The chain failed; the sidecar may be valid.
    BeaconChainError(BeaconChainError),
    /// No blobs came for a block that needs them.
    UnavailableBlobs,
    /// Blobs came for a block of a fork without blobs.
    InconsistentFork,
    /// The block the sidecar belongs to is not known yet.
    UnknownHeadBlock { beacon_block_root: Hash256 },
    /// The sidecar came over another subnet than its index.
    InvalidSubnet { expected: u64, received: u64 },
    /// The sidecar is not newer than the finalized slot.
    PastFinalizedSlot { blob_slot: Slot, finalized_slot: Slot },
    /// The sidecar names another proposer than the one computed locally.
    ProposerIndexMismatch { sidecar: u64, local: u64 },
    /// The proposer's signature over the sidecar does not verify.
    ProposerSignatureInvalid,
    /// A different sidecar with the same slot, proposer and index was seen.
    RepeatSidecar { proposer: u64, slot: Slot, blob_index: u64 },
    /// The proposer is not in the validator key cache.
    UnknownValidator(u64),
    /// The availability cache refused the sidecar.
    BlobCacheError(BlobCacheError),
}

/// A sidecar that passed gossip validation.
#[derive(Clone, Copy, Debug, PartialEq, Eq)]
pub struct GossipVerifiedBlobSidecar {
    /// Whether the cache now holds every blob of the block.
    pub all_blobs_available: bool,
    pub block_root: Hash256,
}

/// A proposer looked up ahead of time, by shuffling root and slot.
#[derive(Clone, Copy, Debug, PartialEq, Eq)]
pub struct CachedProposer {
    pub shuffling_root: Hash256,
    pub slot: Slot,
    pub index: u64,
    pub fork: Fork,
}

/// What gossip validation reads from the chain, taken at one moment.
#[derive(Clone, Debug, PartialEq, Eq)]
pub struct GossipChain {
    /// The current slot allowing for clock disparity, or `None` when the
    /// clock cannot be read.
    pub latest_permissible_slot: Option<Slot>,
    pub finalized_epoch: Epoch,
    pub slots_per_epoch: u64,
    pub proposer_cache: Vec<CachedProposer>,
    /// The proposer of each slot as the canonical head state computes it.
    pub head_proposers: Vec<(Slot, u64)>,
    pub head_fork: Fork,
    /// The validators' keys by index, or `None` when the key cache's lock was
    /// not had in time.
    pub validator_pubkeys: Option<Vec<PublicKey>>,
    /// The roots of the blocks known to fork choice or to the early attester
    /// cache.
    pub known_block_roots: Vec<Hash256>,
}

/// The services gossip validation calls out to: the signature scheme and the
/// availability cache.
pub trait GossipServices {
    /// Whether the proposer's signature over the sidecar verifies under
    /// `pubkey` and `fork`.
    fn verify_sidecar_signature(
        &self,
        sidecar: &SignedBlobSidecar,
        pubkey: &PublicKey,
        fork: &Fork,
    ) -> bool;

    /// Records the sidecar and tells whether every blob of its block is now
    /// held.
    fn put_blob(&mut self, sidecar: &SignedBlobSidecar) -> Result<bool, BlobCacheError>;
}

/// The first slot of `epoch`, saturating at the largest slot.
pub open spec fn start_slot(epoch: Epoch, slots_per_epoch: u64) -> Slot {
    if epoch * slots_per_epoch > u64::MAX {
        u64::MAX
    } else {
        (epoch * slots_per_epoch) as Slot
    }
}

/// The first cached proposer among the first `n` entries for `root` and `slot`.
pub open spec fn cached_proposer(cache: Seq<CachedProposer>, root: Hash256, slot: Slot, n: nat) -> Option<
    CachedProposer,
>
    decreases n,
{
    if n == 0 {
        None
    } else {
        match cached_proposer(cache, root, slot, (n - 1) as nat) {
            Some(c) => Some(c),
            None => if cache[n - 1].shuffling_root == root && cache[n - 1].slot == slot {
                Some(cache[n - 1])
            } else {
                None
            },
        }
    }
}

/// The head state's proposer for `slot` among the first `n` entries.
pub open spec fn head_proposer(heads: Seq<(Slot, u64)>, slot: Slot, n: nat) -> Option<u64>
    decreases n,
{
    if n == 0 {
        None
    } else {
        match head_proposer(heads, slot, (n - 1) as nat) {
            Some(p) => Some(p),
            None => if heads[n - 1].0 == slot {
                Some(heads[n - 1].1)
            } else {
                None
            },
        }
    }
}

/// The proposer and fork for a sidecar: from the cache when it has the
/// entry, else from the head state.
pub open spec fn proposer_spec(chain: GossipChain, parent_root: Hash256, slot: Slot) -> Result<
    (u64, Fork),
    BlobError,
> {
    match cached_proposer(chain.proposer_cache@, parent_root, slot, chain.proposer_cache@.len()) {
        Some(c) => Ok((c.index, c.fork)),
        None => match head_proposer(chain.head_proposers@, slot, chain.head_proposers@.len()) {
            Some(p) => Ok((p, chain.head_fork)),
            None => Err(
                BlobError::BeaconChainError(
                    BeaconChainError::BeaconStateError(BeaconStateError::SlotOutOfBounds),
                ),
            ),
        },
    }
}

/// The checks before the signature, in their order: subnet, future slot,
/// finalized slot, proposer, proposer's key. On success, the proposer's key
/// and the fork to verify the signature under.
pub open spec fn precheck_spec(sidecar: BlobSidecar, subnet: u64, chain: GossipChain) -> Result<
    (PublicKey, Fork),
    BlobError,
> {
    let finalized_slot = start_slot(chain.finalized_epoch, chain.slots_per_epoch);
    if sidecar.index != subnet {
        Err(BlobError::InvalidSubnet { expected: sidecar.index, received: subnet })
    } else if chain.latest_permissible_slot is None {
        Err(BlobError::BeaconChainError(BeaconChainError::UnableToReadSlot))
    } else if sidecar.slot > chain.latest_permissible_slot->Some_0 {
        Err(
            BlobError::FutureSlot {
                message_slot: sidecar.slot,
                latest_permissible_slot: chain.latest_permissible_slot->Some_0,
            },
        )
    } else if sidecar.slot <= finalized_slot {
        Err(BlobError::PastFinalizedSlot { blob_slot: sidecar.slot, finalized_slot })
    } else {
        match proposer_spec(chain, sidecar.block_parent_root, sidecar.slot) {
            Err(e) => Err(e),
            Ok((index, fork)) => if index != sidecar.proposer_index {
                Err(BlobError::ProposerIndexMismatch { sidecar: sidecar.proposer_index, local: index })
            } else {
                match chain.validator_pubkeys {
                    None => Err(
                        BlobError::BeaconChainError(
                            BeaconChainError::ValidatorPubkeyCacheLockTimeout,
                        ),
                    ),
                    Some(keys) => if index >= keys@.len() {
                        Err(BlobError::UnknownValidator(index))
                    } else {
                        Ok((keys@[index as int], fork))
                    },
                }
            },
        }
    }
}

/// Whether `root` is among `roots`.
pub open spec fn root_known(roots: Seq<Hash256>, root: Hash256) -> bool {
    exists|i: int| 0 <= i < roots.len() && roots[i] == root
}

/// The outcome once the signature has verified, for each answer of the
/// availability cache: its refusal, else an unknown block, else success.
pub open spec fn conclude_spec(
    block_root: Hash256,
    cache_result: Result<bool, BlobCacheError>,
    block_known: bool,
) -> Result<GossipVerifiedBlobSidecar, BlobError> {
    match cache_result {
        Err(e) => Err(BlobError::BlobCacheError(e)),
        Ok(all_blobs_available) => if !block_known {
            Err(BlobError::UnknownHeadBlock { beacon_block_root: block_root })
        } else {
            Ok(GossipVerifiedBlobSidecar { all_blobs_available, block_root })
        },
    }
}

fn find_cached_proposer(cache: &Vec<CachedProposer>, root: &Hash256, slot: Slot) -> (r: Option<
    CachedProposer,
>)
    ensures
        r == cached_proposer(cache@, *root, slot, cache@.len()),
{
    let mut i: usize = 0;
    while i < cache.len()
        invariant
            i <= cache@.len(),
            cached_proposer(cache@, *root, slot, i as nat) is None,
        decreases cache@.len() - i,
    {
        if cache[i].slot == slot && cache[i].shuffling_root.same_as(root) {
            proof {
                lemma_cached_proposer_found(cache@, *root, slot, (i + 1) as nat, cache@.len());
            }
            return Some(cache[i]);
        }
        i = i + 1;
    }
    None
}

proof fn lemma_cached_proposer_found(
    cache: Seq<CachedProposer>,
    root: Hash256,
    slot: Slot,
    n: nat,
    m: nat,
)
    requires
        n <= m,
        cached_proposer(cache, root, slot, n) is Some,
    ensures
        cached_proposer(cache, root, slot, m) == cached_proposer(cache, root, slot, n),
    decreases m - n,
{
    if n < m {
        lemma_cached_proposer_found(cache, root, slot, n, (m - 1) as nat);
    }
}

proof fn lemma_head_proposer_found(heads: Seq<(Slot, u64)>, slot: Slot, n: nat, m: nat)
    requires
        n <= m,
        head_proposer(heads, slot, n) is Some,
    ensures
        head_proposer(heads, slot, m) == head_proposer(heads, slot, n),
    decreases m - n,
{
    if n < m {
        lemma_head_proposer_found(heads, slot, n, (m - 1) as nat);
    }
}

fn find_head_proposer(heads: &Vec<(Slot, u64)>, slot: Slot) -> (r: Option<u64>)
    ensures
        r == head_proposer(heads@, slot, heads@.len()),
{
    let mut i: usize = 0;
    while i < heads.len()
        invariant
            i <= heads@.len(),
            head_proposer(heads@, slot, i as nat) is None,
        decreases heads@.len() - i,
    {
        if heads[i].0 == slot {
            proof {
                lemma_head_proposer_found(heads@, slot, (i + 1) as nat, heads@.len());
            }
            return Some(heads[i].1);
        }
        i = i + 1;
    }
    None
}

/// Whether `root` is among `roots`.
pub fn is_known_root(roots: &Vec<Hash256>, root: &Hash256) -> (r: bool)
    ensures
        r == root_known(roots@, *root),
{
    let mut i: usize = 0;
    while i < roots.len()
        invariant
            i <= roots@.len(),
            forall|j: int| 0 <= j < i ==> roots@[j] != *root,
        decreases roots@.len() - i,
    {
        if roots[i].same_as(root) {
            return true;
        }
        i = i + 1;
    }
    false
}

/// Resolves the sidecar's proposer: from the proposer cache when it holds the
/// parent root and slot, else from the canonical head state.
pub fn resolve_proposer(chain: &GossipChain, parent_root: &Hash256, slot: Slot) -> (r: Result<
    (u64, Fork),
    BlobError,
>)
    ensures
        r == proposer_spec(*chain, *parent_root, slot),
{
    match find_cached_proposer(&chain.proposer_cache, parent_root, slot) {
        Some(c) => Ok((c.index, c.fork)),
        None => match find_head_proposer(&chain.head_proposers, slot) {
            Some(p) => Ok((p, chain.head_fork)),
            None => Err(
                BlobError::BeaconChainError(
                    BeaconChainError::BeaconStateError(BeaconStateError::SlotOutOfBounds),
                ),
            ),
        },
    }
}

/// Runs the checks that come before the signature, in their order, and
/// returns the key and fork the signature is to be verified under.
pub fn precheck_blob_sidecar(sidecar: &BlobSidecar, subnet: u64, chain: &GossipChain) -> (r: Result<
    (PublicKey, Fork),
    BlobError,
>)
    ensures
        r == precheck_spec(*sidecar, subnet, *chain),
{
    if sidecar.index != subnet {
        return Err(BlobError::InvalidSubnet { expected: sidecar.index, received: subnet });
    }
    let latest_permissible_slot = match chain.latest_permissible_slot {
        None => {
            return Err(BlobError::BeaconChainError(BeaconChainError::UnableToReadSlot));
        },
        Some(s) => s,
    };
    if sidecar.slot > latest_permissible_slot {
        return Err(
            BlobError::FutureSlot { message_slot: sidecar.slot, latest_permissible_slot },
        );
    }
    let finalized_slot = match chain.finalized_epoch.checked_mul(chain.slots_per_epoch) {
        Some(s) => s,
        None => u64::MAX,
    };
    if sidecar.slot <= finalized_slot {
        return Err(BlobError::PastFinalizedSlot { blob_slot: sidecar.slot, finalized_slot });
    }
    let (index, fork) = match resolve_proposer(chain, &sidecar.block_parent_root, sidecar.slot) {
        Err(e) => {
            return Err(e);
        },
        Ok(p) => p,
    };
    if index != sidecar.proposer_index {
        return Err(
            BlobError::ProposerIndexMismatch { sidecar: sidecar.proposer_index, local: index },
        );
    }
    match &chain.validator_pubkeys {
        None => Err(BlobError::BeaconChainError(BeaconChainError::ValidatorPubkeyCacheLockTimeout)),
        Some(keys) => {
            if index >= keys.len() as u64 {
                Err(BlobError::UnknownValidator(index))
            } else {
                Ok((keys[index as usize], fork))
            }
        },
    }
}

/// Decides the outcome once the signature has verified, from the availability
/// cache's answer and whether the block is known.
pub fn conclude_gossip_validation(
    block_root: &Hash256,
    cache_result: Result<bool, BlobCacheError>,
    block_known: bool,
) -> (r: Result<GossipVerifiedBlobSidecar, BlobError>)
    ensures
        r == conclude_spec(*block_root, cache_result, block_known),
{
    match cache_result {
        Err(e) => Err(BlobError::BlobCacheError(e)),
        Ok(all_blobs_available) => {
            if !block_known {
                Err(BlobError::UnknownHeadBlock { beacon_block_root: *block_root })
            } else {
                Ok(GossipVerifiedBlobSidecar { all_blobs_available, block_root: *block_root })
            }
        },
    }
}

/// Validates a sidecar received on gossip `subnet`. The checks run in this
/// order and the first that fails decides the error: subnet, future slot,
/// finalized slot, proposer, proposer's key, signature; then the sidecar goes
/// to the availability cache, and last the block it belongs to must be known,
/// so that an otherwise valid sidecar is still relayed before its block.
///
/// Before the signature check nothing is asked of `services`; the cache sees
/// the sidecar only once its signature has verified.
pub fn validate_blob_sidecar_for_gossip<S: GossipServices>(
    signed_blob_sidecar: &SignedBlobSidecar,
    subnet: u64,
    chain: &GossipChain,
    services: &mut S,
) -> (r: Result<GossipVerifiedBlobSidecar, BlobError>)
    ensures
        precheck_spec(signed_blob_sidecar.message, subnet, *chain) matches Err(e) ==> r == Err::<
            GossipVerifiedBlobSidecar,
            BlobError,
        >(e) && *final(services) == *old(services),
        precheck_spec(signed_blob_sidecar.message, subnet, *chain) is Ok ==> (r == Err::<
            GossipVerifiedBlobSidecar,
            BlobError,
        >(BlobError::ProposerSignatureInvalid) && *final(services) == *old(services)) || exists|
            cache_result: Result<bool, BlobCacheError>,
        |
            r == conclude_spec(
                signed_blob_sidecar.message.block_root,
                cache_result,
                root_known(chain.known_block_roots@, signed_blob_sidecar.message.block_root),
            ),
{
    let (pubkey, fork) = match precheck_blob_sidecar(&signed_blob_sidecar.message, subnet, chain) {
        Err(e) => {
            return Err(e);
        },
        Ok(p) => p,
    };
    if !services.verify_sidecar_signature(signed_blob_sidecar, &pubkey, &fork) {
        return Err(BlobError::ProposerSignatureInvalid);
    }
    let cache_result = services.put_blob(signed_blob_sidecar);
    let block_root = signed_blob_sidecar.message.block_root;
    let block_known = is_known_root(&chain.known_block_roots, &block_root);
    conclude_gossip_validation(&block_root, cache_result, block_known)
}

/// The subnet is checked first: a sidecar on the wrong subnet fails with
/// `InvalidSubnet` whatever else is wrong with it, an unknown block or a bad
/// signature included, and validation then asks nothing of the services.
pub proof fn lemma_subnet_checked_first(sidecar: BlobSidecar, subnet: u64, chain: GossipChain)
    requires
        sidecar.index != subnet,
    ensures
        precheck_spec(sidecar, subnet, chain) == Err::<(PublicKey, Fork), BlobError>(
            BlobError::InvalidSubnet { expected: sidecar.index, received: subnet },
        ),
{
}

} // verus!
