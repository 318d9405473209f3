use beacon_core::blob::{
    validate_blob_sidecar_for_gossip, BeaconChainError, BlobCacheError, BlobError, BlobSidecar,
    CachedProposer, GossipChain, GossipServices, GossipVerifiedBlobSidecar, KzgCommitment, KzgProof,
    SignedBlobSidecar,
};
use beacon_core::primitives::{Hash256, PublicKey, Signature};
use beacon_core::state::{BeaconStateError, Fork};

/// Records every call, answers as configured.
struct Services {
    signature_ok: bool,
    cache_answer: Result<bool, BlobCacheError>,
    puts: usize,
}

impl Services {
    fn new() -> Services {
        Services { signature_ok: true, cache_answer: Ok(true), puts: 0 }
    }
}

impl GossipServices for Services {
    fn verify_sidecar_signature(&self, _s: &SignedBlobSidecar, _k: &PublicKey, _f: &Fork) -> bool {
        self.signature_ok
    }

    fn put_blob(&mut self, _s: &SignedBlobSidecar) -> Result<bool, BlobCacheError> {
        self.puts += 1;
        self.cache_answer
    }
}

fn root(b: u8) -> Hash256 {
    Hash256 { bytes: [b; 32] }
}

fn fork() -> Fork {
    Fork { previous_version: [0; 4], current_version: [1; 4], epoch: 0 }
}

fn sidecar(index: u64, slot: u64) -> SignedBlobSidecar {
    SignedBlobSidecar {
        message: BlobSidecar {
            block_root: root(1),
            index,
            slot,
            block_parent_root: root(2),
            proposer_index: 3,
            blob: vec![0; 8],
            kzg_commitment: KzgCommitment { bytes: [0; 48] },
            kzg_proof: KzgProof { bytes: [0; 48] },
        },
        signature: Signature { bytes: [7; 96] },
    }
}

/// Finalized epoch 2 (slot 64 with 32 slots per epoch), clock at slot 100,
/// proposer 3 in the head state for every slot used, block 1 known.
fn chain() -> GossipChain {
    GossipChain {
        latest_permissible_slot: Some(100),
        finalized_epoch: 2,
        slots_per_epoch: 32,
        proposer_cache: vec![],
        head_proposers: vec![(65, 3), (70, 3)],
        head_fork: fork(),
        validator_pubkeys: Some((0..5).map(|i| PublicKey { bytes: [i; 48] }).collect()),
        known_block_roots: vec![root(1)],
    }
}

#[test]
fn sidecar_at_finalized_slot_is_rejected_before_cache() {
    let mut s = Services::new();
    let r = validate_blob_sidecar_for_gossip(&sidecar(2, 64), 2, &chain(), &mut s);
    assert_eq!(r, Err(BlobError::PastFinalizedSlot { blob_slot: 64, finalized_slot: 64 }));
    assert_eq!(s.puts, 0);
}

#[test]
fn wrong_subnet_wins_over_unknown_block() {
    let mut s = Services::new();
    let mut c = chain();
    c.known_block_roots = vec![];
    let r = validate_blob_sidecar_for_gossip(&sidecar(1, 65), 2, &c, &mut s);
    assert_eq!(r, Err(BlobError::InvalidSubnet { expected: 1, received: 2 }));
    assert_eq!(s.puts, 0);
}

#[test]
fn valid_sidecar_passes() {
    let mut s = Services::new();
    let r = validate_blob_sidecar_for_gossip(&sidecar(2, 65), 2, &chain(), &mut s);
    assert_eq!(r, Ok(GossipVerifiedBlobSidecar { all_blobs_available: true, block_root: root(1) }));
    assert_eq!(s.puts, 1);
}

#[test]
fn unknown_block_is_checked_last() {
    let mut s = Services::new();
    s.cache_answer = Ok(false);
    let mut c = chain();
    c.known_block_roots = vec![root(9)];
    let r = validate_blob_sidecar_for_gossip(&sidecar(2, 65), 2, &c, &mut s);
    assert_eq!(r, Err(BlobError::UnknownHeadBlock { beacon_block_root: root(1) }));
    assert_eq!(s.puts, 1);
}

#[test]
fn future_slot_is_rejected() {
    let mut s = Services::new();
    let r = validate_blob_sidecar_for_gossip(&sidecar(0, 101), 0, &chain(), &mut s);
    assert_eq!(r, Err(BlobError::FutureSlot { message_slot: 101, latest_permissible_slot: 100 }));
    let mut c = chain();
    c.latest_permissible_slot = None;
    let r = validate_blob_sidecar_for_gossip(&sidecar(0, 65), 0, &c, &mut s);
    assert_eq!(r, Err(BlobError::BeaconChainError(BeaconChainError::UnableToReadSlot)));
    assert_eq!(s.puts, 0);
}

#[test]
fn proposer_cache_is_preferred_over_head_state() {
    let mut s = Services::new();
    let mut c = chain();
    c.proposer_cache = vec![CachedProposer { shuffling_root: root(2), slot: 65, index: 4, fork: fork() }];
    let r = validate_blob_sidecar_for_gossip(&sidecar(0, 65), 0, &c, &mut s);
    assert_eq!(r, Err(BlobError::ProposerIndexMismatch { sidecar: 3, local: 4 }));
    assert_eq!(s.puts, 0);
}

#[test]
fn proposer_unknown_to_head_state_is_a_chain_error() {
    let mut s = Services::new();
    let r = validate_blob_sidecar_for_gossip(&sidecar(0, 66), 0, &chain(), &mut s);
    assert_eq!(
        r,
        Err(BlobError::BeaconChainError(BeaconChainError::BeaconStateError(BeaconStateError::SlotOutOfBounds)))
    );
}

#[test]
fn key_cache_failures_are_reported() {
    let mut s = Services::new();
    let mut c = chain();
    c.validator_pubkeys = None;
    assert_eq!(
        validate_blob_sidecar_for_gossip(&sidecar(0, 65), 0, &c, &mut s),
        Err(BlobError::BeaconChainError(BeaconChainError::ValidatorPubkeyCacheLockTimeout))
    );
    c.validator_pubkeys = Some(vec![]);
    assert_eq!(validate_blob_sidecar_for_gossip(&sidecar(0, 65), 0, &c, &mut s), Err(BlobError::UnknownValidator(3)));
    assert_eq!(s.puts, 0);
}

#[test]
fn bad_signature_never_reaches_cache() {
    let mut s = Services::new();
    s.signature_ok = false;
    assert_eq!(validate_blob_sidecar_for_gossip(&sidecar(0, 65), 0, &chain(), &mut s), Err(BlobError::ProposerSignatureInvalid));
    assert_eq!(s.puts, 0);
}

#[test]
fn cache_refusal_is_passed_on() {
    let mut s = Services::new();
    s.cache_answer = Err(BlobCacheError::IndexOutOfBounds(9));
    assert_eq!(
        validate_blob_sidecar_for_gossip(&sidecar(0, 65), 0, &chain(), &mut s),
        Err(BlobError::BlobCacheError(BlobCacheError::IndexOutOfBounds(9)))
    );
}
