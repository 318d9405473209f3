use beacon_core::availability::{
    AsBlock, AvailableBlock, BeaconBlock, BlockWrapper, ForkName, SignedBeaconBlock, VerifiedBlobs,
};
use beacon_core::blob::{BlobSidecar, KzgCommitment, KzgProof};
use beacon_core::primitives::{Hash256, Signature};

fn commitment(b: u8) -> KzgCommitment {
    KzgCommitment { bytes: [b; 48] }
}

fn block(fork_name: ForkName, slot: u64, commitments: Vec<KzgCommitment>) -> SignedBeaconBlock {
    SignedBeaconBlock {
        message: BeaconBlock {
            slot,
            proposer_index: 1,
            parent_root: Hash256 { bytes: [2; 32] },
            state_root: Hash256 { bytes: [3; 32] },
            body_root: Hash256 { bytes: [4; 32] },
            fork_name,
            blob_kzg_commitments: commitments,
        },
        signature: Signature { bytes: [5; 96] },
    }
}

fn blob(index: u64, c: KzgCommitment) -> BlobSidecar {
    BlobSidecar {
        block_root: Hash256 { bytes: [1; 32] },
        index,
        slot: 64,
        block_parent_root: Hash256 { bytes: [2; 32] },
        proposer_index: 1,
        blob: vec![index as u8; 4],
        kzg_commitment: c,
        kzg_proof: KzgProof { bytes: [0; 48] },
    }
}

#[test]
fn pending_block_yields_nothing() {
    let w = BlockWrapper::from(block(ForkName::Eip4844, 64, vec![commitment(1)]));
    assert_eq!(w.into_available_block(), None);
}

#[test]
fn variant_selection_follows_fork_commitments_and_boundary() {
    let pre = BlockWrapper::from(block(ForkName::Capella, 64, vec![])).with_received_blobs(None, None, 32);
    assert_eq!(pre.into_available_block().unwrap().blobs, VerifiedBlobs::PreEip4844);
    let empty = BlockWrapper::from(block(ForkName::Eip4844, 64, vec![])).with_received_blobs(None, None, 32);
    assert_eq!(empty.into_available_block().unwrap().blobs, VerifiedBlobs::EmptyBlobs);
    let old = BlockWrapper::from(block(ForkName::Eip4844, 64, vec![commitment(1)])).with_received_blobs(None, Some(3), 32);
    assert_eq!(old.into_available_block().unwrap().blobs, VerifiedBlobs::NotRequired);
    let waiting = BlockWrapper::from(block(ForkName::Eip4844, 64, vec![commitment(1)])).with_received_blobs(None, Some(2), 32);
    assert!(matches!(waiting, BlockWrapper::AvailabilityPending(_)));
}

#[test]
fn blobs_must_match_commitments_in_order() {
    let b = block(ForkName::Eip4844, 64, vec![commitment(1), commitment(2)]);
    let wrong_order = BlockWrapper::from(b.clone())
        .with_received_blobs(Some(vec![blob(0, commitment(2)), blob(1, commitment(1))]), None, 32);
    assert!(matches!(wrong_order, BlockWrapper::AvailabilityPending(_)));
    let missing = BlockWrapper::from(b.clone()).with_received_blobs(Some(vec![blob(0, commitment(1))]), None, 32);
    assert!(matches!(missing, BlockWrapper::AvailabilityPending(_)));
    let blobs = vec![blob(0, commitment(1)), blob(1, commitment(2))];
    let done = BlockWrapper::from(b.clone()).with_received_blobs(Some(blobs.clone()), None, 32);
    let available = done.into_available_block().unwrap();
    assert_eq!(available.blobs(), Some(&blobs));
    let (blk, bl) = available.deconstruct();
    assert_eq!(blk, b);
    assert_eq!(bl, Some(blobs));
}

#[test]
fn available_block_never_reverts() {
    let b = block(ForkName::Eip4844, 64, vec![commitment(1)]);
    let available = BlockWrapper::from(b.clone()).with_received_blobs(Some(vec![blob(0, commitment(1))]), None, 32);
    let root = available.canonical_root();
    let again = available.clone().with_received_blobs(None, None, 32).with_received_blobs(Some(vec![]), None, 32);
    assert_eq!(again, available);
    assert_eq!(again.canonical_root(), root);
}

#[test]
fn accessors_read_the_block_in_either_state() {
    let b = block(ForkName::Eip4844, 70, vec![commitment(1)]);
    let pending = BlockWrapper::from(b.clone());
    let available = BlockWrapper::from(AvailableBlock { block: b.clone(), blobs: VerifiedBlobs::NotRequired });
    for w in [&pending, &available] {
        assert_eq!(w.slot(), 70);
        assert_eq!(w.epoch(32), 2);
        assert_eq!(w.parent_root(), Hash256 { bytes: [2; 32] });
        assert_eq!(w.state_root(), Hash256 { bytes: [3; 32] });
        assert_eq!(w.as_block(), &b);
        assert_eq!(w.signed_block_header().message.body_root, Hash256 { bytes: [4; 32] });
    }
    assert_eq!(pending.canonical_root(), available.canonical_root());
    assert_ne!(pending.canonical_root(), Hash256 { bytes: [4; 32] });
    assert_eq!(available.into_available_block().unwrap().blobs(), None);
}

#[test]
fn boundary_uses_the_given_epoch_length() {
    let b = block(ForkName::Eip4844, 64, vec![commitment(1)]);
    let mainnet = BlockWrapper::from(b.clone()).with_received_blobs(None, Some(8), 32);
    assert_eq!(mainnet.into_available_block().unwrap().blobs, VerifiedBlobs::NotRequired);
    let minimal = BlockWrapper::from(b.clone()).with_received_blobs(None, Some(8), 8);
    assert!(matches!(minimal, BlockWrapper::AvailabilityPending(_)));
    assert_eq!(BlockWrapper::from(b).epoch(8), 8);
}
