use beacon_core::blob::{BlobError, BlobSidecar, KzgCommitment, KzgProof};
use beacon_core::kzg::{
    blob_to_kzg_commitment, compute_blob_kzg_proof, compute_kzg_proof, validate_blob, validate_blobs,
    verify_data_availability, verify_kzg_proof, Transaction,
};
use beacon_core::primitives::Hash256;

fn zero_blob_sidecar(proof: [u8; 48], commitment: [u8; 48]) -> BlobSidecar {
    BlobSidecar {
        block_root: Hash256 { bytes: [1; 32] },
        index: 0,
        slot: 1,
        block_parent_root: Hash256 { bytes: [0; 32] },
        proposer_index: 0,
        blob: vec![0; c_kzg::BYTES_PER_BLOB],
        kzg_commitment: KzgCommitment { bytes: commitment },
        kzg_proof: KzgProof { bytes: proof },
    }
}

/// The commitment and proof of the all-zero blob, as the library computes them.
fn zero_blob_commitment_and_proof() -> ([u8; 48], [u8; 48]) {
    let settings = c_kzg::ethereum_kzg_settings(0);
    let blob = c_kzg::Blob::from_bytes(&vec![0u8; c_kzg::BYTES_PER_BLOB]).unwrap();
    let commitment = settings.blob_to_kzg_commitment(&blob).unwrap().to_bytes();
    let proof = settings.compute_blob_kzg_proof(&blob, &commitment).unwrap().to_bytes();
    (*commitment, *proof)
}

#[test]
fn commitments_must_match_transactions() {
    let txs = vec![Transaction { blob_kzg_commitments: vec![KzgCommitment { bytes: [1; 48] }] }];
    let r = verify_data_availability(&vec![], &vec![KzgCommitment { bytes: [2; 48] }], &txs, None);
    assert_eq!(r, Err(BlobError::TransactionCommitmentMismatch));
    let r = verify_data_availability(&vec![], &vec![], &txs, None);
    assert_eq!(r, Err(BlobError::TransactionCommitmentMismatch));
}

#[test]
fn missing_trusted_setup_is_reported() {
    let c = KzgCommitment { bytes: [1; 48] };
    let txs = vec![Transaction { blob_kzg_commitments: vec![] }, Transaction { blob_kzg_commitments: vec![c] }];
    assert_eq!(verify_data_availability(&vec![], &vec![c], &txs, None), Err(BlobError::TrustedSetupNotInitialized));
}

#[test]
fn valid_blob_passes_and_wrong_proof_fails() {
    let (commitment, proof) = zero_blob_commitment_and_proof();
    let settings = c_kzg::ethereum_kzg_settings(0);
    let c = KzgCommitment { bytes: commitment };
    let txs = vec![Transaction { blob_kzg_commitments: vec![c] }];
    let good = vec![zero_blob_sidecar(proof, commitment)];
    assert_eq!(validate_blobs(settings, &vec![c], &good), Ok(true));
    assert_eq!(verify_data_availability(&good, &vec![c], &txs, Some(settings)), Ok(()));
    // The commitment of the zero blob is a valid point; used as its proof it
    // does not verify unless it equals the real proof.
    let mut other = [0u8; 48];
    other[0] = 0xc0;
    if other != proof {
        let bad = vec![zero_blob_sidecar(other, commitment)];
        let r = verify_data_availability(&bad, &vec![c], &txs, Some(settings));
        assert!(matches!(r, Err(BlobError::InvalidKzgProof) | Err(BlobError::KzgError(_))));
    }
}

#[test]
fn blob_of_wrong_size_is_a_kzg_error() {
    let settings = c_kzg::ethereum_kzg_settings(0);
    let c = KzgCommitment { bytes: [0xc0; 48] };
    let mut s = zero_blob_sidecar([0; 48], c.bytes);
    s.blob = vec![0; 3];
    let txs = vec![Transaction { blob_kzg_commitments: vec![c] }];
    let r = verify_data_availability(&vec![s], &vec![c], &txs, Some(settings));
    assert!(matches!(r, Err(BlobError::KzgError(_))));
    let r = verify_data_availability(&vec![], &vec![c], &txs, Some(settings));
    assert!(matches!(r, Err(BlobError::KzgError(_))));
}

#[test]
fn adapter_matches_the_kzg_library() {
    let settings = c_kzg::ethereum_kzg_settings(0);
    let (commitment, proof) = zero_blob_commitment_and_proof();
    let blob = vec![0u8; c_kzg::BYTES_PER_BLOB];
    let c = blob_to_kzg_commitment(settings, &blob).unwrap();
    assert_eq!(c, KzgCommitment { bytes: commitment });
    let p = compute_blob_kzg_proof(settings, &blob, c).unwrap();
    assert_eq!(p, KzgProof { bytes: proof });
    assert_eq!(validate_blob(settings, &blob, c, p), Ok(true));
    let z = Hash256 { bytes: [0; 32] };
    let (eval_proof, y) = compute_kzg_proof(settings, &blob, z).unwrap();
    assert_eq!(y, Hash256 { bytes: [0; 32] });
    assert_eq!(verify_kzg_proof(settings, c, eval_proof, z, y), Ok(true));
    let mut wrong_y = [0u8; 32];
    wrong_y[31] = 1;
    assert_eq!(verify_kzg_proof(settings, c, eval_proof, z, Hash256 { bytes: wrong_y }), Ok(false));
    assert!(blob_to_kzg_commitment(settings, &vec![0u8; 5]).is_err());
}
