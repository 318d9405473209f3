//! The data availability check of a block: its commitments must be those of
//! its blob transactions, and each blob must match its commitment and proof.
use vstd::prelude::*;
use crate::blob::{BlobError, BlobSidecar, KzgCommitment, KzgError, KzgProof};
use crate::primitives::Hash256;

verus! {

#[verifier::external_type_specification]
#[verifier::external_body]
pub struct ExKzgSettings(c_kzg::KzgSettings);

/// A transaction of the execution payload, as far as blobs go: the
/// commitments of the blobs it carries, empty for a transaction without blobs.
#[derive(Clone, Debug, PartialEq, Eq)]
pub struct Transaction {
    pub blob_kzg_commitments: Vec<KzgCommitment>,
}

/// The commitments carried by the first `n` transactions, in order.
pub open spec fn tx_commitments(txs: Seq<Transaction>, n: nat) -> Seq<KzgCommitment>
    decreases n,
{
    if n == 0 {
        Seq::empty()
    } else {
        tx_commitments(txs, (n - 1) as nat) + txs[n - 1].blob_kzg_commitments@
    }
}

/// What `c_kzg::KzgSettings::verify_blob_kzg_proof_batch` answers for these
/// commitments and the blobs and proofs of these sidecars.
pub uninterp spec fn kzg_batch_of(
    kzg: c_kzg::KzgSettings,
    commitments: Seq<KzgCommitment>,
    blobs: Seq<BlobSidecar>,
) -> Result<bool, KzgError>;

/// What `c_kzg::KzgSettings::verify_blob_kzg_proof` answers for a blob, its
/// commitment and its proof.
pub uninterp spec fn kzg_blob_check_of(
    kzg: c_kzg::KzgSettings,
    blob: Seq<u8>,
    commitment: KzgCommitment,
    proof: KzgProof,
) -> Result<bool, KzgError>;

/// What `c_kzg::KzgSettings::blob_to_kzg_commitment` answers for a blob.
pub uninterp spec fn kzg_commitment_of(kzg: c_kzg::KzgSettings, blob: Seq<u8>) -> Result<
    KzgCommitment,
    KzgError,
>;

/// What `c_kzg::KzgSettings::compute_blob_kzg_proof` answers for a blob and
/// its commitment.
pub uninterp spec fn kzg_blob_proof_of(
    kzg: c_kzg::KzgSettings,
    blob: Seq<u8>,
    commitment: KzgCommitment,
) -> Result<KzgProof, KzgError>;

/// What `c_kzg::KzgSettings::compute_kzg_proof` answers for a blob and an
/// evaluation point: the proof and the evaluation.
pub uninterp spec fn kzg_eval_proof_of(kzg: c_kzg::KzgSettings, blob: Seq<u8>, z: Hash256) -> Result<
    (KzgProof, Hash256),
    KzgError,
>;

/// What `c_kzg::KzgSettings::verify_kzg_proof` answers for a commitment, a
/// proof, a point and an evaluation.
pub uninterp spec fn kzg_eval_check_of(
    kzg: c_kzg::KzgSettings,
    commitment: KzgCommitment,
    proof: KzgProof,
    z: Hash256,
    y: Hash256,
) -> Result<bool, KzgError>;

/// Relies on `c_kzg::KzgSettings::verify_blob_kzg_proof_batch`: whether each
/// blob matches its commitment and proof under the trusted setup, a function
/// of the setup and those bytes. A blob of the wrong size, or lists of
/// different lengths, make it fail.
#[verifier::external_body]
pub fn validate_blobs(
    kzg: &c_kzg::KzgSettings,
    expected_kzg_commitments: &Vec<KzgCommitment>,
    blobs: &Vec<BlobSidecar>,
) -> (r: Result<bool, KzgError>)
    ensures
        r == kzg_batch_of(*kzg, expected_kzg_commitments@, blobs@),
        blobs@.len() != expected_kzg_commitments@.len() ==> r is Err,
{
    let c: Vec<c_kzg::Bytes48> = expected_kzg_commitments.iter().map(|c| c.bytes.into()).collect();
    let p: Vec<c_kzg::Bytes48> = blobs.iter().map(|b| b.kzg_proof.bytes.into()).collect();
    let b: Result<Vec<c_kzg::Blob>, c_kzg::Error> = blobs.iter().map(|b| c_kzg::Blob::from_bytes(&b.blob)).collect();
    b.and_then(|b| kzg.verify_blob_kzg_proof_batch(&b, &c, &p))
        .map_err(|e| KzgError { message: format!("{e:?}") })
}

/// Relies on `c_kzg::KzgSettings::verify_blob_kzg_proof`: whether the blob
/// matches its commitment and proof under the trusted setup.
#[verifier::external_body]
fn ckzg_verify_blob(
    kzg: &c_kzg::KzgSettings,
    blob: &Vec<u8>,
    commitment: KzgCommitment,
    proof: KzgProof,
) -> (r: Result<bool, KzgError>)
    ensures
        r == kzg_blob_check_of(*kzg, blob@, commitment, proof),
{
    c_kzg::Blob::from_bytes(blob)
        .and_then(|b| kzg.verify_blob_kzg_proof(&b, &commitment.bytes.into(), &proof.bytes.into()))
        .map_err(|e| KzgError { message: format!("{e:?}") })
}

/// Relies on `c_kzg::KzgSettings::blob_to_kzg_commitment`: the commitment to
/// the blob under the trusted setup.
#[verifier::external_body]
fn ckzg_commitment(kzg: &c_kzg::KzgSettings, blob: &Vec<u8>) -> (r: Result<KzgCommitment, KzgError>)
    ensures
        r == kzg_commitment_of(*kzg, blob@),
{
    c_kzg::Blob::from_bytes(blob)
        .and_then(|b| kzg.blob_to_kzg_commitment(&b))
        .map(|c| KzgCommitment { bytes: *c.to_bytes() })
        .map_err(|e| KzgError { message: format!("{e:?}") })
}

/// Relies on `c_kzg::KzgSettings::compute_blob_kzg_proof`: the proof that the
/// blob matches its commitment.
#[verifier::external_body]
fn ckzg_blob_proof(
    kzg: &c_kzg::KzgSettings,
    blob: &Vec<u8>,
    commitment: KzgCommitment,
) -> (r: Result<KzgProof, KzgError>)
    ensures
        r == kzg_blob_proof_of(*kzg, blob@, commitment),
{
    c_kzg::Blob::from_bytes(blob)
        .and_then(|b| kzg.compute_blob_kzg_proof(&b, &commitment.bytes.into()))
        .map(|p| KzgProof { bytes: *p.to_bytes() })
        .map_err(|e| KzgError { message: format!("{e:?}") })
}

/// Relies on `c_kzg::KzgSettings::compute_kzg_proof`: the proof that the
/// blob's polynomial evaluates at `z` to `y`, and `y`.
#[verifier::external_body]
fn ckzg_eval_proof(kzg: &c_kzg::KzgSettings, blob: &Vec<u8>, z: Hash256) -> (r: Result<
    (KzgProof, Hash256),
    KzgError,
>)
    ensures
        r == kzg_eval_proof_of(*kzg, blob@, z),
{
    c_kzg::Blob::from_bytes(blob)
        .and_then(|b| kzg.compute_kzg_proof(&b, &z.bytes.into()))
        .map(|(p, y)| (KzgProof { bytes: *p.to_bytes() }, Hash256 { bytes: *y }))
        .map_err(|e| KzgError { message: format!("{e:?}") })
}

/// Relies on `c_kzg::KzgSettings::verify_kzg_proof`: whether the committed
/// polynomial evaluates at `z` to `y`, by the proof.
#[verifier::external_body]
fn ckzg_verify_eval(
    kzg: &c_kzg::KzgSettings,
    commitment: KzgCommitment,
    proof: KzgProof,
    z: Hash256,
    y: Hash256,
) -> (r: Result<bool, KzgError>)
    ensures
        r == kzg_eval_check_of(*kzg, commitment, proof, z, y),
{
    kzg.verify_kzg_proof(&commitment.bytes.into(), &z.bytes.into(), &y.bytes.into(), &proof.bytes.into())
        .map_err(|e| KzgError { message: format!("{e:?}") })
}

/// Validates a single blob-commitment-proof triplet from a sidecar.
pub fn validate_blob(
    kzg: &c_kzg::KzgSettings,
    blob: &Vec<u8>,
    kzg_commitment: KzgCommitment,
    kzg_proof: KzgProof,
) -> (r: Result<bool, KzgError>)
    ensures
        r == kzg_blob_check_of(*kzg, blob@, kzg_commitment, kzg_proof),
{
    ckzg_verify_blob(kzg, blob, kzg_commitment, kzg_proof)
}

/// Computes the KZG proof of a blob against its commitment.
pub fn compute_blob_kzg_proof(
    kzg: &c_kzg::KzgSettings,
    blob: &Vec<u8>,
    kzg_commitment: KzgCommitment,
) -> (r: Result<KzgProof, KzgError>)
    ensures
        r == kzg_blob_proof_of(*kzg, blob@, kzg_commitment),
{
    ckzg_blob_proof(kzg, blob, kzg_commitment)
}

/// Computes the KZG commitment of a blob.
pub fn blob_to_kzg_commitment(kzg: &c_kzg::KzgSettings, blob: &Vec<u8>) -> (r: Result<
    KzgCommitment,
    KzgError,
>)
    ensures
        r == kzg_commitment_of(*kzg, blob@),
{
    ckzg_commitment(kzg, blob)
}

/// Computes the proof that the blob's polynomial evaluates at `z` to `y`,
/// together with `y`.
pub fn compute_kzg_proof(kzg: &c_kzg::KzgSettings, blob: &Vec<u8>, z: Hash256) -> (r: Result<
    (KzgProof, Hash256),
    KzgError,
>)
    ensures
        r == kzg_eval_proof_of(*kzg, blob@, z),
{
    ckzg_eval_proof(kzg, blob, z)
}

/// Verifies a proof that the committed polynomial evaluates at `z` to `y`.
pub fn verify_kzg_proof(
    kzg: &c_kzg::KzgSettings,
    kzg_commitment: KzgCommitment,
    kzg_proof: KzgProof,
    z: Hash256,
    y: Hash256,
) -> (r: Result<bool, KzgError>)
    ensures
        r == kzg_eval_check_of(*kzg, kzg_commitment, kzg_proof, z, y),
{
    ckzg_verify_eval(kzg, kzg_commitment, kzg_proof, z, y)
}

/// The commitments of the blob transactions, flattened in order.
pub fn commitments_of_transactions(transactions: &Vec<Transaction>) -> (r: Vec<KzgCommitment>)
    ensures
        r@ == tx_commitments(transactions@, transactions@.len()),
{
    let mut out: Vec<KzgCommitment> = Vec::new();
    let mut i: usize = 0;
    while i < transactions.len()
        invariant
            i <= transactions@.len(),
            out@ == tx_commitments(transactions@, i as nat),
        decreases transactions@.len() - i,
    {
        let cs = &transactions[i].blob_kzg_commitments;
        let ghost before = out@;
        let mut j: usize = 0;
        while j < cs.len()
            invariant
                j <= cs@.len(),
                out@ == before + cs@.take(j as int),
            decreases cs@.len() - j,
        {
            out.push(cs[j]);
            j = j + 1;
            assert(out@ =~= before + cs@.take(j as int));
        }
        assert(cs@.take(j as int) =~= cs@);
        i = i + 1;
    }
    out
}

/// Whether two commitment lists are equal, in count and value.
pub fn same_commitments(a: &Vec<KzgCommitment>, b: &Vec<KzgCommitment>) -> (r: bool)
    ensures
        r == (a@ == b@),
{
    if a.len() != b.len() {
        return false;
    }
    let mut i: usize = 0;
    while i < a.len()
        invariant
            a@.len() == b@.len(),
            i <= a@.len(),
            forall|j: int| 0 <= j < i ==> a@[j] == b@[j],
        decreases a@.len() - i,
    {
        if !a[i].same_as(&b[i]) {
            return false;
        }
        i = i + 1;
    }
    assert(a@ =~= b@);
    true
}

/// The outcome of the check for each answer of the batch verification.
pub open spec fn kzg_outcome_spec(verdict: Result<bool, KzgError>) -> Result<(), BlobError> {
    match verdict {
        Err(e) => Err(BlobError::KzgError(e)),
        Ok(false) => Err(BlobError::InvalidKzgProof),
        Ok(true) => Ok(()),
    }
}

/// Turns the answer of the batch verification into the check's outcome.
pub fn conclude_kzg_check(verdict: Result<bool, KzgError>) -> (r: Result<(), BlobError>)
    ensures
        r == kzg_outcome_spec(verdict),
{
    match verdict {
        Err(e) => Err(BlobError::KzgError(e)),
        Ok(false) => Err(BlobError::InvalidKzgProof),
        Ok(true) => Ok(()),
    }
}

/// Checks a block's data: first that `kzg_commitments` are exactly the
/// commitments of the blob transactions, in order; then that a trusted setup
/// is loaded; then that every blob matches its commitment and proof.
pub fn verify_data_availability(
    blob_sidecars: &Vec<BlobSidecar>,
    kzg_commitments: &Vec<KzgCommitment>,
    transactions: &Vec<Transaction>,
    kzg: Option<&c_kzg::KzgSettings>,
) -> (r: Result<(), BlobError>)
    ensures
        tx_commitments(transactions@, transactions@.len()) != kzg_commitments@ ==> r == Err::<
            (),
            BlobError,
        >(BlobError::TransactionCommitmentMismatch),
        tx_commitments(transactions@, transactions@.len()) == kzg_commitments@ && kzg is None
            ==> r == Err::<(), BlobError>(BlobError::TrustedSetupNotInitialized),
        tx_commitments(transactions@, transactions@.len()) == kzg_commitments@ && kzg is Some
            ==> r == kzg_outcome_spec(kzg_batch_of(*kzg->Some_0, kzg_commitments@, blob_sidecars@)),
{
    let from_transactions = commitments_of_transactions(transactions);
    if !same_commitments(&from_transactions, kzg_commitments) {
        return Err(BlobError::TransactionCommitmentMismatch);
    }
    let kzg = match kzg {
        None => {
            return Err(BlobError::TrustedSetupNotInitialized);
        },
        Some(k) => k,
    };
    conclude_kzg_check(validate_blobs(kzg, kzg_commitments, blob_sidecars))
}

} // verus!
