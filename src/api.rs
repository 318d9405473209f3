//! Errors of the node's HTTP interface, and the request checks that decide
//! them.
use vstd::prelude::*;
use crate::availability::ForkName;
use crate::primitives::Slot;
use crate::state::{BeaconState, ChainSpec};

verus! {

/// The version of an API endpoint.
#[derive(Clone, Copy, Debug, PartialEq, Eq, Structural)]
pub struct EndpointVersion(pub u64);

/// An object of one fork met where another fork is in force.
#[derive(Clone, Copy, Debug, PartialEq, Eq, Structural)]
pub struct InconsistentFork {
    pub fork_at_slot: ForkName,
    pub object_fork: ForkName,
}

#[derive(Clone, Debug, PartialEq, Eq)]
pub enum Error {
    BadRequest(String),
    NotFound(String),
    ServerError(String),
    ArithError(String),
    InconsistentFork(InconsistentFork),
    UnsupportedVersion(EndpointVersion),
}

pub fn inconsistent_fork_rejection(error: InconsistentFork) -> (r: Error)
    ensures
        r == Error::InconsistentFork(error),
{
    Error::InconsistentFork(error)
}

pub fn unsupported_version_rejection(version: EndpointVersion) -> (r: Error)
    ensures
        r == Error::UnsupportedVersion(version),
{
    Error::UnsupportedVersion(version)
}

/// How many epochs ahead of its state a withdrawal query may look.
pub const MAX_EPOCH_LOOKAHEAD: u64 = 2;

/// Relies on `safe_arith::SafeArith::safe_mul` for `u64`: the product, or an
/// overflow error when it does not fit.
#[verifier::external_body]
fn safe_mul_u64(a: u64, b: u64) -> (r: Result<u64, safe_arith::ArithError>)
    ensures
        r is Ok <==> a * b <= u64::MAX,
        r matches Ok(v) ==> v == a * b,
{
    safe_arith::SafeArith::safe_mul(&a, b)
}

#[verifier::external_type_specification]
#[verifier::external_body]
pub struct ExArithError(safe_arith::ArithError);

/// Whether blocks of `fork` predate withdrawals.
pub open spec fn pre_capella(fork: ForkName) -> bool {
    fork is Base || fork is Altair || fork is Merge
}

/// Whether the look-ahead limit, in slots, overflows.
pub open spec fn look_ahead_overflows(slots_per_epoch: u64) -> bool {
    MAX_EPOCH_LOOKAHEAD * slots_per_epoch > u64::MAX
}

/// Checks a withdrawal query for `proposal_slot` against `state`: the slot
/// must lie after the state's (else `BadRequest`), its fork must have
/// withdrawals (else `BadRequest`), the look-ahead limit must be computable
/// (else `ArithError`), and the slot must lie before the state's slot plus
/// that limit (else `BadRequest`).
pub fn get_next_withdrawals_sanity_checks(
    spec: &ChainSpec,
    state: &BeaconState,
    proposal_slot: Slot,
) -> (r: Result<(), Error>)
    requires
        spec.wf(),
    ensures
        ({
            let fork = spec.fork_name_at_slot_spec(proposal_slot);
            let too_early = proposal_slot <= state.slot;
            let overflow = look_ahead_overflows(spec.slots_per_epoch);
            let too_late = !overflow && proposal_slot >= state.slot + MAX_EPOCH_LOOKAHEAD
                * spec.slots_per_epoch;
            &&& (r matches Err(Error::BadRequest(_))) <==> (too_early || pre_capella(fork)
                || too_late)
            &&& (r matches Err(Error::ArithError(_))) <==> (!too_early && !pre_capella(fork)
                && overflow)
            &&& r is Ok <==> (!too_early && !pre_capella(fork) && !overflow && !too_late)
        }),
{
    if proposal_slot <= state.slot {
        return Err(Error::BadRequest("proposal slot must be greater than the pre-state slot".to_string()));
    }
    let fork = spec.fork_name_at_slot(proposal_slot);
    if matches!(fork, ForkName::Base | ForkName::Altair | ForkName::Merge) {
        return Err(Error::BadRequest("the specified state is a pre-capella state.".to_string()));
    }
    let look_ahead_limit = match safe_mul_u64(MAX_EPOCH_LOOKAHEAD, spec.slots_per_epoch) {
        Ok(l) => l,
        Err(_) => {
            return Err(Error::ArithError("arithmetic overflow in the look-ahead limit".to_string()));
        },
    };
    if state.slot as u128 + look_ahead_limit as u128 <= proposal_slot as u128 {
        return Err(Error::BadRequest("proposal slot is at or beyond the look-ahead limit".to_string()));
    }
    Ok(())
}

} // verus!
