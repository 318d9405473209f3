use beacon_core::aggregator::{signing_input, AttestationAggregator, Message, Outcome};
use beacon_core::attestation::{AttestationData, Checkpoint, FreeAttestation};
use beacon_core::primitives::{Hash256, PublicKey, Signature};
use beacon_core::state::{
    BeaconState, BeaconStateError, ChainSpec, CommitteeCache, CrosslinkCommittee, Fork, Validator,
};

fn spec() -> ChainSpec {
    ChainSpec::minimal()
}

fn validator(i: u8) -> Validator {
    Validator {
        pubkey: PublicKey { bytes: [i; 48] },
        effective_balance: 32_000_000_000,
        activation_eligibility_epoch: 0,
        activation_epoch: 0,
        exit_epoch: u64::MAX,
    }
}

/// A state at slot 10 (epoch 1 of the minimal spec) with one committee of
/// validators 4, 5, 6, 7 at slot 10, shard 2.
fn state_with_committee(cache_epoch: u64, shard: u64) -> BeaconState {
    BeaconState {
        slot: 10,
        genesis_time: 0,
        fork: Fork { previous_version: [0; 4], current_version: [0; 4], epoch: 0 },
        validator_registry: (0..8).map(validator).collect(),
        balances: vec![32_000_000_000; 8],
        latest_attestations: vec![],
        committee_cache: Some(CommitteeCache {
            epoch: cache_epoch,
            committees: vec![CrosslinkCommittee { slot: 10, shard, committee: vec![4, 5, 6, 7] }],
        }),
    }
}

fn data(slot: u64, shard: u64) -> AttestationData {
    let root = Hash256 { bytes: [9; 32] };
    AttestationData {
        slot,
        shard,
        beacon_block_root: root,
        source: Checkpoint { epoch: 0, root },
        target: Checkpoint { epoch: 1, root },
    }
}

fn vote(validator_index: u64, d: AttestationData) -> FreeAttestation {
    FreeAttestation { data: d, signature: Signature { bytes: [validator_index as u8; 96] }, validator_index }
}

fn valid(message: Message) -> Outcome {
    Outcome { valid: true, message }
}

fn invalid(message: Message) -> Outcome {
    Outcome { valid: false, message }
}

#[test]
fn committee_of_four_aggregates_by_position() {
    let state = state_with_committee(1, 2);
    let mut agg = AttestationAggregator::new();
    let d = data(10, 2);
    assert_eq!(agg.process_free_attestation(&state, &vote(5, d), &spec(), true), Ok(valid(Message::NewAttestationCreated)));
    assert_eq!(agg.get(&d).unwrap().aggregation_bitfield.bits, vec![false, true, false, false]);
    assert_eq!(agg.process_free_attestation(&state, &vote(7, d), &spec(), true), Ok(valid(Message::Aggregated)));
    assert_eq!(agg.get(&d).unwrap().aggregation_bitfield.bits, vec![false, true, false, true]);
    assert_eq!(agg.process_free_attestation(&state, &vote(5, d), &spec(), true), Ok(valid(Message::AggregationNotRequired)));
    assert_eq!(agg.get(&d).unwrap().aggregation_bitfield.bits, vec![false, true, false, true]);
    assert_eq!(agg.len(), 1);
}

#[test]
fn same_vote_twice_is_idempotent() {
    let state = state_with_committee(1, 2);
    let mut agg = AttestationAggregator::new();
    let d = data(10, 2);
    assert_eq!(agg.process_free_attestation(&state, &vote(6, d), &spec(), true), Ok(valid(Message::NewAttestationCreated)));
    let first = agg.get(&d).unwrap();
    assert_eq!(agg.process_free_attestation(&state, &vote(6, d), &spec(), true), Ok(valid(Message::AggregationNotRequired)));
    let second = agg.get(&d).unwrap();
    assert_eq!(first, second);
    assert_eq!(second.aggregate_signature.signatures, vec![None, None, Some(vote(6, d).signature), None]);
}

#[test]
fn order_of_two_votes_does_not_matter() {
    let state = state_with_committee(1, 2);
    let d = data(10, 2);
    let mut a = AttestationAggregator::new();
    a.process_free_attestation(&state, &vote(4, d), &spec(), true).unwrap();
    a.process_free_attestation(&state, &vote(6, d), &spec(), true).unwrap();
    let mut b = AttestationAggregator::new();
    b.process_free_attestation(&state, &vote(6, d), &spec(), true).unwrap();
    b.process_free_attestation(&state, &vote(4, d), &spec(), true).unwrap();
    let x = a.get(&d).unwrap();
    let y = b.get(&d).unwrap();
    assert_eq!(x.aggregation_bitfield, y.aggregation_bitfield);
    assert_eq!(x.aggregation_bitfield.bits, vec![true, false, true, false]);
    assert_eq!(x, y);
    assert_eq!(
        x.aggregate_signature.signatures,
        vec![Some(vote(4, d).signature), None, Some(vote(6, d).signature), None]
    );
}

#[test]
fn wrong_slot_is_bad_slot_and_store_untouched() {
    let state = state_with_committee(1, 2);
    let mut agg = AttestationAggregator::new();
    assert_eq!(agg.process_free_attestation(&state, &vote(5, data(11, 2)), &spec(), true), Ok(invalid(Message::BadSlot)));
    assert_eq!(agg.len(), 0);
}

#[test]
fn wrong_shard_is_bad_shard() {
    let state = state_with_committee(1, 2);
    let mut agg = AttestationAggregator::new();
    assert_eq!(agg.process_free_attestation(&state, &vote(5, data(10, 3)), &spec(), true), Ok(invalid(Message::BadShard)));
    assert_eq!(agg.len(), 0);
}

#[test]
fn validator_outside_committees_is_bad_index() {
    let state = state_with_committee(1, 2);
    let mut agg = AttestationAggregator::new();
    assert_eq!(agg.process_free_attestation(&state, &vote(1, data(10, 2)), &spec(), true), Ok(invalid(Message::BadValidatorIndex)));
}

#[test]
fn committee_member_missing_from_registry_is_bad_index() {
    let mut state = state_with_committee(1, 2);
    state.validator_registry.truncate(5);
    let mut agg = AttestationAggregator::new();
    assert_eq!(agg.process_free_attestation(&state, &vote(6, data(10, 2)), &spec(), true), Ok(invalid(Message::BadValidatorIndex)));
}

#[test]
fn bad_signature_is_reported_after_duties() {
    let state = state_with_committee(1, 2);
    let mut agg = AttestationAggregator::new();
    assert_eq!(agg.process_free_attestation(&state, &vote(5, data(10, 2)), &spec(), false), Ok(invalid(Message::BadSignature)));
    assert_eq!(agg.process_free_attestation(&state, &vote(5, data(11, 2)), &spec(), false), Ok(invalid(Message::BadSlot)));
    assert_eq!(agg.len(), 0);
}

#[test]
fn cache_of_another_epoch_is_too_old() {
    let state = state_with_committee(0, 2);
    let mut agg = AttestationAggregator::new();
    assert_eq!(agg.process_free_attestation(&state, &vote(5, data(10, 2)), &spec(), true), Ok(invalid(Message::TooOld)));
}

#[test]
fn shard_beyond_shard_count_is_bad_shard() {
    let state = state_with_committee(1, 99);
    let mut agg = AttestationAggregator::new();
    assert_eq!(agg.process_free_attestation(&state, &vote(5, data(10, 99)), &spec(), true), Ok(invalid(Message::BadShard)));
}

#[test]
fn duty_lookup_reports_slot_shard_and_position() {
    let state = state_with_committee(1, 2);
    assert_eq!(state.attestation_slot_and_shard_for_validator(6, &spec()), Ok(Some((10, 2, 2))));
    assert_eq!(state.attestation_slot_and_shard_for_validator(1, &spec()), Ok(None));
    let mut no_cache = state_with_committee(1, 2);
    no_cache.committee_cache = None;
    assert_eq!(no_cache.attestation_slot_and_shard_for_validator(6, &spec()), Err(BeaconStateError::EpochCacheUninitialized));
    assert_eq!(state_with_committee(0, 2).attestation_slot_and_shard_for_validator(6, &spec()), Err(BeaconStateError::EpochOutOfBounds));
    assert_eq!(state_with_committee(1, 8).attestation_slot_and_shard_for_validator(6, &spec()), Err(BeaconStateError::ShardOutOfBounds));
}

#[test]
fn attestations_for_state_skip_included_and_out_of_window() {
    let state = state_with_committee(1, 2);
    let mut agg = AttestationAggregator::new();
    agg.process_free_attestation(&state, &vote(5, data(10, 2)), &spec(), true).unwrap();
    let mut later = state_with_committee(1, 2);
    later.slot = 11;
    let picked = agg.get_attestations_for_state(&later, &spec());
    assert_eq!(picked.len(), 1);
    assert_eq!(picked[0].data, data(10, 2));
    // Inclusion delay not yet passed.
    assert_eq!(agg.get_attestations_for_state(&state, &spec()).len(), 0);
    // More than an epoch old.
    later.slot = 19;
    assert_eq!(agg.get_attestations_for_state(&later, &spec()).len(), 0);
    // Already included in the state.
    later.slot = 11;
    later.latest_attestations = agg.get_attestations_for_state(&later, &spec());
    assert_eq!(agg.get_attestations_for_state(&later, &spec()).len(), 0);
    assert_eq!(agg.len(), 1);
}

#[test]
fn pruning_drops_attestations_behind_finality() {
    let state = state_with_committee(1, 2);
    let mut agg = AttestationAggregator::new();
    let old = data(10, 2);
    let mut recent = data(10, 2);
    recent.target.epoch = 3;
    agg.process_free_attestation(&state, &vote(4, old), &spec(), true).unwrap();
    agg.process_free_attestation(&state, &vote(5, recent), &spec(), true).unwrap();
    assert_eq!(agg.len(), 2);
    agg.prune_finalized(2);
    assert_eq!(agg.len(), 1);
    assert!(agg.get(&old).is_none());
    assert_eq!(agg.get(&recent).unwrap().aggregation_bitfield.bits, vec![false, true, false, false]);
    assert_eq!(agg.process_free_attestation(&state, &vote(4, old), &spec(), true), Ok(valid(Message::NewAttestationCreated)));
    agg.prune_finalized(2);
    agg.prune_finalized(0);
    assert_eq!(agg.len(), 1);
}

#[test]
fn signable_message_depends_on_data_and_custody_bit() {
    let a = data(10, 2);
    let mut b = data(10, 2);
    b.source.epoch = 5;
    assert_eq!(a.signable_message(false), a.signable_message(false));
    assert_ne!(a.signable_message(false), b.signable_message(false));
    assert_ne!(a.signable_message(false), a.signable_message(true));
}

#[test]
fn signing_input_names_key_message_and_domain() {
    let mut state = state_with_committee(1, 2);
    state.fork = Fork { previous_version: [1, 0, 0, 0], current_version: [2, 0, 0, 0], epoch: 1 };
    let d = data(10, 2);
    let input = signing_input(&state, &vote(5, d), &spec()).unwrap();
    assert_eq!(input.pubkey, validator(5).pubkey);
    assert_eq!(input.message, d.signable_message(false));
    assert_eq!(input.domain, 2 * (1u64 << 32) + 1);
    state.slot = 7;
    assert_eq!(signing_input(&state, &vote(5, d), &spec()).unwrap().domain, (1u64 << 32) + 1);
    assert_eq!(signing_input(&state, &vote(9, d), &spec()), None);
}

#[test]
fn attestations_for_state_have_distinct_data() {
    let state = state_with_committee(1, 2);
    let mut agg = AttestationAggregator::new();
    let mut other = data(10, 2);
    other.target.epoch = 4;
    agg.process_free_attestation(&state, &vote(4, data(10, 2)), &spec(), true).unwrap();
    agg.process_free_attestation(&state, &vote(5, data(10, 2)), &spec(), true).unwrap();
    agg.process_free_attestation(&state, &vote(6, other), &spec(), true).unwrap();
    let mut later = state_with_committee(1, 2);
    later.slot = 12;
    let picked = agg.get_attestations_for_state(&later, &spec());
    assert_eq!(picked.len(), 2);
    assert_ne!(picked[0].data, picked[1].data);
}
