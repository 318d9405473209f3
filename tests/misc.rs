use beacon_core::api::{
    get_next_withdrawals_sanity_checks, inconsistent_fork_rejection, unsupported_version_rejection,
    EndpointVersion, Error, InconsistentFork,
};
use beacon_core::availability::ForkName;
use beacon_core::config::Eth2Config;
use beacon_core::engine::EngineState;
use beacon_core::explorer::{client_build, client_name, Metadata, ProcessMetrics, ProcessType};
use beacon_core::genesis::{is_valid_genesis_state, process_activations};
use beacon_core::primitives::PublicKey;
use beacon_core::ssz::{DecodeError, SignedBeaconBlockAndBlobsSidecar};
use beacon_core::state::{BeaconState, ChainSpec, Fork, Validator};
use beacon_core::subnet::{SubnetDiscovery, SubnetId, SubnetServiceMessage};

fn validator(activation_epoch: u64) -> Validator {
    Validator {
        pubkey: PublicKey { bytes: [1; 48] },
        effective_balance: 0,
        activation_eligibility_epoch: u64::MAX,
        activation_epoch,
        exit_epoch: u64::MAX,
    }
}

fn state(slot: u64, validators: Vec<Validator>, balances: Vec<u64>) -> BeaconState {
    BeaconState {
        slot,
        genesis_time: 1_600_000_000,
        fork: Fork { previous_version: [0; 4], current_version: [0; 4], epoch: 0 },
        validator_registry: validators,
        balances,
        latest_attestations: vec![],
        committee_cache: None,
    }
}

#[test]
fn engine_state_synced_only_when_synced() {
    assert!(EngineState::Synced.is_synced());
    assert!(!EngineState::Syncing.is_synced());
    assert!(!EngineState::default().is_synced());
    assert_eq!(EngineState::default(), EngineState::Offline);
}

#[test]
fn rejections_carry_their_cause() {
    let f = InconsistentFork { fork_at_slot: ForkName::Capella, object_fork: ForkName::Merge };
    assert_eq!(inconsistent_fork_rejection(f), Error::InconsistentFork(f));
    assert_eq!(unsupported_version_rejection(EndpointVersion(4)), Error::UnsupportedVersion(EndpointVersion(4)));
}

#[test]
fn withdrawal_query_checks() {
    let mut spec = ChainSpec::minimal();
    spec.capella_fork_epoch = Some(1);
    let st = state(10, vec![], vec![]);
    assert!(matches!(get_next_withdrawals_sanity_checks(&spec, &st, 10), Err(Error::BadRequest(_))));
    assert_eq!(get_next_withdrawals_sanity_checks(&spec, &st, 11), Ok(()));
    assert_eq!(get_next_withdrawals_sanity_checks(&spec, &st, 25), Ok(()));
    assert!(matches!(get_next_withdrawals_sanity_checks(&spec, &st, 26), Err(Error::BadRequest(_))));
    let pre = state(2, vec![], vec![]);
    assert!(matches!(get_next_withdrawals_sanity_checks(&spec, &pre, 5), Err(Error::BadRequest(_))));
    let mut huge = ChainSpec::minimal();
    huge.capella_fork_epoch = Some(0);
    huge.slots_per_epoch = u64::MAX;
    assert!(matches!(get_next_withdrawals_sanity_checks(&huge, &st, 11), Err(Error::ArithError(_))));
}

#[test]
fn eth2_configs_name_their_constants() {
    assert_eq!(Eth2Config::mainnet().spec_constants, "mainnet");
    assert_eq!(Eth2Config::mainnet().spec.slots_per_epoch, 32);
    assert_eq!(Eth2Config::minimal().spec_constants, "minimal");
    assert_eq!(Eth2Config::minimal().spec.slots_per_epoch, 8);
    assert_eq!(Eth2Config::interop().spec_constants, "interop");
    assert_eq!(Eth2Config::interop().spec.min_genesis_time, 0);
    assert_eq!(Eth2Config::default().spec_constants, "minimal");
    assert_eq!(Eth2Config::mainnet().spec, ChainSpec::mainnet());
    assert_eq!(Eth2Config::mainnet().spec.shard_count, 1024);
    assert_eq!(Eth2Config::interop().spec, ChainSpec { min_genesis_time: 0, ..ChainSpec::minimal() });
}

#[test]
fn activations_round_and_cap_balances() {
    let spec = ChainSpec::minimal();
    let mut st = state(0, vec![validator(u64::MAX), validator(u64::MAX), validator(u64::MAX)], vec![
        33_500_000_000,
        31_900_000_000,
        32_000_000_000,
    ]);
    process_activations(&mut st, &spec);
    assert_eq!(st.validator_registry[0].effective_balance, 32_000_000_000);
    assert_eq!(st.validator_registry[0].activation_epoch, 0);
    assert_eq!(st.validator_registry[1].effective_balance, 31_000_000_000);
    assert_eq!(st.validator_registry[1].activation_epoch, u64::MAX);
    assert_eq!(st.validator_registry[2].activation_eligibility_epoch, 0);
    let mut extra = state(0, vec![validator(u64::MAX)], vec![32_000_000_000, 1]);
    process_activations(&mut extra, &spec);
    assert_eq!(extra.validator_registry[0].activation_epoch, 0);
    assert_eq!(extra.balances, vec![32_000_000_000, 1]);
}

#[test]
fn genesis_needs_time_and_active_validators() {
    let mut spec = ChainSpec::minimal();
    spec.min_genesis_active_validator_count = 2;
    spec.min_genesis_time = 1_500_000_000;
    let ok = state(0, vec![validator(0), validator(0), validator(5)], vec![0; 3]);
    assert!(is_valid_genesis_state(&ok, &spec));
    let few = state(0, vec![validator(0), validator(5)], vec![0; 2]);
    assert!(!is_valid_genesis_state(&few, &spec));
    spec.min_genesis_time = 1_700_000_000;
    assert!(!is_valid_genesis_state(&ok, &spec));
}

#[test]
fn subnet_messages_compare_by_kind_and_content() {
    let d = |s: u64, t: Option<u64>| SubnetDiscovery { subnet: SubnetId(s), min_ttl: t };
    assert_eq!(SubnetServiceMessage::Subscribe(SubnetId(1)), SubnetServiceMessage::Subscribe(SubnetId(1)));
    assert_ne!(SubnetServiceMessage::Subscribe(SubnetId(1)), SubnetServiceMessage::Unsubscribe(SubnetId(1)));
    assert_ne!(SubnetServiceMessage::EnrAdd(SubnetId(1)), SubnetServiceMessage::EnrAdd(SubnetId(2)));
    assert_eq!(
        SubnetServiceMessage::DiscoverPeers(vec![d(1, Some(5)), d(2, None)]),
        SubnetServiceMessage::DiscoverPeers(vec![d(1, Some(5)), d(2, None)])
    );
    assert_ne!(
        SubnetServiceMessage::DiscoverPeers(vec![d(1, Some(5))]),
        SubnetServiceMessage::DiscoverPeers(vec![d(1, Some(6))])
    );
    assert_ne!(
        SubnetServiceMessage::DiscoverPeers(vec![d(1, None)]),
        SubnetServiceMessage::DiscoverPeers(vec![d(1, None), d(2, None)])
    );
}

#[test]
fn block_and_blobs_container_splits_at_offsets() {
    let bytes = vec![8, 0, 0, 0, 11, 0, 0, 0, 1, 2, 3, 4, 5];
    let d = SignedBeaconBlockAndBlobsSidecar::from_ssz_bytes(&bytes).unwrap();
    assert_eq!(d.beacon_block, vec![1, 2, 3]);
    assert_eq!(d.blobs_sidecar, vec![4, 5]);
    assert_eq!(
        SignedBeaconBlockAndBlobsSidecar::from_ssz_bytes(&[8, 0, 0]),
        Err(DecodeError::InvalidByteLength { len: 3, expected: 8 })
    );
    assert_eq!(
        SignedBeaconBlockAndBlobsSidecar::from_ssz_bytes(&[4, 0, 0, 0, 8, 0, 0, 0]),
        Err(DecodeError::OffsetIntoFixedPortion(4))
    );
    assert_eq!(
        SignedBeaconBlockAndBlobsSidecar::from_ssz_bytes(&[9, 0, 0, 0, 9, 0, 0, 0, 1]),
        Err(DecodeError::OffsetSkipsVariableBytes(9))
    );
    assert_eq!(
        SignedBeaconBlockAndBlobsSidecar::from_ssz_bytes(&[8, 0, 0, 0, 7, 0, 0, 0]),
        Err(DecodeError::OffsetsAreDecreasing(7))
    );
    assert_eq!(
        SignedBeaconBlockAndBlobsSidecar::from_ssz_bytes(&[8, 0, 0, 0, 0, 1, 0, 0]),
        Err(DecodeError::OffsetOutOfBounds(256))
    );
}

#[test]
fn explorer_metadata_and_metrics() {
    let m = Metadata::new(ProcessType::Beacon);
    assert_eq!(m.get_version(), 1);
    assert_eq!(m.get_process(), ProcessType::Beacon);
    assert!(m.get_timestamp() > 1_600_000_000);
    assert_eq!(Metadata::at(ProcessType::System, 7).get_timestamp(), 7);
    assert_eq!(client_name(), "Lighthouse");
    assert_eq!(client_build(), 42);
    let p = ProcessMetrics::new(3, 4, "v1".to_string());
    assert_eq!(p.client_name, "Lighthouse");
    assert_eq!(p.client_build, 42);
    assert_eq!(p.memory_process_bytes, 4);
}
