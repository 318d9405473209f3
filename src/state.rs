//! The parts of a beacon state that gossip validation and aggregation read:
//! the validator registry, the committee assignments of the current epoch and
//! the attestations already included.
use vstd::prelude::*;
use crate::attestation::Attestation;
use crate::availability::ForkName;
use crate::primitives::{Epoch, Hash256, PublicKey, Slot};

verus! {

/// Constants of the chain that the rules here depend on.
#[derive(Clone, Copy, Debug, PartialEq, Eq)]
pub struct ChainSpec {
    pub slots_per_epoch: u64,
    pub shard_count: u64,
    pub min_attestation_inclusion_delay: u64,
    pub seconds_per_day: u64,
    pub min_genesis_time: u64,
    pub min_genesis_active_validator_count: u64,
    pub effective_balance_increment: u64,
    pub max_effective_balance: u64,
    pub genesis_epoch: Epoch,
    pub far_future_epoch: Epoch,
    pub altair_fork_epoch: Option<Epoch>,
    pub bellatrix_fork_epoch: Option<Epoch>,
    pub capella_fork_epoch: Option<Epoch>,
    pub eip4844_fork_epoch: Option<Epoch>,
}

/// Whether a fork scheduled at `fork_epoch` is in force at `epoch`.
pub open spec fn fork_active(fork_epoch: Option<Epoch>, epoch: Epoch) -> bool {
    fork_epoch matches Some(e) && e <= epoch
}

impl ChainSpec {
    pub open spec fn wf(&self) -> bool {
        self.slots_per_epoch > 0 && self.effective_balance_increment > 0
    }

    /// The latest fork in force at `slot`.
    pub open spec fn fork_name_at_slot_spec(&self, slot: Slot) -> ForkName {
        let epoch = (slot / self.slots_per_epoch) as Epoch;
        if fork_active(self.eip4844_fork_epoch, epoch) {
            ForkName::Eip4844
        } else if fork_active(self.capella_fork_epoch, epoch) {
            ForkName::Capella
        } else if fork_active(self.bellatrix_fork_epoch, epoch) {
            ForkName::Merge
        } else if fork_active(self.altair_fork_epoch, epoch) {
            ForkName::Altair
        } else {
            ForkName::Base
        }
    }

    /// The latest fork in force at `slot`.
    pub fn fork_name_at_slot(&self, slot: Slot) -> (r: ForkName)
        requires
            self.wf(),
        ensures
            r == self.fork_name_at_slot_spec(slot),
    {
        let epoch = slot / self.slots_per_epoch;
        if is_fork_active(self.eip4844_fork_epoch, epoch) {
            ForkName::Eip4844
        } else if is_fork_active(self.capella_fork_epoch, epoch) {
            ForkName::Capella
        } else if is_fork_active(self.bellatrix_fork_epoch, epoch) {
            ForkName::Merge
        } else if is_fork_active(self.altair_fork_epoch, epoch) {
            ForkName::Altair
        } else {
            ForkName::Base
        }
    }

    /// The constants of the main network.
    pub open spec fn mainnet_spec() -> ChainSpec {
        ChainSpec {
            slots_per_epoch: 32,
            shard_count: 1024,
            min_attestation_inclusion_delay: 1,
            seconds_per_day: 86400,
            min_genesis_time: 1578009600,
            min_genesis_active_validator_count: 65536,
            effective_balance_increment: 1_000_000_000,
            max_effective_balance: 32_000_000_000,
            genesis_epoch: 0,
            far_future_epoch: u64::MAX,
            altair_fork_epoch: None,
            bellatrix_fork_epoch: None,
            capella_fork_epoch: None,
            eip4844_fork_epoch: None,
        }
    }

    /// The constants of the main network.
    pub fn mainnet() -> (r: ChainSpec)
        ensures
            r == ChainSpec::mainnet_spec(),
            r.wf(),
    {
        ChainSpec {
            slots_per_epoch: 32,
            shard_count: 1024,
            min_attestation_inclusion_delay: 1,
            seconds_per_day: 86400,
            min_genesis_time: 1578009600,
            min_genesis_active_validator_count: 65536,
            effective_balance_increment: 1_000_000_000,
            max_effective_balance: 32_000_000_000,
            genesis_epoch: 0,
            far_future_epoch: u64::MAX,
            altair_fork_epoch: None,
            bellatrix_fork_epoch: None,
            capella_fork_epoch: None,
            eip4844_fork_epoch: None,
        }
    }

    /// The constants of small test networks.
    pub open spec fn minimal_spec() -> ChainSpec {
        ChainSpec {
            slots_per_epoch: 8,
            shard_count: 8,
            min_attestation_inclusion_delay: 1,
            seconds_per_day: 86400,
            min_genesis_time: 1578009600,
            min_genesis_active_validator_count: 64,
            effective_balance_increment: 1_000_000_000,
            max_effective_balance: 32_000_000_000,
            genesis_epoch: 0,
            far_future_epoch: u64::MAX,
            altair_fork_epoch: None,
            bellatrix_fork_epoch: None,
            capella_fork_epoch: None,
            eip4844_fork_epoch: None,
        }
    }

    /// The constants of small test networks.
    pub fn minimal() -> (r: ChainSpec)
        ensures
            r == ChainSpec::minimal_spec(),
            r.wf(),
    {
        ChainSpec {
            slots_per_epoch: 8,
            shard_count: 8,
            min_attestation_inclusion_delay: 1,
            seconds_per_day: 86400,
            min_genesis_time: 1578009600,
            min_genesis_active_validator_count: 64,
            effective_balance_increment: 1_000_000_000,
            max_effective_balance: 32_000_000_000,
            genesis_epoch: 0,
            far_future_epoch: u64::MAX,
            altair_fork_epoch: None,
            bellatrix_fork_epoch: None,
            capella_fork_epoch: None,
            eip4844_fork_epoch: None,
        }
    }

    /// The constants of interoperability test networks: minimal, with genesis
    /// allowed at any time.
    pub open spec fn interop_spec() -> ChainSpec {
        ChainSpec { min_genesis_time: 0, ..ChainSpec::minimal_spec() }
    }

    /// The constants of interoperability test networks: minimal, with genesis
    /// allowed at any time.
    pub fn interop() -> (r: ChainSpec)
        ensures
            r == ChainSpec::interop_spec(),
            r.wf(),
    {
        let mut spec = ChainSpec::minimal();
        spec.min_genesis_time = 0;
        spec
    }
}

fn is_fork_active(fork_epoch: Option<Epoch>, epoch: Epoch) -> (r: bool)
    ensures
        r == fork_active(fork_epoch, epoch),
{
    match fork_epoch {
        Some(e) => e <= epoch,
        None => false,
    }
}

/// The fork versions in force, used to pick signing domains.
#[derive(Clone, Copy, Debug, PartialEq, Eq)]
pub struct Fork {
    pub previous_version: [u8; 4],
    pub current_version: [u8; 4],
    pub epoch: Epoch,
}

/// The domain type of attestation signatures.
pub const DOMAIN_ATTESTATION: u32 = 1;

/// The little-endian value of a 4-byte version.
pub open spec fn version_value(v: [u8; 4]) -> nat {
    (v[0] + 256 * v[1] + 65536 * v[2] + 16777216 * v[3]) as nat
}

/// The signing domain at `epoch`: the domain type in the low 32 bits, the fork
/// version in force at that epoch in the high 32 bits.
pub open spec fn domain_spec(fork: Fork, epoch: Epoch, domain_type: u32) -> u64 {
    let version = if epoch < fork.epoch {
        fork.previous_version
    } else {
        fork.current_version
    };
    (version_value(version) * 0x1_0000_0000 + domain_type) as u64
}

impl Fork {
    /// The signing domain of `domain_type` at `epoch`.
    pub fn get_domain(&self, epoch: Epoch, domain_type: u32) -> (r: u64)
        ensures
            r == domain_spec(*self, epoch, domain_type),
    {
        let v = if epoch < self.epoch {
            self.previous_version
        } else {
            self.current_version
        };
        let value: u64 = v[0] as u64 + 256 * (v[1] as u64) + 65536 * (v[2] as u64) + 16777216 * (
        v[3] as u64);
        value * 0x1_0000_0000 + domain_type as u64
    }
}

#[derive(Clone, Copy, Debug, PartialEq, Eq)]
pub struct Validator {
    pub pubkey: PublicKey,
    pub effective_balance: u64,
    pub activation_eligibility_epoch: Epoch,
    pub activation_epoch: Epoch,
    pub exit_epoch: Epoch,
}

/// The members of one committee, by validator index, for one slot and shard.
#[derive(Debug, PartialEq, Eq)]
pub struct CrosslinkCommittee {
    pub slot: Slot,
    pub shard: u64,
    pub committee: Vec<u64>,
}

/// The committees of one epoch, as built from the shuffling.
#[derive(Debug, PartialEq, Eq)]
pub struct CommitteeCache {
    pub epoch: Epoch,
    pub committees: Vec<CrosslinkCommittee>,
}

#[derive(Clone, Copy, Debug, PartialEq, Eq)]
pub enum BeaconStateError {
    /// The committee cache has not been built.
    EpochCacheUninitialized,
    /// The cache was built for another epoch than the state's current one.
    EpochOutOfBounds,
    /// A committee names a shard beyond the chain's shard count.
    ShardOutOfBounds,
    /// No proposer is known for the slot asked for.
    SlotOutOfBounds,
}

#[derive(Debug, PartialEq, Eq)]
pub struct BeaconState {
    pub slot: Slot,
    pub genesis_time: u64,
    pub fork: Fork,
    pub validator_registry: Vec<Validator>,
    pub balances: Vec<u64>,
    pub latest_attestations: Vec<Attestation>,
    pub committee_cache: Option<CommitteeCache>,
}

/// Where a validator attests in the current epoch.
#[derive(Clone, Copy, Debug, PartialEq, Eq)]
pub struct AttestationDuty {
    pub slot: Slot,
    pub shard: u64,
    pub committee_position: usize,
    pub committee_len: usize,
}

/// The first position of `v` among the first `n` members.
pub open spec fn position_in(members: Seq<u64>, v: u64, n: nat) -> Option<nat>
    decreases n,
{
    if n == 0 {
        None
    } else {
        match position_in(members, v, (n - 1) as nat) {
            Some(p) => Some(p),
            None => if members[n - 1] == v {
                Some((n - 1) as nat)
            } else {
                None
            },
        }
    }
}

/// The view of one committee: slot, shard and members.
pub open spec fn committee_view(c: CrosslinkCommittee) -> (Slot, u64, Seq<u64>) {
    (c.slot, c.shard, c.committee@)
}

/// The duty of `v` found by scanning the first `n` committees: a committee
/// with a shard beyond `shard_count` stops the scan with an error, and of the
/// committees that hold `v` the last one scanned gives the duty.
pub open spec fn duty_scan(
    committees: Seq<CrosslinkCommittee>,
    v: u64,
    shard_count: u64,
    n: nat,
) -> Result<Option<AttestationDuty>, BeaconStateError>
    decreases n,
{
    if n == 0 {
        Ok(None)
    } else {
        match duty_scan(committees, v, shard_count, (n - 1) as nat) {
            Err(e) => Err(e),
            Ok(found) => {
                let c = committees[n - 1];
                if c.shard >= shard_count {
                    Err(BeaconStateError::ShardOutOfBounds)
                } else {
                    match position_in(c.committee@, v, c.committee@.len()) {
                        Some(p) => Ok(
                            Some(
                                AttestationDuty {
                                    slot: c.slot,
                                    shard: c.shard,
                                    committee_position: p as usize,
                                    committee_len: c.committee@.len() as usize,
                                },
                            ),
                        ),
                        None => Ok(found),
                    }
                }
            },
        }
    }
}

/// Once the scan has stopped with an error, scanning further keeps that error.
proof fn lemma_duty_scan_error_sticks(
    committees: Seq<CrosslinkCommittee>,
    v: u64,
    shard_count: u64,
    n: nat,
    m: nat,
)
    requires
        n <= m,
        duty_scan(committees, v, shard_count, n) is Err,
    ensures
        duty_scan(committees, v, shard_count, m) == duty_scan(committees, v, shard_count, n),
    decreases m - n,
{
    if n < m {
        lemma_duty_scan_error_sticks(committees, v, shard_count, n, (m - 1) as nat);
    }
}

impl BeaconState {
    pub open spec fn current_epoch_spec(&self, spec: ChainSpec) -> Epoch {
        (self.slot / spec.slots_per_epoch) as Epoch
    }

    pub fn current_epoch(&self, spec: &ChainSpec) -> (r: Epoch)
        requires
            spec.wf(),
        ensures
            r == self.current_epoch_spec(*spec),
    {
        self.slot / spec.slots_per_epoch
    }

    /// The duty of validator `v` in the current epoch, as the committee cache
    /// gives it.
    pub open spec fn duty_spec(&self, v: u64, spec: ChainSpec) -> Result<
        Option<AttestationDuty>,
        BeaconStateError,
    > {
        match self.committee_cache {
            None => Err(BeaconStateError::EpochCacheUninitialized),
            Some(cache) => if cache.epoch != self.current_epoch_spec(spec) {
                Err(BeaconStateError::EpochOutOfBounds)
            } else {
                duty_scan(cache.committees@, v, spec.shard_count, cache.committees@.len())
            },
        }
    }

    /// Looks up where validator `v` attests in the current epoch.
    pub fn attestation_duty(&self, v: u64, spec: &ChainSpec) -> (r: Result<
        Option<AttestationDuty>,
        BeaconStateError,
    >)
        requires
            spec.wf(),
        ensures
            r == self.duty_spec(v, *spec),
            r matches Ok(Some(d)) ==> d.committee_position < d.committee_len,
    {
        let cache = match &self.committee_cache {
            None => {
                return Err(BeaconStateError::EpochCacheUninitialized);
            },
            Some(cache) => cache,
        };
        if cache.epoch != self.current_epoch(spec) {
            return Err(BeaconStateError::EpochOutOfBounds);
        }
        let committees = &cache.committees;
        assert(self.duty_spec(v, *spec) == duty_scan(
            committees@,
            v,
            spec.shard_count,
            committees@.len(),
        ));
        let mut result: Option<AttestationDuty> = None;
        let mut i: usize = 0;
        while i < committees.len()
            invariant
                i <= committees@.len(),
                self.duty_spec(v, *spec) == duty_scan(
                    committees@,
                    v,
                    spec.shard_count,
                    committees@.len(),
                ),
                duty_scan(committees@, v, spec.shard_count, i as nat) == Ok::<
                    Option<AttestationDuty>,
                    BeaconStateError,
                >(result),
                result matches Some(d) ==> d.committee_position < d.committee_len,
            decreases committees@.len() - i,
        {
            let c = &committees[i];
            if c.shard >= spec.shard_count {
                proof {
                    assert(committees@[i as int] == *c);
                    assert(duty_scan(committees@, v, spec.shard_count, (i + 1) as nat) == Err::<
                        Option<AttestationDuty>,
                        BeaconStateError,
                    >(BeaconStateError::ShardOutOfBounds));
                    lemma_duty_scan_error_sticks(
                        committees@,
                        v,
                        spec.shard_count,
                        (i + 1) as nat,
                        committees@.len(),
                    );
                }
                return Err(BeaconStateError::ShardOutOfBounds);
            }
            let mut j: usize = 0;
            let mut pos: Option<usize> = None;
            while j < c.committee.len()
                invariant
                    j <= c.committee@.len(),
                    pos == (match position_in(c.committee@, v, j as nat) {
                        Some(p) => Some(p as usize),
                        None => None::<usize>,
                    }),
                    forall|p: nat| position_in(c.committee@, v, j as nat) == Some(p) ==> p < j,
                    pos matches Some(p) ==> p < j,
                decreases c.committee@.len() - j,
            {
                if pos.is_none() && c.committee[j] == v {
                    pos = Some(j);
                }
                j = j + 1;
            }
            if let Some(p) = pos {
                result = Some(
                    AttestationDuty {
                        slot: c.slot,
                        shard: c.shard,
                        committee_position: p,
                        committee_len: c.committee.len(),
                    },
                );
            }
            i = i + 1;
        }
        Ok(result)
    }

    /// The `(slot, shard, committee position)` at which validator
    /// `validator_index` attests in the current epoch, or `None` when it sits in
    /// no committee.
    pub fn attestation_slot_and_shard_for_validator(
        &self,
        validator_index: u64,
        spec: &ChainSpec,
    ) -> (r: Result<Option<(u64, u64, u64)>, BeaconStateError>)
        requires
            spec.wf(),
        ensures
            r == (match self.duty_spec(validator_index, *spec) {
                Err(e) => Err(e),
                Ok(None) => Ok(None),
                Ok(Some(d)) => Ok(Some((d.slot, d.shard, d.committee_position as u64))),
            }),
    {
        match self.attestation_duty(validator_index, spec) {
            Err(e) => Err(e),
            Ok(None) => Ok(None),
            Ok(Some(d)) => Ok(Some((d.slot, d.shard, d.committee_position as u64))),
        }
    }
}

} // verus!
