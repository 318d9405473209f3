//! Folds single-validator attestations into one attestation per distinct
//! `AttestationData`, and hands out those fit for inclusion in a block.
//!
//! Entries are never removed: the store grows for as long as the aggregator
//! lives.
use vstd::prelude::*;
use crate::attestation::{
    bit_at, set_bit, set_slot, slot_at, signable_message_spec, AggregateSignature, Attestation, AttestationData,
    AttestationView, Bitfield, FreeAttestation, PHASE_0_CUSTODY_BIT,
};
use crate::primitives::{Hash256, PublicKey, Signature};
use crate::state::{
    domain_spec, AttestationDuty, BeaconState, BeaconStateError, ChainSpec, DOMAIN_ATTESTATION,
};

verus! {

broadcast use vstd::array::group_array_axioms;

#[derive(Clone, Copy, Debug, PartialEq, Eq, Structural)]
pub enum Message {
    /// The free attestation was added to an existing attestation.
    Aggregated,
    /// The free attestation has already been aggregated to an existing attestation.
    AggregationNotRequired,
    /// The free attestation was transformed into a new attestation.
    NewAttestationCreated,
    /// The validator sits in no committee of the current epoch, or is not in
    /// the registry.
    BadValidatorIndex,
    /// The signature does not verify against the validator's key.
    BadSignature,
    /// The slot does not match the validator's committee assignment.
    BadSlot,
    /// The shard does not match the validator's committee assignment, or lies
    /// beyond the chain's shards.
    BadShard,
    /// The committees asked for are not those of the current epoch.
    TooOld,
}

#[derive(Clone, Copy, Debug, PartialEq, Eq, Structural)]
pub struct Outcome {
    pub valid: bool,
    pub message: Message,
}

pub open spec fn outcome(valid: bool, message: Message) -> Outcome {
    Outcome { valid, message }
}

/// The key an attestation is stored under: the signable message of its data.
pub open spec fn key_of(d: AttestationData) -> Seq<u8> {
    signable_message_spec(d, PHASE_0_CUSTODY_BIT)
}

/// Whether some stored attestation is stored under `key`.
pub open spec fn has_entry(store: Seq<AttestationView>, key: Seq<u8>) -> bool {
    exists|i: int| 0 <= i < store.len() && key_of(store[i].data) == key
}

/// The position of the stored attestation under `key`.
pub open spec fn entry_index(store: Seq<AttestationView>, key: Seq<u8>) -> int {
    choose|i: int| 0 <= i < store.len() && key_of(store[i].data) == key
}

/// No two stored attestations share their key.
pub open spec fn keys_unique(store: Seq<AttestationView>) -> bool {
    forall|i: int, j: int|
        0 <= i < store.len() && 0 <= j < store.len() && key_of(store[i].data) == key_of(
            store[j].data,
        ) ==> i == j
}

/// Bit `k` of the aggregation field is set exactly when slot `k` holds a
/// signature, and the two have the same length.
pub open spec fn slots_match(a: AttestationView) -> bool {
    &&& a.aggregation_bits.len() == a.signatures.len()
    &&& forall|k: int|
        0 <= k < a.signatures.len() ==> (#[trigger] a.aggregation_bits[k] <==> a.signatures[k] is Some)
}

/// Every stored aggregate holds a signature exactly at its set bits.
pub open spec fn votes_match(store: Seq<AttestationView>) -> bool {
    forall|i: int| 0 <= i < store.len() ==> #[trigger] slots_match(store[i])
}

/// The attestation created from the first vote for its data.
pub open spec fn fresh_attestation(fa: FreeAttestation, duty: AttestationDuty) -> AttestationView {
    AttestationView {
        data: fa.data,
        aggregation_bits: set_bit(
            Seq::new(duty.committee_len as nat, |k: int| false),
            duty.committee_position as int,
            true,
        ),
        custody_bits: Seq::new(duty.committee_len as nat, |k: int| false),
        signatures: set_slot(
            Seq::new(duty.committee_len as nat, |k: int| None::<Signature>),
            duty.committee_position as int,
            Some(fa.signature),
        ),
    }
}

/// `a` with the vote of committee position `pos` folded in.
pub open spec fn folded(a: AttestationView, signature: Signature, pos: int) -> AttestationView {
    AttestationView {
        data: a.data,
        aggregation_bits: set_bit(a.aggregation_bits, pos, true),
        custody_bits: a.custody_bits,
        signatures: set_slot(a.signatures, pos, Some(signature)),
    }
}

/// One step of the aggregator: what processing `fa` returns and the store it
/// leaves, given the validator's duty, the registry's length and whether the
/// signature verified.
pub open spec fn process_spec(
    store: Seq<AttestationView>,
    duty: Result<Option<AttestationDuty>, BeaconStateError>,
    registry_len: nat,
    fa: FreeAttestation,
    signature_valid: bool,
) -> Result<(Outcome, Seq<AttestationView>), BeaconStateError> {
    match duty {
        Err(BeaconStateError::EpochOutOfBounds) => Ok((outcome(false, Message::TooOld), store)),
        Err(BeaconStateError::ShardOutOfBounds) => Ok((outcome(false, Message::BadShard), store)),
        Err(e) => Err(e),
        Ok(None) => Ok((outcome(false, Message::BadValidatorIndex), store)),
        Ok(Some(d)) => if fa.data.slot != d.slot {
            Ok((outcome(false, Message::BadSlot), store))
        } else if fa.data.shard != d.shard {
            Ok((outcome(false, Message::BadShard), store))
        } else if fa.validator_index >= registry_len {
            Ok((outcome(false, Message::BadValidatorIndex), store))
        } else if !signature_valid {
            Ok((outcome(false, Message::BadSignature), store))
        } else if !has_entry(store, key_of(fa.data)) {
            Ok((outcome(true, Message::NewAttestationCreated), store.push(fresh_attestation(fa, d))))
        } else {
            let i = entry_index(store, key_of(fa.data));
            if bit_at(store[i].aggregation_bits, d.committee_position as int) {
                Ok((outcome(true, Message::AggregationNotRequired), store))
            } else {
                Ok(
                    (
                        outcome(true, Message::Aggregated),
                        store.update(
                            i,
                            folded(store[i], fa.signature, d.committee_position as int),
                        ),
                    ),
                )
            }
        },
    }
}

/// Whether an attestation for `d` may be included in a block at `state_slot`:
/// its inclusion delay has passed and it is at most an epoch old. This is the
/// inclusion-window part of an attestation's validity; the state modelled here
/// holds no justified checkpoints or crosslinks, so those checks are not made.
pub open spec fn includable(state_slot: u64, d: AttestationData, spec: ChainSpec) -> bool {
    d.slot + spec.min_attestation_inclusion_delay <= state_slot && state_slot <= d.slot
        + spec.slots_per_epoch
}

/// Whether the state already holds an attestation with data `d`.
pub open spec fn known_in(included: Seq<Attestation>, d: AttestationData) -> bool {
    exists|i: int| 0 <= i < included.len() && included[i].data == d
}

/// The stored attestations among the first `n` that a block on `state` may
/// include, in store order.
pub open spec fn selected(
    store: Seq<AttestationView>,
    state_slot: u64,
    included: Seq<Attestation>,
    spec: ChainSpec,
    n: nat,
) -> Seq<AttestationView>
    decreases n,
{
    if n == 0 {
        Seq::empty()
    } else {
        let rest = selected(store, state_slot, included, spec, (n - 1) as nat);
        let a = store[n - 1];
        if includable(state_slot, a.data, spec) && !known_in(included, a.data) {
            rest.push(a)
        } else {
            rest
        }
    }
}

/// Produces the attestation `existing` becomes once the vote of committee
/// position `committee_index` is folded in, or `None` when that position has
/// already voted.
fn aggregate_attestation(
    existing_attestation: &Attestation,
    signature: &Signature,
    committee_index: usize,
) -> (r: Option<Attestation>)
    requires
        committee_index < usize::MAX,
    ensures
        r is None <==> bit_at(existing_attestation@.aggregation_bits, committee_index as int),
        r matches Some(a) ==> a@ == folded(
            existing_attestation@,
            *signature,
            committee_index as int,
        ),
{
    let already_signed = match existing_attestation.aggregation_bitfield.get(committee_index) {
        Some(b) => b,
        None => false,
    };
    if already_signed {
        None
    } else {
        let mut aggregation_bitfield = existing_attestation.aggregation_bitfield.duplicate();
        aggregation_bitfield.set(committee_index, true);
        let mut aggregate_signature = existing_attestation.aggregate_signature.duplicate();
        aggregate_signature.add(committee_index, signature);
        Some(
            Attestation {
                data: existing_attestation.data,
                aggregation_bitfield,
                custody_bitfield: existing_attestation.custody_bitfield.duplicate(),
                aggregate_signature,
            },
        )
    }
}

/// The stored attestations among the first `n` that survive finality of
/// `finalized_epoch`: those whose target epoch is not before it, in store order.
pub open spec fn retained(store: Seq<AttestationView>, finalized_epoch: u64, n: nat) -> Seq<
    AttestationView,
>
    decreases n,
{
    if n == 0 {
        Seq::empty()
    } else {
        let rest = retained(store, finalized_epoch, (n - 1) as nat);
        if store[n - 1].data.target.epoch >= finalized_epoch {
            rest.push(store[n - 1])
        } else {
            rest
        }
    }
}

/// The values of stored attestations.
pub open spec fn views_of(s: Seq<Attestation>) -> Seq<AttestationView> {
    s.map_values(|a: Attestation| a@)
}

/// What a vote's signature is verified against.
#[derive(Clone, Copy, Debug, PartialEq, Eq)]
pub struct SigningInput {
    /// The registry's key for the voting validator.
    pub pubkey: PublicKey,
    /// The signable message of the vote's data.
    pub message: Hash256,
    /// The attestation domain of the state's current epoch.
    pub domain: u64,
}

/// The key, message and domain that `free_attestation.signature` must verify
/// against, or `None` when the registry holds no such validator.
pub fn signing_input(
    cached_state: &BeaconState,
    free_attestation: &FreeAttestation,
    spec: &ChainSpec,
) -> (r: Option<SigningInput>)
    requires
        spec.wf(),
    ensures
        r is None <==> free_attestation.validator_index >= cached_state.validator_registry@.len(),
        r matches Some(input) ==> {
            &&& input.pubkey
                == cached_state.validator_registry@[free_attestation.validator_index as int].pubkey
            &&& input.message.bytes@ == key_of(free_attestation.data)
            &&& input.domain == domain_spec(
                cached_state.fork,
                cached_state.current_epoch_spec(*spec),
                DOMAIN_ATTESTATION,
            )
        },
{
    if free_attestation.validator_index >= cached_state.validator_registry.len() as u64 {
        return None;
    }
    let validator = &cached_state.validator_registry[free_attestation.validator_index as usize];
    Some(
        SigningInput {
            pubkey: validator.pubkey,
            message: free_attestation.data.signable_message(PHASE_0_CUSTODY_BIT),
            domain: cached_state.fork.get_domain(
                cached_state.current_epoch(spec),
                DOMAIN_ATTESTATION,
            ),
        },
    )
}

/// Keeps one attestation per signable message, that is per distinct
/// `AttestationData`.
pub struct AttestationAggregator {
    store: Vec<Attestation>,
    /// The key of each stored attestation, at the same position.
    keys: Vec<Hash256>,
}

impl View for AttestationAggregator {
    type V = Seq<AttestationView>;

    closed spec fn view(&self) -> Seq<AttestationView> {
        self.store@.map_values(|a: Attestation| a@)
    }
}

impl AttestationAggregator {
    pub closed spec fn wf(&self) -> bool {
        &&& keys_unique(self@)
        &&& votes_match(self@)
        &&& self.keys@.len() == self.store@.len()
        &&& forall|i: int|
            0 <= i < self.keys@.len() ==> #[trigger] self.keys@[i].bytes@ == key_of(
                self.store@[i].data,
            )
    }

    /// An aggregator with an empty store.
    pub fn new() -> (r: AttestationAggregator)
        ensures
            r.wf(),
            r@ == Seq::<AttestationView>::empty(),
    {
        let r = AttestationAggregator { store: Vec::new(), keys: Vec::new() };
        assert(r@ =~= Seq::<AttestationView>::empty());
        r
    }

    /// The number of distinct attestations held.
    pub fn len(&self) -> (r: usize)
        ensures
            r == self@.len(),
    {
        self.store.len()
    }

    /// The stored attestation for `data`, if any.
    pub fn get(&self, data: &AttestationData) -> (r: Option<Attestation>)
        requires
            self.wf(),
        ensures
            r is Some <==> has_entry(self@, key_of(*data)),
            r matches Some(a) ==> a@ == self@[entry_index(self@, key_of(*data))],
    {
        let key = data.signable_message(PHASE_0_CUSTODY_BIT);
        match self.find(&key) {
            Some(i) => Some(self.store[i].duplicate()),
            None => None,
        }
    }

    /// The index of the attestation stored under `key`.
    fn find(&self, key: &Hash256) -> (r: Option<usize>)
        requires
            self.wf(),
        ensures
            r is Some <==> has_entry(self@, key.bytes@),
            r matches Some(i) ==> i == entry_index(self@, key.bytes@) && i < self@.len(),
    {
        let mut i: usize = 0;
        while i < self.keys.len()
            invariant
                self.wf(),
                i <= self.keys@.len(),
                forall|j: int| 0 <= j < i ==> key_of(self.store@[j].data) != key.bytes@,
            decreases self.keys@.len() - i,
        {
            if self.keys[i].same_as(key) {
                assert(self@.len() == self.store@.len());
                assert(self.keys@[i as int].bytes@ == key_of(self.store@[i as int].data));
                assert(key_of(self@[i as int].data) == key.bytes@);
                let ghost k = entry_index(self@, key.bytes@);
                assert(key_of(self@[k].data) == key.bytes@);
                assert(0 <= k < self@.len());
                assert(i == k);
                return Some(i);
            }
            assert(self.keys@[i as int].bytes@ == key_of(self.store@[i as int].data));
            proof {
                if self.keys@[i as int].bytes@ == key.bytes@ {
                    assert(self.keys@[i as int].bytes =~= key.bytes);
                }
            }
            i = i + 1;
        }
        proof {
            if has_entry(self@, key.bytes@) {
                let k = entry_index(self@, key.bytes@);
                assert(key_of(self.store@[k].data) == key.bytes@);
            }
        }
        None
    }

    /// Accepts a single validator's attestation, checks it against its
    /// committee assignment and either folds it into the stored attestation
    /// for its data or stores a new one.
    ///
    /// `signature_valid` tells whether `free_attestation.signature` verifies
    /// against what `signing_input` returns for this state and vote (the
    /// registry's key, the signable message, the attestation domain). It is
    /// consulted after the assignment, so a vote that fails both is reported
    /// by its assignment.
    pub fn process_free_attestation(
        &mut self,
        cached_state: &BeaconState,
        free_attestation: &FreeAttestation,
        spec: &ChainSpec,
        signature_valid: bool,
    ) -> (r: Result<Outcome, BeaconStateError>)
        requires
            old(self).wf(),
            spec.wf(),
            cached_state.committee_cache is Some,
        ensures
            final(self).wf(),
            keys_unique(final(self)@),
            votes_match(final(self)@),
            match process_spec(
                old(self)@,
                cached_state.duty_spec(free_attestation.validator_index, *spec),
                cached_state.validator_registry@.len(),
                *free_attestation,
                signature_valid,
            ) {
                Ok((o, s)) => r == Ok::<Outcome, BeaconStateError>(o) && final(self)@ == s,
                Err(e) => r == Err::<Outcome, BeaconStateError>(e) && final(self)@ == old(self)@,
            },
    {
        proof {
            lemma_process_keeps_votes_matched(
                old(self)@,
                cached_state.duty_spec(free_attestation.validator_index, *spec),
                cached_state.validator_registry@.len(),
                *free_attestation,
                signature_valid,
            );
        }
        let duty = match cached_state.attestation_duty(free_attestation.validator_index, spec) {
            Err(BeaconStateError::EpochOutOfBounds) => {
                return Ok(Outcome { valid: false, message: Message::TooOld });
            },
            Err(BeaconStateError::ShardOutOfBounds) => {
                return Ok(Outcome { valid: false, message: Message::BadShard });
            },
            Err(e) => {
                return Err(e);
            },
            Ok(None) => {
                return Ok(Outcome { valid: false, message: Message::BadValidatorIndex });
            },
            Ok(Some(duty)) => duty,
        };
        if free_attestation.data.slot != duty.slot {
            return Ok(Outcome { valid: false, message: Message::BadSlot });
        }
        if free_attestation.data.shard != duty.shard {
            return Ok(Outcome { valid: false, message: Message::BadShard });
        }
        if free_attestation.validator_index >= cached_state.validator_registry.len() as u64 {
            return Ok(Outcome { valid: false, message: Message::BadValidatorIndex });
        }
        if !signature_valid {
            return Ok(Outcome { valid: false, message: Message::BadSignature });
        }
        let position = duty.committee_position;
        let signable_message = free_attestation.data.signable_message(PHASE_0_CUSTODY_BIT);
        match self.find(&signable_message) {
            Some(i) => {
                match aggregate_attestation(&self.store[i], &free_attestation.signature, position) {
                    Some(updated) => {
                        self.store.set(i, updated);
                        proof {
                            assert(self@ =~= old(self)@.update(
                                i as int,
                                folded(old(self)@[i as int], free_attestation.signature, position as int),
                            ));
                        }
                        Ok(Outcome { valid: true, message: Message::Aggregated })
                    },
                    None => Ok(Outcome { valid: true, message: Message::AggregationNotRequired }),
                }
            },
            None => {
                let mut aggregate_signature = AggregateSignature::with_len(duty.committee_len);
                aggregate_signature.add(position, &free_attestation.signature);
                let mut aggregation_bitfield = Bitfield::with_len(duty.committee_len);
                aggregation_bitfield.set(position, true);
                let new_attestation = Attestation {
                    data: free_attestation.data,
                    aggregation_bitfield,
                    custody_bitfield: Bitfield::with_len(duty.committee_len),
                    aggregate_signature,
                };
                self.store.push(new_attestation);
                self.keys.push(signable_message);
                proof {
                    assert(self@ =~= old(self)@.push(fresh_attestation(*free_attestation, duty)));
                }
                Ok(Outcome { valid: true, message: Message::NewAttestationCreated })
            },
        }
    }

    /// Drops the attestations whose target epoch lies before `finalized_epoch`:
    /// no block can include them any more. The rest keep their order.
    pub fn prune_finalized(&mut self, finalized_epoch: u64)
        requires
            old(self).wf(),
        ensures
            final(self).wf(),
            final(self)@ == retained(old(self)@, finalized_epoch, old(self)@.len()),
    {
        let ghost before = self@;
        let mut store: Vec<Attestation> = Vec::new();
        let mut keys: Vec<Hash256> = Vec::new();
        let mut i: usize = 0;
        while i < self.store.len()
            invariant
                self.wf(),
                self@ == before,
                i <= self.store@.len(),
                keys@.len() == store@.len(),
                forall|k: int| 0 <= k < keys@.len() ==> #[trigger] keys@[k].bytes@ == key_of(store@[k].data),
                views_of(store@) == retained(before, finalized_epoch, i as nat),
                keys_unique(views_of(store@)),
                votes_match(views_of(store@)),
                forall|k: int|
                    0 <= k < store@.len() ==> exists|j: int|
                        0 <= j < i && #[trigger] store@[k]@ == before[j],
            decreases self.store@.len() - i,
        {
            if self.store[i].data.target.epoch >= finalized_epoch {
                let ghost out = views_of(store@);
                let a = self.store[i].duplicate();
                proof {
                    assert(self.keys@[i as int].bytes@ == key_of(self.store@[i as int].data));
                    assert(before[i as int] == self.store@[i as int]@);
                    assert forall|k: int| 0 <= k < out.len() implies key_of(out[k].data) != key_of(
                        a@.data,
                    ) by {
                        assert(out[k] == store@[k]@);
                        let j = choose|j: int| 0 <= j < i && store@[k]@ == before[j];
                        assert(before[j] == out[k]);
                    }
                    lemma_push_keeps_keys(out, a@);
                    assert(slots_match(before[i as int]));
                }
                store.push(a);
                keys.push(self.keys[i]);
                proof {
                    assert(views_of(store@) =~= out.push(before[i as int]));
                    assert forall|k: int| 0 <= k < store@.len() implies exists|j: int|
                        0 <= j < i + 1 && #[trigger] store@[k]@ == before[j] by {
                        if k < out.len() {
                            let j = choose|j: int| 0 <= j < i && store@[k]@ == before[j];
                            assert(0 <= j < i + 1 && store@[k]@ == before[j]);
                        } else {
                            assert(store@[k]@ == before[i as int]);
                        }
                    }
                    assert forall|k: int| 0 <= k < store@.len() implies #[trigger] slots_match(
                        views_of(store@)[k],
                    ) by {
                        if k < out.len() {
                            assert(views_of(store@)[k] == out[k]);
                        }
                    }
                }
            }
            i = i + 1;
        }
        self.store = store;
        self.keys = keys;
    }

    /// The stored attestations that a block built on `state` may include:
    /// those inside their inclusion window whose data the state does not
    /// already hold. The store is left as it is.
    pub fn get_attestations_for_state(&self, state: &BeaconState, spec: &ChainSpec) -> (r: Vec<
        Attestation,
    >)
        requires
            self.wf(),
        ensures
            views_of(r@) == selected(
                self@,
                state.slot,
                state.latest_attestations@,
                *spec,
                self@.len(),
            ),
            r@.len() <= self@.len(),
            forall|i: int, j: int|
                0 <= i < r@.len() && 0 <= j < r@.len() && i != j ==> r@[i].data != r@[j].data,
    {
        let ghost store = self@;
        let mut out: Vec<Attestation> = Vec::new();
        let mut i: usize = 0;
        while i < self.store.len()
            invariant
                self.wf(),
                self@ == store,
                i <= self.store@.len(),
                out@.len() <= i,
                views_of(out@) == selected(
                    self@,
                    state.slot,
                    state.latest_attestations@,
                    *spec,
                    i as nat,
                ),
                keys_unique(views_of(out@)),
                forall|k: int|
                    0 <= k < out@.len() ==> exists|j: int|
                        0 <= j < i && #[trigger] out@[k]@ == store[j],
            decreases self.store@.len() - i,
        {
            let a = &self.store[i];
            if is_includable(state.slot, &a.data, spec) && !is_known(
                &state.latest_attestations,
                &a.data,
            ) {
                let ghost before = views_of(out@);
                let c = a.duplicate();
                proof {
                    assert(store[i as int] == self.store@[i as int]@);
                    assert forall|k: int| 0 <= k < before.len() implies key_of(before[k].data)
                        != key_of(c@.data) by {
                        assert(before[k] == out@[k]@);
                        let j = choose|j: int| 0 <= j < i && out@[k]@ == store[j];
                        assert(store[j] == before[k]);
                    }
                    lemma_push_keeps_keys(before, c@);
                }
                out.push(c);
                proof {
                    assert(views_of(out@) =~= before.push(store[i as int]));
                    assert forall|k: int| 0 <= k < out@.len() implies exists|j: int|
                        0 <= j < i + 1 && #[trigger] out@[k]@ == store[j] by {
                        if k < before.len() {
                            let j = choose|j: int| 0 <= j < i && out@[k]@ == store[j];
                            assert(0 <= j < i + 1 && out@[k]@ == store[j]);
                        } else {
                            assert(out@[k]@ == store[i as int]);
                        }
                    }
                }
            }
            i = i + 1;
        }
        proof {
            assert forall|x: int, y: int|
                0 <= x < out@.len() && 0 <= y < out@.len() && x != y implies out@[x].data
                != out@[y].data by {
                assert(views_of(out@)[x].data == out@[x].data);
                assert(views_of(out@)[y].data == out@[y].data);
            }
        }
        out
    }

    /// What a well-formed aggregator guarantees of its store: no two
    /// attestations share a key, and each holds a signature exactly at its set
    /// bits.
    pub proof fn lemma_store_invariants(&self)
        requires
            self.wf(),
        ensures
            keys_unique(self@),
            votes_match(self@),
    {
    }
}

/// Whether an attestation for `d` lies inside its inclusion window at `state_slot`.
fn is_includable(state_slot: u64, d: &AttestationData, spec: &ChainSpec) -> (r: bool)
    ensures
        r == includable(state_slot, *d, *spec),
{
    if d.slot > state_slot {
        return false;
    }
    let age = state_slot - d.slot;
    age >= spec.min_attestation_inclusion_delay && age <= spec.slots_per_epoch
}

/// Whether `included` holds an attestation with data `d`.
fn is_known(included: &Vec<Attestation>, d: &AttestationData) -> (r: bool)
    ensures
        r == known_in(included@, *d),
{
    let mut i: usize = 0;
    while i < included.len()
        invariant
            i <= included@.len(),
            forall|j: int| 0 <= j < i ==> included@[j].data != *d,
        decreases included@.len() - i,
    {
        if included[i].data.same_as(d) {
            return true;
        }
        i = i + 1;
    }
    false
}

/// The store that processing `fa` leaves.
pub open spec fn store_after(
    store: Seq<AttestationView>,
    duty: Result<Option<AttestationDuty>, BeaconStateError>,
    registry_len: nat,
    fa: FreeAttestation,
    signature_valid: bool,
) -> Seq<AttestationView> {
    match process_spec(store, duty, registry_len, fa, signature_valid) {
        Ok((_, s)) => s,
        Err(_) => store,
    }
}

proof fn lemma_bit_at_set_bit(bits: Seq<bool>, p: int, q: int, v: bool)
    requires
        0 <= p,
        0 <= q,
    ensures
        bit_at(set_bit(bits, p, v), q) == (if q == p {
            v
        } else {
            bit_at(bits, q)
        }),
{
}

proof fn lemma_set_bits_commute(bits: Seq<bool>, p: int, q: int)
    requires
        0 <= p,
        0 <= q,
    ensures
        set_bit(set_bit(bits, p, true), q, true) == set_bit(set_bit(bits, q, true), p, true),
{
    let a = set_bit(set_bit(bits, p, true), q, true);
    let b = set_bit(set_bit(bits, q, true), p, true);
    assert forall|k: int| 0 <= k < a.len() implies a[k] == b[k] by {
        lemma_bit_at_set_bit(set_bit(bits, p, true), q, k, true);
        lemma_bit_at_set_bit(bits, p, k, true);
        lemma_bit_at_set_bit(set_bit(bits, q, true), p, k, true);
        lemma_bit_at_set_bit(bits, q, k, true);
    }
    assert(a =~= b);
}

proof fn lemma_entry_at(store: Seq<AttestationView>, i: int)
    requires
        keys_unique(store),
        0 <= i < store.len(),
    ensures
        has_entry(store, key_of(store[i].data)),
        entry_index(store, key_of(store[i].data)) == i,
{
    assert(key_of(store[i].data) == key_of(store[i].data));
    let k = entry_index(store, key_of(store[i].data));
    assert(key_of(store[k].data) == key_of(store[i].data));
}

proof fn lemma_push_keeps_keys(store: Seq<AttestationView>, a: AttestationView)
    requires
        keys_unique(store),
        !has_entry(store, key_of(a.data)),
    ensures
        keys_unique(store.push(a)),
{
    let s = store.push(a);
    assert forall|i: int, j: int|
        0 <= i < s.len() && 0 <= j < s.len() && key_of(s[i].data) == key_of(s[j].data) implies i
            == j by {
        if i < store.len() && j == store.len() {
            assert(key_of(store[i].data) == key_of(a.data));
        } else if j < store.len() && i == store.len() {
            assert(key_of(store[j].data) == key_of(a.data));
        } else if i < store.len() && j < store.len() {
            assert(key_of(store[i].data) == key_of(store[j].data));
        }
    }
}

proof fn lemma_update_keeps_keys(store: Seq<AttestationView>, i: int, a: AttestationView)
    requires
        keys_unique(store),
        0 <= i < store.len(),
        a.data == store[i].data,
    ensures
        keys_unique(store.update(i, a)),
{
    let s = store.update(i, a);
    assert forall|x: int, y: int|
        0 <= x < s.len() && 0 <= y < s.len() && key_of(s[x].data) == key_of(s[y].data) implies x
            == y by {
        assert(key_of(store[x].data) == key_of(store[y].data));
    }
}

/// Processing a step keeps the stored data unique.
pub proof fn lemma_process_keeps_keys(
    store: Seq<AttestationView>,
    duty: Result<Option<AttestationDuty>, BeaconStateError>,
    registry_len: nat,
    fa: FreeAttestation,
    signature_valid: bool,
)
    requires
        keys_unique(store),
    ensures
        keys_unique(store_after(store, duty, registry_len, fa, signature_valid)),
{
    if let Ok(Some(d)) = duty {
        if has_entry(store, key_of(fa.data)) {
            let i = entry_index(store, key_of(fa.data));
            lemma_update_keeps_keys(
                store,
                i,
                folded(store[i], fa.signature, d.committee_position as int),
            );
        } else {
            lemma_push_keeps_keys(store, fresh_attestation(fa, d));
        }
    }
}

proof fn lemma_slot_at_set_slot(slots: Seq<Option<Signature>>, p: int, q: int, v: Option<Signature>)
    requires
        0 <= p,
        0 <= q,
    ensures
        slot_at(set_slot(slots, p, v), q) == (if q == p {
            v
        } else {
            slot_at(slots, q)
        }),
{
}

proof fn lemma_set_slots_commute(
    slots: Seq<Option<Signature>>,
    p: int,
    x: Signature,
    q: int,
    y: Signature,
)
    requires
        0 <= p,
        0 <= q,
        p != q,
    ensures
        set_slot(set_slot(slots, p, Some(x)), q, Some(y)) == set_slot(
            set_slot(slots, q, Some(y)),
            p,
            Some(x),
        ),
{
    let a = set_slot(set_slot(slots, p, Some(x)), q, Some(y));
    let b = set_slot(set_slot(slots, q, Some(y)), p, Some(x));
    assert forall|k: int| 0 <= k < a.len() implies a[k] == b[k] by {
        lemma_slot_at_set_slot(set_slot(slots, p, Some(x)), q, k, Some(y));
        lemma_slot_at_set_slot(slots, p, k, Some(x));
        lemma_slot_at_set_slot(set_slot(slots, q, Some(y)), p, k, Some(x));
        lemma_slot_at_set_slot(slots, q, k, Some(y));
    }
    assert(a =~= b);
}

/// Setting bit `p` and filling slot `p` together keeps bits and slots matched.
proof fn lemma_fold_keeps_match(a: AttestationView, signature: Signature, p: int)
    requires
        0 <= p,
        slots_match(a),
    ensures
        slots_match(folded(a, signature, p)),
{
    let f = folded(a, signature, p);
    assert forall|k: int| 0 <= k < f.signatures.len() implies (#[trigger] f.aggregation_bits[k]
        <==> f.signatures[k] is Some) by {
        lemma_bit_at_set_bit(a.aggregation_bits, p, k, true);
        lemma_slot_at_set_slot(a.signatures, p, k, Some(signature));
        if k < a.signatures.len() {
            assert(a.aggregation_bits[k] <==> a.signatures[k] is Some);
        }
    }
}

/// Folding the votes of two different positions gives the same attestation in
/// either order.
pub proof fn lemma_fold_commutes(
    a: AttestationView,
    s1: Signature,
    p1: int,
    s2: Signature,
    p2: int,
)
    requires
        0 <= p1,
        0 <= p2,
        p1 != p2,
    ensures
        folded(folded(a, s1, p1), s2, p2) == folded(folded(a, s2, p2), s1, p1),
{
    lemma_set_bits_commute(a.aggregation_bits, p1, p2);
    lemma_set_slots_commute(a.signatures, p1, s1, p2, s2);
}

/// Processing a step keeps one signature per set bit in every aggregate.
pub proof fn lemma_process_keeps_votes_matched(
    store: Seq<AttestationView>,
    duty: Result<Option<AttestationDuty>, BeaconStateError>,
    registry_len: nat,
    fa: FreeAttestation,
    signature_valid: bool,
)
    requires
        votes_match(store),
    ensures
        votes_match(store_after(store, duty, registry_len, fa, signature_valid)),
{
    let s = store_after(store, duty, registry_len, fa, signature_valid);
    if let Ok(Some(d)) = duty {
        let p = d.committee_position as int;
        if has_entry(store, key_of(fa.data)) {
            let i = entry_index(store, key_of(fa.data));
            lemma_fold_keeps_match(store[i], fa.signature, p);
        } else {
            let empty = AttestationView {
                data: fa.data,
                aggregation_bits: Seq::new(d.committee_len as nat, |k: int| false),
                custody_bits: Seq::new(d.committee_len as nat, |k: int| false),
                signatures: Seq::new(d.committee_len as nat, |k: int| None::<Signature>),
            };
            assert(slots_match(empty));
            lemma_fold_keeps_match(empty, fa.signature, p);
            assert(folded(empty, fa.signature, p) == fresh_attestation(fa, d));
        }
    }
    assert forall|k: int| 0 <= k < s.len() implies #[trigger] slots_match(s[k]) by {
        if k < store.len() {
            assert(slots_match(store[k]));
        }
    }
}

/// Submitting the same attestation again, against the same state, changes
/// nothing once the first submission was accepted: the second is reported as
/// not requiring aggregation and the store stays as the first left it. When
/// the store held nothing for the data, the first submission created the
/// attestation.
pub proof fn lemma_resubmission_is_idempotent(
    store: Seq<AttestationView>,
    duty: Result<Option<AttestationDuty>, BeaconStateError>,
    registry_len: nat,
    fa: FreeAttestation,
    signature_valid: bool,
)
    requires
        keys_unique(store),
        process_spec(store, duty, registry_len, fa, signature_valid) matches Ok((o, _)) && o.valid,
    ensures
        ({
            let s = store_after(store, duty, registry_len, fa, signature_valid);
            process_spec(s, duty, registry_len, fa, signature_valid) == Ok::<
                (Outcome, Seq<AttestationView>),
                BeaconStateError,
            >((outcome(true, Message::AggregationNotRequired), s))
        }),
        !has_entry(store, key_of(fa.data)) ==> (process_spec(
            store,
            duty,
            registry_len,
            fa,
            signature_valid,
        ) matches Ok((o, _)) && o.message == Message::NewAttestationCreated),
{
    let d = duty->Ok_0->Some_0;
    let p = d.committee_position as int;
    let s = store_after(store, duty, registry_len, fa, signature_valid);
    lemma_process_keeps_keys(store, duty, registry_len, fa, signature_valid);
    if has_entry(store, key_of(fa.data)) {
        let i = entry_index(store, key_of(fa.data));
        if !bit_at(store[i].aggregation_bits, p) {
            lemma_entry_at(s, i);
            lemma_bit_at_set_bit(store[i].aggregation_bits, p, p, true);
        }
    } else {
        let n = store.len() as int;
        lemma_entry_at(s, n);
        lemma_bit_at_set_bit(Seq::new(d.committee_len as nat, |k: int| false), p, p, true);
    }
}

/// A vote whose slot differs from the slot of the validator's assignment is
/// rejected as `BadSlot` and leaves the store as it was.
pub proof fn lemma_slot_mismatch_rejected(
    store: Seq<AttestationView>,
    duty: AttestationDuty,
    registry_len: nat,
    fa: FreeAttestation,
    signature_valid: bool,
)
    requires
        fa.data.slot != duty.slot,
    ensures
        process_spec(store, Ok(Some(duty)), registry_len, fa, signature_valid) == Ok::<
            (Outcome, Seq<AttestationView>),
            BeaconStateError,
        >((outcome(false, Message::BadSlot), store)),
{
}

/// Two members at different positions of one committee, voting for the same
/// data with valid signatures, leave the same store whichever vote comes
/// first. Both positions end up set; each of their slots holds a signature,
/// and when the store held nothing for the data those are exactly the two
/// votes' signatures.
pub proof fn lemma_aggregation_commutes(
    store: Seq<AttestationView>,
    d1: AttestationDuty,
    d2: AttestationDuty,
    registry_len: nat,
    fa1: FreeAttestation,
    fa2: FreeAttestation,
)
    requires
        keys_unique(store),
        votes_match(store),
        fa1.data == fa2.data,
        d1.slot == fa1.data.slot,
        d2.slot == fa1.data.slot,
        d1.shard == fa1.data.shard,
        d2.shard == fa1.data.shard,
        d1.committee_len == d2.committee_len,
        d1.committee_position != d2.committee_position,
        fa1.validator_index < registry_len,
        fa2.validator_index < registry_len,
    ensures
        ({
            let s12 = store_after(
                store_after(store, Ok(Some(d1)), registry_len, fa1, true),
                Ok(Some(d2)),
                registry_len,
                fa2,
                true,
            );
            let s21 = store_after(
                store_after(store, Ok(Some(d2)), registry_len, fa2, true),
                Ok(Some(d1)),
                registry_len,
                fa1,
                true,
            );
            let e = s12[entry_index(s12, key_of(fa1.data))];
            &&& s12 == s21
            &&& has_entry(s12, key_of(fa1.data))
            &&& bit_at(e.aggregation_bits, d1.committee_position as int)
            &&& bit_at(e.aggregation_bits, d2.committee_position as int)
            &&& slot_at(e.signatures, d1.committee_position as int) is Some
            &&& slot_at(e.signatures, d2.committee_position as int) is Some
            &&& !has_entry(store, key_of(fa1.data)) ==> slot_at(
                e.signatures,
                d1.committee_position as int,
            ) == Some(fa1.signature) && slot_at(e.signatures, d2.committee_position as int)
                == Some(fa2.signature)
        }),
{
    let p1 = d1.committee_position as int;
    let p2 = d2.committee_position as int;
    let data = fa1.data;
    let s1 = store_after(store, Ok(Some(d1)), registry_len, fa1, true);
    let s2 = store_after(store, Ok(Some(d2)), registry_len, fa2, true);
    let s12 = store_after(s1, Ok(Some(d2)), registry_len, fa2, true);
    let s21 = store_after(s2, Ok(Some(d1)), registry_len, fa1, true);
    lemma_process_keeps_keys(store, Ok(Some(d1)), registry_len, fa1, true);
    lemma_process_keeps_keys(store, Ok(Some(d2)), registry_len, fa2, true);
    lemma_process_keeps_keys(s1, Ok(Some(d2)), registry_len, fa2, true);
    lemma_process_keeps_votes_matched(store, Ok(Some(d1)), registry_len, fa1, true);
    lemma_process_keeps_votes_matched(s1, Ok(Some(d2)), registry_len, fa2, true);
    let i: int = if has_entry(store, key_of(data)) {
        entry_index(store, key_of(data))
    } else {
        store.len() as int
    };
    lemma_entry_at(s1, i);
    lemma_entry_at(s2, i);
    let base = if has_entry(store, key_of(data)) {
        store[i]
    } else {
        AttestationView {
            data,
            aggregation_bits: Seq::new(d1.committee_len as nat, |k: int| false),
            custody_bits: Seq::new(d1.committee_len as nat, |k: int| false),
            signatures: Seq::new(d1.committee_len as nat, |k: int| None::<Signature>),
        }
    };
    let b = base.aggregation_bits;
    if !has_entry(store, key_of(data)) {
        assert(folded(base, fa1.signature, p1) == fresh_attestation(fa1, d1));
        assert(folded(base, fa2.signature, p2) == fresh_attestation(fa2, d2));
    } else {
        assert(slots_match(store[i]));
    }
    lemma_bit_at_set_bit(b, p1, p2, true);
    lemma_bit_at_set_bit(b, p2, p1, true);
    lemma_bit_at_set_bit(b, p1, p1, true);
    lemma_bit_at_set_bit(b, p2, p2, true);
    lemma_set_bits_commute(b, p1, p2);
    lemma_set_slots_commute(base.signatures, p1, fa1.signature, p2, fa2.signature);
    lemma_fold_commutes(base, fa1.signature, p1, fa2.signature, p2);
    lemma_entry_at(s12, i);
    lemma_bit_at_set_bit(set_bit(b, p1, true), p2, p1, true);
    lemma_bit_at_set_bit(set_bit(b, p1, true), p2, p2, true);
    lemma_bit_at_set_bit(set_bit(b, p2, true), p1, p1, true);
    lemma_bit_at_set_bit(set_bit(b, p2, true), p1, p2, true);
    lemma_slot_at_set_slot(base.signatures, p1, p2, Some(fa1.signature));
    lemma_slot_at_set_slot(base.signatures, p2, p1, Some(fa2.signature));
    lemma_slot_at_set_slot(base.signatures, p1, p1, Some(fa1.signature));
    lemma_slot_at_set_slot(base.signatures, p2, p2, Some(fa2.signature));
    lemma_slot_at_set_slot(set_slot(base.signatures, p1, Some(fa1.signature)), p2, p1, Some(fa2.signature));
    lemma_slot_at_set_slot(set_slot(base.signatures, p1, Some(fa1.signature)), p2, p2, Some(fa2.signature));
    lemma_slot_at_set_slot(set_slot(base.signatures, p2, Some(fa2.signature)), p1, p1, Some(fa1.signature));
    lemma_slot_at_set_slot(set_slot(base.signatures, p2, Some(fa2.signature)), p1, p2, Some(fa2.signature));
    if has_entry(store, key_of(data)) {
        assert(votes_match(s12));
        assert(slots_match(s12[i]));
        if bit_at(b, p1) {
            assert(slot_at(base.signatures, p1) is Some);
        }
        if bit_at(b, p2) {
            assert(slot_at(base.signatures, p2) is Some);
        }
    }
    assert(s12 =~= s21);
}

} // verus!
