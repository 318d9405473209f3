//! Genesis: activating the validators whose deposits are complete, and
//! deciding whether a candidate state may start the chain.
use vstd::prelude::*;
use crate::state::{BeaconState, ChainSpec, Validator};

verus! {

/// Whether `v` is active at `epoch`.
pub open spec fn is_active(v: Validator, epoch: u64) -> bool {
    v.activation_epoch <= epoch && epoch < v.exit_epoch
}

/// The number of validators among the first `n` active at `epoch`.
pub open spec fn active_count(vs: Seq<Validator>, epoch: u64, n: nat) -> nat
    decreases n,
{
    if n == 0 {
        0
    } else {
        active_count(vs, epoch, (n - 1) as nat) + if is_active(vs[n - 1], epoch) {
            1nat
        } else {
            0nat
        }
    }
}

proof fn lemma_active_count_bound(vs: Seq<Validator>, epoch: u64, n: nat)
    ensures
        active_count(vs, epoch, n) <= n,
    decreases n,
{
    if n > 0 {
        lemma_active_count_bound(vs, epoch, (n - 1) as nat);
    }
}

/// The number of validators of `state` active at `epoch`.
pub fn active_validator_count(state: &BeaconState, epoch: u64) -> (r: u64)
    ensures
        r == active_count(state.validator_registry@, epoch, state.validator_registry@.len()),
{
    let vs = &state.validator_registry;
    let mut count: u64 = 0;
    let mut i: usize = 0;
    while i < vs.len()
        invariant
            i <= vs@.len(),
            count == active_count(vs@, epoch, i as nat),
        decreases vs@.len() - i,
    {
        proof {
            lemma_active_count_bound(vs@, epoch, i as nat);
        }
        if vs[i].activation_epoch <= epoch && epoch < vs[i].exit_epoch {
            count = count + 1;
        }
        i = i + 1;
    }
    count
}

/// Whether `state` may start the chain: its genesis time is not before the
/// minimum, and enough validators are active at the genesis epoch.
pub fn is_valid_genesis_state(state: &BeaconState, spec: &ChainSpec) -> (r: bool)
    ensures
        r == (state.genesis_time >= spec.min_genesis_time && active_count(
            state.validator_registry@,
            spec.genesis_epoch,
            state.validator_registry@.len(),
        ) >= spec.min_genesis_active_validator_count),
{
    state.genesis_time >= spec.min_genesis_time && active_validator_count(state, spec.genesis_epoch)
        >= spec.min_genesis_active_validator_count
}

/// The effective balance that a balance gives: rounded down to the
/// increment, capped at the maximum.
pub open spec fn effective_balance_of(balance: u64, spec: ChainSpec) -> u64 {
    let rounded = (balance - balance % spec.effective_balance_increment) as u64;
    if rounded < spec.max_effective_balance {
        rounded
    } else {
        spec.max_effective_balance
    }
}

/// `v` once activated at genesis with `balance`.
pub open spec fn activated(v: Validator, balance: u64, spec: ChainSpec) -> Validator {
    let eb = effective_balance_of(balance, spec);
    if eb == spec.max_effective_balance {
        Validator {
            effective_balance: eb,
            activation_eligibility_epoch: spec.genesis_epoch,
            activation_epoch: spec.genesis_epoch,
            ..v
        }
    } else {
        Validator { effective_balance: eb, ..v }
    }
}

/// Sets each validator's effective balance from its balance, and activates at
/// the genesis epoch those whose effective balance reaches the maximum.
pub fn process_activations(state: &mut BeaconState, spec: &ChainSpec)
    requires
        spec.wf(),
        old(state).balances@.len() >= old(state).validator_registry@.len(),
    ensures
        final(state).validator_registry@.len() == old(state).validator_registry@.len(),
        forall|i: int|
            0 <= i < old(state).validator_registry@.len()
                ==> #[trigger] final(state).validator_registry@[i] == activated(
                old(state).validator_registry@[i],
                old(state).balances@[i],
                *spec,
            ),
        final(state).balances@ == old(state).balances@,
        final(state).slot == old(state).slot,
        final(state).genesis_time == old(state).genesis_time,
{
    let n = state.validator_registry.len();
    let mut i: usize = 0;
    while i < n
        invariant
            spec.wf(),
            n == old(state).validator_registry@.len(),
            state.validator_registry@.len() == n,
            state.balances@ == old(state).balances@,
            state.balances@.len() >= n,
            state.slot == old(state).slot,
            state.genesis_time == old(state).genesis_time,
            i <= n,
            forall|j: int|
                0 <= j < i ==> #[trigger] state.validator_registry@[j] == activated(
                    old(state).validator_registry@[j],
                    old(state).balances@[j],
                    *spec,
                ),
            forall|j: int|
                i <= j < n ==> #[trigger] state.validator_registry@[j]
                    == old(state).validator_registry@[j],
        decreases n - i,
    {
        let balance = state.balances[i];
        let inc = spec.effective_balance_increment;
        assert(balance % inc <= balance) by (nonlinear_arith)
            requires
                inc > 0,
        ;
        let rounded = balance - balance % spec.effective_balance_increment;
        let effective_balance = if rounded < spec.max_effective_balance {
            rounded
        } else {
            spec.max_effective_balance
        };
        let mut v = state.validator_registry[i];
        v.effective_balance = effective_balance;
        if effective_balance == spec.max_effective_balance {
            v.activation_eligibility_epoch = spec.genesis_epoch;
            v.activation_epoch = spec.genesis_epoch;
        }
        state.validator_registry.set(i, v);
        i = i + 1;
    }
}

} // verus!
