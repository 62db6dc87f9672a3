//! What holds of every sequence of lifecycle operations.

use vstd::prelude::*;

use crate::sandbox::engine::{
    call_failure, call_step, code_hash_of, commit, deploy_failure, deploy_step, writes_of,
};
use crate::sandbox::result::{Code, DepositPolicy, EngineReport, ExecError, ExecStatus, Weight};
use crate::sandbox::state::{apply_writes, has_contract, Entry, StateModel};
use crate::sandbox::AccountId;

verus! {

/// A call or an instantiation whose run reverts or traps leaves the runtime
/// state exactly as it was before the operation: no storage write, no
/// contract, and no code uploaded with the instantiation.
pub proof fn lemma_failed_run_rolls_back(
    m: StateModel,
    address: AccountId,
    code: Code,
    gas_limit: Weight,
    deposit_limit: Option<u128>,
    policy: DepositPolicy,
    report: EngineReport,
)
    requires
        report.status == ExecStatus::Reverted || report.status == ExecStatus::Trapped,
    ensures
        call_step(m, address, gas_limit, deposit_limit, policy, report) == m,
        deploy_step(m, address, code, gas_limit, deposit_limit, policy, report) == m,
{
}

/// An operation takes effect whole or not at all: the state after it is the
/// state before, or the state before with every write of the run applied.
pub proof fn lemma_operation_is_atomic(
    m: StateModel,
    address: AccountId,
    gas_limit: Weight,
    deposit_limit: Option<u128>,
    policy: DepositPolicy,
    report: EngineReport,
)
    ensures
        call_step(m, address, gas_limit, deposit_limit, policy, report) == m
            || call_step(m, address, gas_limit, deposit_limit, policy, report) == commit(m, writes_of(report)),
{
}

/// Applying two runs of writes one after the other is applying the first
/// run's writes and then the second's, with nothing in between.
pub proof fn lemma_writes_compose(s: Seq<Entry>, w1: Seq<Entry>, w2: Seq<Entry>)
    ensures
        apply_writes(apply_writes(s, w1), w2) == apply_writes(s, w1 + w2),
    decreases w2.len(),
{
    if w2.len() == 0 {
        assert(w1 + w2 == w1);
    } else {
        lemma_writes_compose(s, w1, w2.drop_last());
        assert((w1 + w2).drop_last() == w1 + w2.drop_last());
        assert((w1 + w2).last() == w2.last());
    }
}

/// Two calls in sequence on one sandbox: the second starts from the state
/// that the first left whole, and where both take effect the state holds
/// every write of the first followed by every write of the second.
pub proof fn lemma_sequential_calls(
    m: StateModel,
    a1: AccountId,
    g1: Weight,
    d1: Option<u128>,
    r1: EngineReport,
    a2: AccountId,
    g2: Weight,
    d2: Option<u128>,
    r2: EngineReport,
    policy: DepositPolicy,
)
    ensures
        ({
            let mid = call_step(m, a1, g1, d1, policy, r1);
            let end = call_step(mid, a2, g2, d2, policy, r2);
            &&& mid == m || mid == commit(m, writes_of(r1))
            &&& end == mid || end == commit(mid, writes_of(r2))
            &&& call_failure(m, a1, g1, d1, policy, r1) is None
                && call_failure(mid, a2, g2, d2, policy, r2) is None
                ==> end == commit(m, writes_of(r1) + writes_of(r2))
        }),
{
    lemma_writes_compose(m.storage, writes_of(r1), writes_of(r2));
}

/// Instantiating at an address a second time, after an instantiation there
/// took effect and recorded the contract with its code hash, fails as a
/// duplicate and leaves the state as it was, whatever code it brings.
pub proof fn lemma_duplicate_instantiation(
    m: StateModel,
    address: AccountId,
    code: Code,
    gas_limit: Weight,
    deposit_limit: Option<u128>,
    policy: DepositPolicy,
    first: EngineReport,
    again: Code,
    second: EngineReport,
)
    requires
        deploy_failure(m, address, code, gas_limit, deposit_limit, policy, first) is None,
    ensures
        ({
            let m1 = deploy_step(m, address, code, gas_limit, deposit_limit, policy, first);
            &&& m1.contracts.last() == (address, code_hash_of(code))
            &&& has_contract(m1, address)
            &&& deploy_failure(m1, address, again, gas_limit, deposit_limit, policy, second)
                == Some(ExecError::DuplicateContract)
            &&& deploy_step(m1, address, again, gas_limit, deposit_limit, policy, second) == m1
        }),
{
    let m1 = deploy_step(m, address, code, gas_limit, deposit_limit, policy, first);
    assert(m1.contracts[m1.contracts.len() - 1].0 == address);
}

} // verus!
