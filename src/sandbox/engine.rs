//! The sandbox and its three lifecycle operations. Each operation holds the
//! state exclusively for its whole run, meters what the engine reports
//! against the limits, and commits all of the run's writes or none of them.

use vstd::prelude::*;

use crate::sandbox::result::{
    Code, DepositPolicy, EngineReport, ExecError, ExecResult, ExecStatus, InstantiateResult,
    UploadError, UploadReport, UploadedCode, Weight,
};
use crate::sandbox::state::{
    apply_writes, entries_model, has_contract, put, value_of, Entry, RuntimeState, StateModel,
};
use crate::sandbox::{AccountId, CodeHash};

verus! {

/// Whether a deposit passes an optional limit; no limit is never passed.
pub open spec fn deposit_exceeds(deposit: u128, limit: Option<u128>) -> bool {
    limit matches Some(l) && deposit > l
}

/// The writes of a run, as plain byte sequences.
pub open spec fn writes_of(report: EngineReport) -> Seq<Entry> {
    entries_model(report.writes@)
}

/// Why a run that the engine reported, charging `deposit` in all, does not
/// take effect, if it does not: too much gas, too much deposit under an
/// enforcing policy, a revert or a trap, in that order.
pub open spec fn run_failure(
    report: EngineReport,
    deposit: u128,
    gas_limit: Weight,
    deposit_limit: Option<u128>,
    policy: DepositPolicy,
) -> Option<ExecError> {
    if !report.gas_consumed.fits(gas_limit) {
        Some(ExecError::OutOfGas)
    } else if policy == DepositPolicy::Enforce && deposit_exceeds(deposit, deposit_limit) {
        Some(ExecError::StorageDepositLimitExhausted)
    } else {
        match report.status {
            ExecStatus::Completed => None,
            ExecStatus::Reverted => Some(ExecError::ContractReverted),
            ExecStatus::Trapped => Some(ExecError::ContractTrapped),
        }
    }
}

/// The state with all of a run's writes applied.
pub open spec fn commit(m: StateModel, writes: Seq<Entry>) -> StateModel {
    StateModel { storage: apply_writes(m.storage, writes), codes: m.codes, contracts: m.contracts }
}

/// Why a call fails, if it does.
pub open spec fn call_failure(
    m: StateModel,
    address: AccountId,
    gas_limit: Weight,
    deposit_limit: Option<u128>,
    policy: DepositPolicy,
    report: EngineReport,
) -> Option<ExecError> {
    if !has_contract(m, address) {
        Some(ExecError::ContractNotFound)
    } else {
        run_failure(report, report.storage_deposit, gas_limit, deposit_limit, policy)
    }
}

/// The state after a call.
pub open spec fn call_step(
    m: StateModel,
    address: AccountId,
    gas_limit: Weight,
    deposit_limit: Option<u128>,
    policy: DepositPolicy,
    report: EngineReport,
) -> StateModel {
    if call_failure(m, address, gas_limit, deposit_limit, policy, report) is Some {
        m
    } else {
        commit(m, writes_of(report))
    }
}

/// The hash of the code that an instantiation runs.
pub open spec fn code_hash_of(code: Code) -> CodeHash {
    match code {
        Code::Upload(_, up) => up.code_hash,
        Code::Existing(h) => h,
    }
}

/// All that an instantiation charges: the code's deposit where it is
/// uploaded with it, and the run's; a sum past the largest `u128` is held
/// there.
pub open spec fn deploy_deposit(code: Code, report: EngineReport) -> u128 {
    match code {
        Code::Upload(_, up) => if up.storage_deposit + report.storage_deposit > u128::MAX {
            u128::MAX
        } else {
            (up.storage_deposit + report.storage_deposit) as u128
        },
        Code::Existing(_) => report.storage_deposit,
    }
}

/// Why an instantiation fails before any run, if it does: the address is
/// taken, the code is not there, or the uploaded code is rejected.
pub open spec fn deploy_refusal(m: StateModel, address: AccountId, code: Code) -> Option<ExecError> {
    if has_contract(m, address) {
        Some(ExecError::DuplicateContract)
    } else {
        match code {
            Code::Upload(_, up) => if !up.valid { Some(ExecError::CodeRejected) } else { None },
            Code::Existing(h) => if value_of(m.codes, h@) is None { Some(ExecError::CodeNotFound) } else { None },
        }
    }
}

/// Why an instantiation fails, if it does.
pub open spec fn deploy_failure(
    m: StateModel,
    address: AccountId,
    code: Code,
    gas_limit: Weight,
    deposit_limit: Option<u128>,
    policy: DepositPolicy,
    report: EngineReport,
) -> Option<ExecError> {
    if deploy_refusal(m, address, code) is Some {
        deploy_refusal(m, address, code)
    } else {
        run_failure(report, deploy_deposit(code, report), gas_limit, deposit_limit, policy)
    }
}

/// The state after an instantiation: where it takes effect, the uploaded
/// code (if any), the run's writes and the new contract with its code hash;
/// otherwise the state as it was.
pub open spec fn deploy_step(
    m: StateModel,
    address: AccountId,
    code: Code,
    gas_limit: Weight,
    deposit_limit: Option<u128>,
    policy: DepositPolicy,
    report: EngineReport,
) -> StateModel {
    if deploy_failure(m, address, code, gas_limit, deposit_limit, policy, report) is Some {
        m
    } else {
        let codes = match code {
            Code::Upload(bytes, up) => put(m.codes, up.code_hash@, bytes@),
            Code::Existing(_) => m.codes,
        };
        StateModel {
            storage: apply_writes(m.storage, writes_of(report)),
            codes,
            contracts: m.contracts.push((address, code_hash_of(code))),
        }
    }
}

/// Why an upload fails, if it does.
pub open spec fn upload_failure(
    deposit_limit: Option<u128>,
    policy: DepositPolicy,
    report: UploadReport,
) -> Option<UploadError> {
    if !report.valid {
        Some(UploadError::CodeRejected)
    } else if policy == DepositPolicy::Enforce && deposit_exceeds(report.storage_deposit, deposit_limit) {
        Some(UploadError::StorageExhausted)
    } else {
        None
    }
}

/// The state after an upload: the code stored under its hash.
pub open spec fn upload_step(
    m: StateModel,
    code: Seq<u8>,
    deposit_limit: Option<u128>,
    policy: DepositPolicy,
    report: UploadReport,
) -> StateModel {
    if upload_failure(deposit_limit, policy, report) is Some {
        m
    } else {
        StateModel { storage: m.storage, codes: put(m.codes, report.code_hash@, code), contracts: m.contracts }
    }
}

/// What an operation returns for a run that the engine reported, charging
/// `deposit` in all: the run's data and debug output always; its gas, capped
/// at the limit; the deposit and the events only where it takes effect.
pub open spec fn run_result_matches(
    r: ExecResult,
    failure: Option<ExecError>,
    deposit: u128,
    gas_limit: Weight,
    deposit_limit: Option<u128>,
    report: EngineReport,
) -> bool {
    &&& r.result == match failure {
        Some(e) => Err::<(), ExecError>(e),
        None => Ok(()),
    }
    &&& r.data == report.return_data
    &&& r.debug_message == report.debug_message
    &&& r.gas_consumed == if report.gas_consumed.fits(gas_limit) { report.gas_consumed } else { gas_limit }
    &&& failure is Some ==> r.storage_deposit == 0 && r.events@.len() == 0 && !r.deposit_over_limit
    &&& failure is None ==> r.storage_deposit == deposit && r.events == report.events
        && r.deposit_over_limit == deposit_exceeds(deposit, deposit_limit)
}

/// What an operation returns where the engine never ran.
pub open spec fn refused_result(r: ExecResult, e: ExecError) -> bool {
    &&& r.result == Err::<(), ExecError>(e)
    &&& r.data@.len() == 0
    &&& r.debug_message@.len() == 0
    &&& r.gas_consumed == Weight { ref_time: 0, proof_size: 0 }
    &&& r.storage_deposit == 0
    &&& !r.deposit_over_limit
    &&& r.events@.len() == 0
}

fn exceeds(deposit: u128, limit: Option<u128>) -> (r: bool)
    ensures
        r == deposit_exceeds(deposit, limit),
{
    match limit {
        Some(l) => deposit > l,
        None => false,
    }
}

fn refused(e: ExecError) -> (r: ExecResult)
    ensures
        refused_result(r, e),
{
    ExecResult {
        result: Err(e),
        data: Vec::new(),
        gas_consumed: Weight::zero(),
        storage_deposit: 0,
        deposit_over_limit: false,
        events: Vec::new(),
        debug_message: Vec::new(),
    }
}

/// A contract-execution sandbox that owns its runtime state.
pub struct Sandbox {
    state: RuntimeState,
    policy: DepositPolicy,
}

impl Sandbox {
    /// What the sandbox's runtime state holds.
    pub closed spec fn model(&self) -> StateModel {
        self.state.model()
    }

    pub closed spec fn policy(&self) -> DepositPolicy {
        self.policy
    }

    /// A sandbox with a clean state.
    pub fn new(policy: DepositPolicy) -> (r: Self)
        ensures
            r.model().storage == Seq::<Entry>::empty(),
            r.model().codes == Seq::<Entry>::empty(),
            r.model().contracts == Seq::<(AccountId, CodeHash)>::empty(),
            r.policy() == policy,
    {
        Sandbox { state: RuntimeState::new(), policy }
    }

    /// Brings the state back to a clean one, as between independent tests.
    pub fn reset(&mut self)
        ensures
            final(self).model().storage == Seq::<Entry>::empty(),
            final(self).model().codes == Seq::<Entry>::empty(),
            final(self).model().contracts == Seq::<(AccountId, CodeHash)>::empty(),
            final(self).policy() == old(self).policy(),
    {
        self.state = RuntimeState::new();
    }

    /// The runtime state.
    pub fn state(&self) -> (r: &RuntimeState)
        ensures
            r.model() == self.model(),
    {
        &self.state
    }

    /// The policy on deposits past their limit.
    pub fn deposit_policy(&self) -> (r: DepositPolicy)
        ensures
            r == self.policy(),
    {
        self.policy
    }

    /// Meters a run, which charges `deposit` in all, against the limits and
    /// commits its writes where it takes effect.
    fn settle(
        &mut self,
        deposit: u128,
        gas_limit: Weight,
        deposit_limit: Option<u128>,
        report: EngineReport,
    ) -> (r: ExecResult)
        ensures
            run_result_matches(r, run_failure(report, deposit, gas_limit, deposit_limit, old(self).policy()), deposit, gas_limit, deposit_limit, report),
            run_failure(report, deposit, gas_limit, deposit_limit, old(self).policy()) is Some ==> final(self).model() == old(self).model(),
            run_failure(report, deposit, gas_limit, deposit_limit, old(self).policy()) is None ==> final(self).model() == commit(old(self).model(), writes_of(report)),
            final(self).policy() == old(self).policy(),
    {
        let fits = report.gas_consumed.all_lte(&gas_limit);
        let gas_consumed = if fits { report.gas_consumed } else { gas_limit };
        let over = exceeds(deposit, deposit_limit);
        let failure = if !fits {
            Some(ExecError::OutOfGas)
        } else if self.policy == DepositPolicy::Enforce && over {
            Some(ExecError::StorageDepositLimitExhausted)
        } else {
            match report.status {
                ExecStatus::Completed => None,
                ExecStatus::Reverted => Some(ExecError::ContractReverted),
                ExecStatus::Trapped => Some(ExecError::ContractTrapped),
            }
        };
        match failure {
            Some(e) => ExecResult {
                result: Err(e),
                data: report.return_data,
                gas_consumed,
                storage_deposit: 0,
                deposit_over_limit: false,
                events: Vec::new(),
                debug_message: report.debug_message,
            },
            None => {
                self.state.commit(&report.writes);
                ExecResult {
                    result: Ok(()),
                    data: report.return_data,
                    gas_consumed,
                    storage_deposit: deposit,
                    deposit_over_limit: over,
                    events: report.events,
                    debug_message: report.debug_message,
                }
            },
        }
    }

    /// Stores validated code under its content hash.
    pub fn upload_contract(
        &mut self,
        contract_bytes: Vec<u8>,
        storage_deposit_limit: Option<u128>,
        report: UploadReport,
    ) -> (r: Result<UploadedCode, UploadError>)
        ensures
            final(self).model() == upload_step(old(self).model(), contract_bytes@, storage_deposit_limit, old(self).policy(), report),
            final(self).policy() == old(self).policy(),
            upload_failure(storage_deposit_limit, old(self).policy(), report) matches Some(e) ==> r == Err::<UploadedCode, UploadError>(e),
            upload_failure(storage_deposit_limit, old(self).policy(), report) is None ==> (r matches Ok(u)
                && u.code_hash == report.code_hash && u.deposit == report.storage_deposit),
    {
        if !report.valid {
            return Err(UploadError::CodeRejected);
        }
        if self.policy == DepositPolicy::Enforce && exceeds(report.storage_deposit, storage_deposit_limit) {
            return Err(UploadError::StorageExhausted);
        }
        self.state.put_code(report.code_hash, contract_bytes);
        Ok(UploadedCode { code_hash: report.code_hash, deposit: report.storage_deposit })
    }

    /// Instantiates a contract at `address`, the address that the runtime
    /// derived from the origin, the code hash and the salt. The constructor's
    /// run is the one that the engine reports. Code to upload with it is
    /// stored only where the instantiation takes effect, and its deposit is
    /// metered together with the run's. An address that is taken, code that
    /// is not there or uploaded code that is rejected fails before any run;
    /// any failure leaves the state as it was.
    pub fn deploy_contract(
        &mut self,
        address: AccountId,
        code: Code,
        gas_limit: Weight,
        storage_deposit_limit: Option<u128>,
        report: EngineReport,
    ) -> (r: InstantiateResult)
        ensures
            r.address == address,
            final(self).model() == deploy_step(old(self).model(), address, code, gas_limit, storage_deposit_limit, old(self).policy(), report),
            final(self).policy() == old(self).policy(),
            deploy_failure(old(self).model(), address, code, gas_limit, storage_deposit_limit, old(self).policy(), report) is Some
                ==> final(self).model() == old(self).model(),
            deploy_refusal(old(self).model(), address, code) matches Some(e) ==> refused_result(r.outcome, e),
            deploy_refusal(old(self).model(), address, code) is None
                ==> run_result_matches(r.outcome, deploy_failure(old(self).model(), address, code, gas_limit, storage_deposit_limit, old(self).policy(), report), deploy_deposit(code, report), gas_limit, storage_deposit_limit, report),
    {
        if self.state.contains_contract(&address) {
            return InstantiateResult { address, outcome: refused(ExecError::DuplicateContract) };
        }
        let deposit = match &code {
            Code::Upload(_, up) => {
                if !up.valid {
                    return InstantiateResult { address, outcome: refused(ExecError::CodeRejected) };
                }
                up.storage_deposit.saturating_add(report.storage_deposit)
            },
            Code::Existing(h) => {
                if self.state.get_code(h).is_none() {
                    return InstantiateResult { address, outcome: refused(ExecError::CodeNotFound) };
                }
                report.storage_deposit
            },
        };
        let outcome = self.settle(deposit, gas_limit, storage_deposit_limit, report);
        if outcome.result.is_ok() {
            match code {
                Code::Upload(bytes, up) => {
                    self.state.put_code(up.code_hash, bytes);
                    self.state.add_contract(address, up.code_hash);
                },
                Code::Existing(h) => {
                    self.state.add_contract(address, h);
                },
            }
        }
        InstantiateResult { address, outcome }
    }

    /// Calls the contract at `address`, with the run that the engine
    /// reports. An address without a contract fails before any run; a failed
    /// run leaves the state as it was.
    pub fn call_contract(
        &mut self,
        address: AccountId,
        gas_limit: Weight,
        storage_deposit_limit: Option<u128>,
        report: EngineReport,
    ) -> (r: ExecResult)
        ensures
            final(self).model() == call_step(old(self).model(), address, gas_limit, storage_deposit_limit, old(self).policy(), report),
            final(self).policy() == old(self).policy(),
            !has_contract(old(self).model(), address) ==> refused_result(r, ExecError::ContractNotFound),
            has_contract(old(self).model(), address) ==> run_result_matches(r, call_failure(old(self).model(), address, gas_limit, storage_deposit_limit, old(self).policy(), report), report.storage_deposit, gas_limit, storage_deposit_limit, report),
    {
        if !self.state.contains_contract(&address) {
            return refused(ExecError::ContractNotFound);
        }
        self.settle(report.storage_deposit, gas_limit, storage_deposit_limit, report)
    }
}

} // verus!
