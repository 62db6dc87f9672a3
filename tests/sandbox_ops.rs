use drink::sandbox::engine::Sandbox;
use drink::sandbox::result::{
    Code, DepositPolicy, EngineReport, ExecError, ExecStatus, UploadError, UploadReport, Weight,
};

const CODE_HASH: [u8; 32] = [0xC0; 32];
const ALICE_CONTRACT: [u8; 32] = [0xA1; 32];

fn report(status: ExecStatus, gas: u64, deposit: u128, writes: Vec<(Vec<u8>, Vec<u8>)>) -> EngineReport {
    EngineReport {
        status,
        gas_consumed: Weight::from_parts(gas, gas),
        storage_deposit: deposit,
        return_data: vec![0xD0],
        writes,
        events: vec![vec![0xE1], vec![0xE2]],
        debug_message: b"hi\n".to_vec(),
    }
}

fn limit() -> Weight {
    Weight::from_parts(1000, 1000)
}

fn with_contract(policy: DepositPolicy) -> Sandbox {
    let mut s = Sandbox::new(policy);
    s.upload_contract(vec![0, 0x61, 0x73, 0x6d], None, UploadReport { code_hash: CODE_HASH, valid: true, storage_deposit: 5 })
        .unwrap();
    let r = s.deploy_contract(ALICE_CONTRACT, Code::Existing(CODE_HASH), limit(), None, report(ExecStatus::Completed, 10, 3, vec![(b"k".to_vec(), b"v0".to_vec())]));
    assert_eq!(r.outcome.result, Ok(()));
    s
}

#[test]
fn upload_stores_code_under_its_hash() {
    let mut s = Sandbox::new(DepositPolicy::Enforce);
    let up = s
        .upload_contract(vec![1, 2, 3], Some(10), UploadReport { code_hash: CODE_HASH, valid: true, storage_deposit: 4 })
        .unwrap();
    assert_eq!(up.code_hash, CODE_HASH);
    assert_eq!(up.deposit, 4);
    assert_eq!(s.state().get_code(&CODE_HASH), Some(&vec![1, 2, 3]));
    assert_eq!(s.state().get(&CODE_HASH), None);
}

#[test]
fn upload_errors() {
    let mut s = Sandbox::new(DepositPolicy::Enforce);
    let rejected = s.upload_contract(vec![1], None, UploadReport { code_hash: CODE_HASH, valid: false, storage_deposit: 0 });
    assert_eq!(rejected.unwrap_err(), UploadError::CodeRejected);
    let exhausted = s.upload_contract(vec![1], Some(3), UploadReport { code_hash: CODE_HASH, valid: true, storage_deposit: 4 });
    assert_eq!(exhausted.unwrap_err(), UploadError::StorageExhausted);
    assert_eq!(s.state().get_code(&CODE_HASH), None);
}

#[test]
fn second_instantiation_at_same_address_is_duplicate() {
    let mut s = with_contract(DepositPolicy::Enforce);
    let before = s.state().get(b"k").cloned();
    let r = s.deploy_contract(ALICE_CONTRACT, Code::Existing(CODE_HASH), limit(), None, report(ExecStatus::Completed, 10, 3, vec![(b"k".to_vec(), b"v9".to_vec())]));
    assert_eq!(r.address, ALICE_CONTRACT);
    assert_eq!(r.outcome.result, Err(ExecError::DuplicateContract));
    assert_eq!(s.state().get(b"k").cloned(), before);
}

#[test]
fn instantiation_without_code_fails() {
    let mut s = Sandbox::new(DepositPolicy::Enforce);
    let r = s.deploy_contract(ALICE_CONTRACT, Code::Existing(CODE_HASH), limit(), None, report(ExecStatus::Completed, 1, 0, vec![]));
    assert_eq!(r.outcome.result, Err(ExecError::CodeNotFound));
    assert!(r.outcome.events.is_empty());
}

#[test]
fn successful_call_commits_writes_and_events() {
    let mut s = with_contract(DepositPolicy::Enforce);
    let r = s.call_contract(ALICE_CONTRACT, limit(), Some(100), report(ExecStatus::Completed, 20, 7, vec![(b"k".to_vec(), b"v1".to_vec()), (b"j".to_vec(), b"w".to_vec())]));
    assert_eq!(r.result, Ok(()));
    assert_eq!(r.data, vec![0xD0]);
    assert_eq!(r.gas_consumed, Weight::from_parts(20, 20));
    assert_eq!(r.storage_deposit, 7);
    assert_eq!(r.events, vec![vec![0xE1], vec![0xE2]]);
    assert_eq!(r.debug_message, b"hi\n".to_vec());
    assert_eq!(s.state().get(b"k"), Some(&b"v1".to_vec()));
    assert_eq!(s.state().get(b"j"), Some(&b"w".to_vec()));
}

#[test]
fn reverted_and_trapped_calls_roll_back() {
    let mut s = with_contract(DepositPolicy::Enforce);
    for (status, err) in [(ExecStatus::Reverted, ExecError::ContractReverted), (ExecStatus::Trapped, ExecError::ContractTrapped)] {
        let r = s.call_contract(ALICE_CONTRACT, limit(), None, report(status, 20, 7, vec![(b"k".to_vec(), b"bad".to_vec())]));
        assert_eq!(r.result, Err(err));
        assert_eq!(r.data, vec![0xD0]);
        assert!(r.events.is_empty());
        assert_eq!(r.storage_deposit, 0);
        assert_eq!(s.state().get(b"k"), Some(&b"v0".to_vec()));
    }
}

#[test]
fn out_of_gas_caps_consumed_weight() {
    let mut s = with_contract(DepositPolicy::Enforce);
    let r = s.call_contract(ALICE_CONTRACT, limit(), None, report(ExecStatus::Completed, 1001, 0, vec![(b"k".to_vec(), b"x".to_vec())]));
    assert_eq!(r.result, Err(ExecError::OutOfGas));
    assert_eq!(r.gas_consumed, limit());
    assert_eq!(s.state().get(b"k"), Some(&b"v0".to_vec()));
}

#[test]
fn deposit_policy_decides_excess() {
    let mut enforce = with_contract(DepositPolicy::Enforce);
    let r = enforce.call_contract(ALICE_CONTRACT, limit(), Some(5), report(ExecStatus::Completed, 1, 6, vec![(b"k".to_vec(), b"x".to_vec())]));
    assert_eq!(r.result, Err(ExecError::StorageDepositLimitExhausted));
    assert_eq!(enforce.state().get(b"k"), Some(&b"v0".to_vec()));

    let mut report_only = with_contract(DepositPolicy::Report);
    let r = report_only.call_contract(ALICE_CONTRACT, limit(), Some(5), report(ExecStatus::Completed, 1, 6, vec![(b"k".to_vec(), b"x".to_vec())]));
    assert_eq!(r.result, Ok(()));
    assert!(r.deposit_over_limit);
    assert_eq!(report_only.state().get(b"k"), Some(&b"x".to_vec()));

    let r = report_only.call_contract(ALICE_CONTRACT, limit(), None, report(ExecStatus::Completed, 1, 1_000_000, vec![]));
    assert_eq!(r.result, Ok(()));
    assert!(!r.deposit_over_limit);
}

#[test]
fn call_to_unknown_address_fails() {
    let mut s = with_contract(DepositPolicy::Enforce);
    let r = s.call_contract([0xB0; 32], limit(), None, report(ExecStatus::Completed, 1, 0, vec![(b"k".to_vec(), b"x".to_vec())]));
    assert_eq!(r.result, Err(ExecError::ContractNotFound));
    assert_eq!(r.gas_consumed, Weight::zero());
    assert_eq!(s.state().get(b"k"), Some(&b"v0".to_vec()));
}

#[test]
fn sequential_calls_see_whole_previous_state() {
    let mut s = with_contract(DepositPolicy::Enforce);
    s.call_contract(ALICE_CONTRACT, limit(), None, report(ExecStatus::Completed, 1, 0, vec![(b"a".to_vec(), b"1".to_vec()), (b"b".to_vec(), b"1".to_vec())]));
    s.call_contract(ALICE_CONTRACT, limit(), None, report(ExecStatus::Trapped, 1, 0, vec![(b"a".to_vec(), b"2".to_vec())]));
    s.call_contract(ALICE_CONTRACT, limit(), None, report(ExecStatus::Completed, 1, 0, vec![(b"b".to_vec(), b"3".to_vec())]));
    assert_eq!(s.state().get(b"a"), Some(&b"1".to_vec()));
    assert_eq!(s.state().get(b"b"), Some(&b"3".to_vec()));
}

#[test]
fn reset_clears_state() {
    let mut s = with_contract(DepositPolicy::Report);
    s.reset();
    assert_eq!(s.state().get(b"k"), None);
    assert_eq!(s.deposit_policy(), DepositPolicy::Report);
    let r = s.call_contract(ALICE_CONTRACT, limit(), None, report(ExecStatus::Completed, 1, 0, vec![]));
    assert_eq!(r.result, Err(ExecError::ContractNotFound));
}

#[test]
fn debug_output_is_kept_on_failure_and_decoded() {
    let mut s = with_contract(DepositPolicy::Enforce);
    let r = s.call_contract(ALICE_CONTRACT, limit(), None, report(ExecStatus::Trapped, 1, 0, vec![]));
    assert_eq!(r.debug_message, b"hi\n".to_vec());
    assert_eq!(r.debug_lines(), vec!["hi".to_string(), String::new()]);
}

#[test]
fn store_reads_last_write_per_key() {
    let mut s = with_contract(DepositPolicy::Enforce);
    s.call_contract(ALICE_CONTRACT, limit(), None, report(ExecStatus::Completed, 1, 0, vec![(b"x".to_vec(), b"1".to_vec()), (b"x".to_vec(), b"2".to_vec())]));
    assert_eq!(s.state().get(b"x"), Some(&b"2".to_vec()));
    assert_eq!(s.state().get(b"k"), Some(&b"v0".to_vec()));
    assert_eq!(s.state().get(b"xx"), None);
}

fn upload(valid: bool, deposit: u128) -> Code {
    Code::Upload(vec![0, 0x61, 0x73, 0x6d, 1], UploadReport { code_hash: [0xC7; 32], valid, storage_deposit: deposit })
}

#[test]
fn deploy_with_upload_stores_code_and_records_its_hash() {
    let mut s = Sandbox::new(DepositPolicy::Enforce);
    let r = s.deploy_contract(ALICE_CONTRACT, upload(true, 4), limit(), Some(10), report(ExecStatus::Completed, 5, 3, vec![(b"k".to_vec(), b"v".to_vec())]));
    assert_eq!(r.outcome.result, Ok(()));
    assert_eq!(r.outcome.storage_deposit, 7);
    assert_eq!(s.state().get_code(&[0xC7; 32]), Some(&vec![0, 0x61, 0x73, 0x6d, 1]));
    assert_eq!(s.state().contract_code_hash(&ALICE_CONTRACT), Some([0xC7; 32]));
    assert_eq!(s.state().contract_code_hash(&[0xB0; 32]), None);
    let call = s.call_contract(ALICE_CONTRACT, limit(), None, report(ExecStatus::Completed, 1, 0, vec![]));
    assert_eq!(call.result, Ok(()));
}

#[test]
fn failed_deploy_with_upload_leaves_no_code() {
    let mut s = Sandbox::new(DepositPolicy::Enforce);
    let r = s.deploy_contract(ALICE_CONTRACT, upload(true, 4), limit(), None, report(ExecStatus::Trapped, 5, 3, vec![(b"k".to_vec(), b"v".to_vec())]));
    assert_eq!(r.outcome.result, Err(ExecError::ContractTrapped));
    assert_eq!(s.state().get_code(&[0xC7; 32]), None);
    assert_eq!(s.state().get(b"k"), None);
    assert!(!s.state().contains_contract(&ALICE_CONTRACT));
}

#[test]
fn deploy_with_upload_meters_both_deposits() {
    let mut s = Sandbox::new(DepositPolicy::Enforce);
    let r = s.deploy_contract(ALICE_CONTRACT, upload(true, 4), limit(), Some(6), report(ExecStatus::Completed, 5, 3, vec![]));
    assert_eq!(r.outcome.result, Err(ExecError::StorageDepositLimitExhausted));
    assert_eq!(s.state().get_code(&[0xC7; 32]), None);
    let big = s.deploy_contract(ALICE_CONTRACT, upload(true, u128::MAX), limit(), None, report(ExecStatus::Completed, 5, 3, vec![]));
    assert_eq!(big.outcome.storage_deposit, u128::MAX);
}

#[test]
fn deploy_with_rejected_code_fails_before_running() {
    let mut s = Sandbox::new(DepositPolicy::Enforce);
    let r = s.deploy_contract(ALICE_CONTRACT, upload(false, 0), limit(), None, report(ExecStatus::Completed, 5, 0, vec![]));
    assert_eq!(r.outcome.result, Err(ExecError::CodeRejected));
    assert_eq!(r.outcome.gas_consumed, Weight::zero());
    assert_eq!(s.state().get_code(&[0xC7; 32]), None);
}

#[test]
fn contract_storage_does_not_touch_code() {
    let mut s = with_contract(DepositPolicy::Enforce);
    s.call_contract(ALICE_CONTRACT, limit(), None, report(ExecStatus::Completed, 1, 0, vec![(CODE_HASH.to_vec(), b"data".to_vec())]));
    assert_eq!(s.state().get(&CODE_HASH), Some(&b"data".to_vec()));
    assert_eq!(s.state().get_code(&CODE_HASH), Some(&vec![0, 0x61, 0x73, 0x6d]));
    let r = s.deploy_contract([0xB0; 32], Code::Existing(CODE_HASH), limit(), None, report(ExecStatus::Completed, 1, 0, vec![]));
    assert_eq!(r.outcome.result, Ok(()));
    assert_eq!(s.state().contract_code_hash(&[0xB0; 32]), Some(CODE_HASH));
}
