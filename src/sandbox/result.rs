//! Resource limits, what the execution engine reports of one run, and the
//! typed results of the lifecycle operations.

use vstd::prelude::*;

use crate::debug::{decode_debug_buffer, decoded_lines};
use crate::sandbox::{AccountId, CodeHash};

verus! {

/// Compute weight: execution time and proof size.
#[derive(Clone, Copy, Debug, PartialEq, Eq, Structural)]
pub struct Weight {
    pub ref_time: u64,
    pub proof_size: u64,
}

impl Weight {
    /// Whether both parts of `self` are at most those of `limit`.
    pub open spec fn fits(self, limit: Weight) -> bool {
        self.ref_time <= limit.ref_time && self.proof_size <= limit.proof_size
    }

    /// A weight of the given parts.
    pub fn from_parts(ref_time: u64, proof_size: u64) -> (r: Weight)
        ensures
            r.ref_time == ref_time,
            r.proof_size == proof_size,
    {
        Weight { ref_time, proof_size }
    }

    /// The weight of nothing.
    pub fn zero() -> (r: Weight)
        ensures
            r.ref_time == 0,
            r.proof_size == 0,
    {
        Weight { ref_time: 0, proof_size: 0 }
    }

    /// Whether both parts of `self` are at most those of `limit`.
    pub fn all_lte(&self, limit: &Weight) -> (r: bool)
        ensures
            r == self.fits(*limit),
    {
        self.ref_time <= limit.ref_time && self.proof_size <= limit.proof_size
    }
}

/// How the engine's run of a contract ended.
#[derive(Clone, Copy, Debug, PartialEq, Eq, Structural)]
pub enum ExecStatus {
    /// Returned normally.
    Completed,
    /// Returned with the revert flag set.
    Reverted,
    /// Stopped on a trap.
    Trapped,
}

/// What the execution engine reports of one run of a contract: it ran
/// against the state as the sandbox held it and changed nothing itself.
#[derive(Debug)]
pub struct EngineReport {
    pub status: ExecStatus,
    pub gas_consumed: Weight,
    pub storage_deposit: u128,
    pub return_data: Vec<u8>,
    /// Storage writes, in the order in which the contract made them.
    pub writes: Vec<(Vec<u8>, Vec<u8>)>,
    /// Emitted events, in order.
    pub events: Vec<Vec<u8>>,
    pub debug_message: Vec<u8>,
}

/// What the engine reports of the validation of uploaded code.
#[derive(Clone, Copy, Debug)]
pub struct UploadReport {
    pub code_hash: CodeHash,
    pub valid: bool,
    pub storage_deposit: u128,
}

/// The code that an instantiation runs: new code to upload with it, or code
/// uploaded before.
#[derive(Debug)]
pub enum Code {
    /// The bytes, and what the engine reports of their validation.
    Upload(Vec<u8>, UploadReport),
    /// The hash of code already uploaded.
    Existing(CodeHash),
}

/// What to do when an operation charges more deposit than its limit.
#[derive(Clone, Copy, Debug, PartialEq, Eq, Structural)]
pub enum DepositPolicy {
    /// Fail the operation and roll it back.
    Enforce,
    /// Let the operation stand and flag the excess in its result.
    Report,
}

/// Why a contract operation did not take effect.
#[derive(Clone, Copy, Debug, PartialEq, Eq, Structural)]
pub enum ExecError {
    OutOfGas,
    StorageDepositLimitExhausted,
    ContractReverted,
    ContractTrapped,
    DuplicateContract,
    ContractNotFound,
    CodeNotFound,
    CodeRejected,
}

/// Why an upload did not take effect.
#[derive(Clone, Copy, Debug, PartialEq, Eq, Structural)]
pub enum UploadError {
    CodeRejected,
    StorageExhausted,
}

/// Uploaded code: its hash and the deposit charged for it.
#[derive(Clone, Copy, Debug)]
pub struct UploadedCode {
    pub code_hash: CodeHash,
    pub deposit: u128,
}

/// The result of a call or of a constructor run.
#[derive(Debug)]
pub struct ExecResult {
    pub result: Result<(), ExecError>,
    /// The return data, or the failure payload of a revert.
    pub data: Vec<u8>,
    pub gas_consumed: Weight,
    pub storage_deposit: u128,
    /// The deposit passed the limit, and the policy let it stand.
    pub deposit_over_limit: bool,
    pub events: Vec<Vec<u8>>,
    pub debug_message: Vec<u8>,
}

impl ExecResult {
    /// The debug output of the run, as lines.
    pub fn debug_lines(&self) -> (r: Vec<String>)
        ensures
            r@.len() == decoded_lines(self.debug_message@).len(),
            forall|i: int| 0 <= i < r@.len() ==> #[trigger] r@[i]@ == decoded_lines(self.debug_message@)[i],
    {
        decode_debug_buffer(self.debug_message.as_slice())
    }
}

/// The result of an instantiation.
#[derive(Debug)]
pub struct InstantiateResult {
    pub address: AccountId,
    pub outcome: ExecResult,
}

} // verus!
