//! The sandbox execution core: a runtime state that persists between
//! operations, and the upload, instantiate and call operations that meter,
//! commit or roll back what the execution engine reports.

use vstd::prelude::*;

pub mod engine;
pub mod laws;
pub mod result;
pub mod state;

verus! {

/// A 32-byte account identity, of callers and of contracts alike.
pub type AccountId = [u8; 32];

/// The content hash under which uploaded code is stored.
pub type CodeHash = [u8; 32];

} // verus!
