//! A contract-execution sandbox: a transactional runtime state with metered
//! lifecycle operations, a decoder for the debug buffer that execution fills,
//! and a mock layer that dispatches messages by selector.

pub mod bundle;
pub mod debug;
pub mod mock;
pub mod sandbox;

pub use debug::decode_debug_buffer;
pub use mock::error::MockingError;
pub use mock::Selector;
