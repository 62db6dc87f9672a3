//! The ways in which dispatching a mocked message fails.

use vstd::prelude::*;

use crate::mock::Selector;

verus! {

/// Lets `parity_scale_codec::Error`, the decoder's error, stand in the
/// library's types; nothing is read from it.
#[verifier::external_type_specification]
#[verifier::external_body]
pub struct ExCodecError(parity_scale_codec::Error);

/// Why a mocked message could not be handled.
#[derive(Debug)]
pub enum MockingError {
    /// No handler is registered for the selector, which is carried along.
    MessageNotFound(Selector),
    /// The payload did not decode into the handler's arguments.
    ArgumentDecoding(parity_scale_codec::Error),
}

} // verus!
