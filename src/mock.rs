//! Simulated message handling: a registry from selector to handler, and the
//! dispatch of an inbound call through it.

use vstd::prelude::*;

pub mod codec;
pub mod error;
pub mod registry;

verus! {

/// The fixed-size identifier of a contract message.
pub type Selector = [u8; 4];

/// Splits a call's input into its selector, the first four bytes, and the
/// argument payload that follows; an input shorter than a selector has none.
pub fn split_selector(input: &[u8]) -> (r: Option<(Selector, Vec<u8>)>)
    ensures
        input@.len() < 4 <==> r is None,
        r matches Some(p) ==> p.0@ == input@.take(4) && p.1@ == input@.skip(4),
{
    if input.len() < 4 {
        return None;
    }
    let sel: Selector = [input[0], input[1], input[2], input[3]];
    let mut rest: Vec<u8> = Vec::new();
    let mut i: usize = 4;
    while i < input.len()
        invariant
            4 <= i <= input@.len(),
            rest@ == input@.subrange(4, i as int),
        decreases input@.len() - i,
    {
        rest.push(input[i]);
        i = i + 1;
    }
    proof {
        assert(sel@ =~= input@.take(4));
        assert(rest@ =~= input@.skip(4));
    }
    Some((sel, rest))
}

} // verus!
