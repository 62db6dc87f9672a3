//! The registry of mocked message handlers and the dispatch through it.

use vstd::prelude::*;

use crate::mock::codec::{arg_of, decode_argument, ArgShape, ArgValue};
use crate::mock::error::MockingError;
use crate::mock::Selector;
use crate::sandbox::state::copy_bytes;

verus! {

/// What a mocked message does once its argument has decoded.
#[derive(Debug)]
pub enum MessageHandler {
    /// Answers with the given bytes.
    Constant(ArgShape, Vec<u8>),
    /// Answers with the payload it was given.
    Echo(ArgShape),
}

impl MessageHandler {
    /// The argument shape that this handler decodes.
    pub open spec fn shape(self) -> ArgShape {
        match self {
            MessageHandler::Constant(s, _) => s,
            MessageHandler::Echo(s) => s,
        }
    }

    /// The answer of this handler to a payload that decoded.
    pub open spec fn response(self, payload: Seq<u8>) -> Seq<u8> {
        match self {
            MessageHandler::Constant(_, out) => out@,
            MessageHandler::Echo(_) => payload,
        }
    }

    /// The argument shape that this handler decodes.
    pub fn arg_shape(&self) -> (r: ArgShape)
        ensures
            r == self.shape(),
    {
        match self {
            MessageHandler::Constant(s, _) => *s,
            MessageHandler::Echo(s) => *s,
        }
    }
}

/// The outcome of a message that a handler took.
#[derive(Debug)]
pub struct Reply {
    /// The argument decoded from the payload.
    pub args: ArgValue,
    /// The handler's answer.
    pub output: Vec<u8>,
}

/// Why a handler could not be registered.
#[derive(Clone, Copy, Debug, PartialEq, Eq)]
pub enum RegistrationError {
    /// A handler is already registered for the selector.
    DuplicateSelector(Selector),
}

/// A fixed mapping from selector to handler, each selector at most once.
pub struct MockRegistry {
    entries: Vec<(Selector, MessageHandler)>,
}

/// The index of the entry for `sel`, if any.
pub open spec fn index_of(entries: Seq<(Selector, MessageHandler)>, sel: Selector) -> Option<int>
    decreases entries.len(),
{
    if entries.len() == 0 {
        None
    } else if entries.last().0 == sel {
        Some(entries.len() - 1)
    } else {
        index_of(entries.drop_last(), sel)
    }
}

/// Whether no selector occurs twice.
pub open spec fn selectors_unique(entries: Seq<(Selector, MessageHandler)>) -> bool {
    forall|i: int, j: int|
        0 <= i < j < entries.len() ==> #[trigger] entries[i].0 != #[trigger] entries[j].0
}

proof fn lemma_index_of(entries: Seq<(Selector, MessageHandler)>, sel: Selector)
    ensures
        index_of(entries, sel) matches Some(i) ==> 0 <= i < entries.len() && entries[i].0 == sel,
        index_of(entries, sel) is None <==> forall|k: int| 0 <= k < entries.len() ==> #[trigger] entries[k].0 != sel,
    decreases entries.len(),
{
    if entries.len() > 0 {
        lemma_index_of(entries.drop_last(), sel);
        if entries.last().0 != sel {
            assert forall|k: int| 0 <= k < entries.len() && #[trigger] entries[k].0 == sel implies k < entries.len() - 1
            by {}
            assert forall|k: int| 0 <= k < entries.len() - 1 implies #[trigger] entries[k] == entries.drop_last()[k]
            by {}
        }
    }
}

/// Whether two selectors hold the same bytes.
fn same_selector(a: &Selector, b: &Selector) -> (r: bool)
    ensures
        r == (*a == *b),
{
    let r = a[0] == b[0] && a[1] == b[1] && a[2] == b[2] && a[3] == b[3];
    proof {
        if r {
            assert(*a =~= *b);
        }
    }
    r
}

impl MockRegistry {
    /// The registered entries, in order of registration.
    pub closed spec fn entries(&self) -> Seq<(Selector, MessageHandler)> {
        self.entries@
    }

    /// Each selector has at most one handler.
    pub closed spec fn well_formed(&self) -> bool {
        selectors_unique(self.entries@)
    }

    /// The handler registered for `sel`, if any.
    pub open spec fn handler_of(&self, sel: Selector) -> Option<MessageHandler> {
        match index_of(self.entries(), sel) {
            Some(i) => Some(self.entries()[i].1),
            None => None,
        }
    }

    /// A registry without handlers.
    pub fn new() -> (r: Self)
        ensures
            r.well_formed(),
            r.entries() == Seq::<(Selector, MessageHandler)>::empty(),
    {
        MockRegistry { entries: Vec::new() }
    }

    /// The handler registered for `sel`, if any.
    pub fn handler_for(&self, sel: &Selector) -> (r: Option<&MessageHandler>)
        ensures
            r matches Some(h) ==> self.handler_of(*sel) == Some(*h),
            r is None ==> self.handler_of(*sel) is None,
    {
        let mut i: usize = self.entries.len();
        proof {
            assert(self.entries@.take(i as int) == self.entries@);
        }
        while i > 0
            invariant
                i <= self.entries@.len(),
                index_of(self.entries@, *sel) == index_of(self.entries@.take(i as int), *sel),
            decreases i,
        {
            proof {
                assert(self.entries@.take(i as int).drop_last() == self.entries@.take(i - 1));
            }
            if same_selector(&self.entries[i - 1].0, sel) {
                return Some(&self.entries[i - 1].1);
            }
            i = i - 1;
        }
        None
    }

    /// Adds a handler for `sel`; a selector that already has one is refused
    /// and the registry is left as it was.
    pub fn register(&mut self, sel: Selector, handler: MessageHandler) -> (r: Result<(), RegistrationError>)
        requires
            old(self).well_formed(),
        ensures
            final(self).well_formed(),
            old(self).handler_of(sel) is Some ==> r == Err::<(), RegistrationError>(RegistrationError::DuplicateSelector(sel))
                && final(self).entries() == old(self).entries(),
            old(self).handler_of(sel) is None ==> r is Ok
                && final(self).entries() == old(self).entries().push((sel, handler)),
    {
        match self.handler_for(&sel) {
            Some(_) => Err(RegistrationError::DuplicateSelector(sel)),
            None => {
                proof {
                    lemma_index_of(self.entries@, sel);
                }
                self.entries.push((sel, handler));
                Ok(())
            }
        }
    }

    /// Handles a message: finds the handler for `sel`, decodes `payload` into
    /// its argument, and answers. An unknown selector and a payload that does
    /// not decode fail with distinct errors, and nothing changes either way.
    pub fn dispatch(&self, sel: Selector, payload: &[u8]) -> (r: Result<Reply, MockingError>)
        ensures
            self.handler_of(sel) is None <==> r matches Err(MockingError::MessageNotFound(s)),
            r matches Err(MockingError::MessageNotFound(s)) ==> s == sel,
            self.handler_of(sel) matches Some(h) ==> (arg_of(h.shape(), payload@) is None
                <==> r matches Err(MockingError::ArgumentDecoding(_))),
            r matches Ok(rep) ==> self.handler_of(sel) matches Some(h)
                && arg_of(h.shape(), payload@) == Some(rep.args)
                && rep.output@ == h.response(payload@),
            self.handler_of(sel) matches Some(h) ==> (arg_of(h.shape(), payload@) is Some <==> r is Ok),
    {
        match self.handler_for(&sel) {
            None => Err(MockingError::MessageNotFound(sel)),
            Some(h) => match decode_argument(h.arg_shape(), payload) {
                Err(e) => Err(MockingError::ArgumentDecoding(e)),
                Ok(args) => {
                    let output = match h {
                        MessageHandler::Constant(_, out) => out.clone(),
                        MessageHandler::Echo(_) => copy_bytes(payload),
                    };
                    Ok(Reply { args, output })
                },
            },
        }
    }
}

} // verus!
