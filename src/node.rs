use vstd::prelude::*;

use crate::handshake::Init;
use crate::message::Message;

verus! {

/// Why a node cannot go on: each one ends the process.
#[derive(Debug, Clone, Copy, PartialEq, Eq, Structural)]
pub enum Fault {
    /// The first envelope did not carry an `init` payload.
    NotInit,
    /// A topology had no entry for the node that received it.
    MissingTopologyEntry,
    /// A reply arrived to a request that this kind of node never makes.
    UnexpectedReply,
    /// The node has issued every message id it can.
    IdsExhausted,
}

/// One kind of node: built once from the handshake's `init`, then handed each
/// inbound envelope in turn. A call hands back the envelopes to send, in the
/// order they are to go out.
pub trait Node<Payload>: Sized {
    /// What holds of every node between two calls.
    spec fn well_formed(&self) -> bool;

    /// The node that the handshake `init` starts.
    fn new(init: Init) -> (r: Self)
        ensures
            r.well_formed(),
    ;

    /// Takes one inbound envelope and returns what to send, or the fault that
    /// stops the node.
    fn handle_msg(&mut self, msg: Message<Payload>) -> (r: Result<Vec<Message<Payload>>, Fault>)
        requires
            old(self).well_formed(),
        ensures
            final(self).well_formed(),
    ;
}

} // verus!
