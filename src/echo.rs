use vstd::prelude::*;

use crate::handshake::Init;
use crate::id_gen::IdGenerator;
use crate::message::{Body, Message};
use crate::node::{Fault, Node};

verus! {

/// The payloads of the echo node kind.
#[derive(Debug)]
pub enum EchoPayload {
    Echo { echo: String },
    EchoOk { echo: String },
}

/// The text that an echo payload carries.
pub open spec fn echo_text(p: EchoPayload) -> String {
    match p {
        EchoPayload::Echo { echo } => echo,
        EchoPayload::EchoOk { echo } => echo,
    }
}

/// A node that answers each message with the text it carries.
pub struct EchoNode {
    id: IdGenerator,
}

impl View for EchoNode {
    /// How many message ids the node has issued.
    type V = nat;

    closed spec fn view(&self) -> nat {
        self.id@
    }
}

impl Node<EchoPayload> for EchoNode {
    open spec fn well_formed(&self) -> bool {
        true
    }

    fn new(init: Init) -> (r: Self)
        ensures
            r@ == 0,
    {
        EchoNode { id: IdGenerator::new() }
    }

    /// Answers `msg` with an `echo_ok` carrying its text, under the next
    /// message id. Fails, changing nothing, only where no id is left.
    fn handle_msg(&mut self, msg: Message<EchoPayload>) -> (r: Result<Vec<Message<EchoPayload>>, Fault>)
        ensures
            r is Err <==> old(self)@ == IdGenerator::capacity(),
            r is Err ==> r->Err_0 == Fault::IdsExhausted && final(self)@ == old(self)@,
            r matches Ok(out) ==> {
                &&& final(self)@ == old(self)@ + 1
                &&& out@.len() == 1
                &&& out@[0].src == msg.dest
                &&& out@[0].dest == msg.src
                &&& out@[0].body.in_reply_to == msg.body.msg_id
                &&& out@[0].body.msg_id == Some(final(self)@ as u32)
                &&& out@[0].body.payload == (EchoPayload::EchoOk { echo: echo_text(msg.body.payload) })
            },
    {
        if self.id.remaining() == 0 {
            return Err(Fault::IdsExhausted);
        }
        let Message { src, dest, body } = msg;
        let echo = match body.payload {
            EchoPayload::Echo { echo } => echo,
            EchoPayload::EchoOk { echo } => echo,
        };
        let ack = Message {
            src,
            dest,
            body: Body {
                in_reply_to: body.in_reply_to,
                msg_id: body.msg_id,
                payload: EchoPayload::EchoOk { echo },
            },
        };
        let mut out: Vec<Message<EchoPayload>> = Vec::new();
        out.push(ack.into_reply(Some(self.id.next_id())));
        Ok(out)
    }
}

} // verus!
