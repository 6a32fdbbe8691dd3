use vstd::prelude::*;

verus! {

/// The body of an envelope: correlation ids and a payload of the node's kind.
#[derive(Debug)]
pub struct Body<Payload> {
    /// The id of the message that this one answers, if any.
    pub in_reply_to: Option<u32>,
    /// This message's own id, if the sender gave it one.
    pub msg_id: Option<u32>,
    pub payload: Payload,
}

/// An envelope: who sends it, to whom, and what it carries.
#[derive(Debug)]
pub struct Message<Payload> {
    pub src: String,
    pub dest: String,
    pub body: Body<Payload>,
}

impl<Payload> Message<Payload> {
    /// The reply to this message: source and destination swapped, answering
    /// this message's own id, carrying `msg_id` as its id and the same payload
    /// (callers put the reply's payload in afterwards).
    pub fn into_reply(self, msg_id: Option<u32>) -> (r: Self)
        ensures
            r.src == self.dest,
            r.dest == self.src,
            r.body.in_reply_to == self.body.msg_id,
            r.body.msg_id == msg_id,
            r.body.payload == self.body.payload,
    {
        Message {
            src: self.dest,
            dest: self.src,
            body: Body { in_reply_to: self.body.msg_id, msg_id, payload: self.body.payload },
        }
    }
}

} // verus!
