use vstd::prelude::*;

use crate::message::{Body, Message};
use crate::node::Fault;

verus! {

/// What the node's cluster identity comes in: who this node is, and every
/// node of the cluster in order.
#[derive(Debug)]
pub struct Init {
    pub node_id: String,
    pub node_ids: Vec<String>,
}

/// The payloads of the handshake.
#[derive(Debug)]
pub enum InitPayload {
    Init(Init),
    InitOk,
}

/// The handshake: from the first envelope, the `init_ok` reply to send before
/// anything else (id 0, answering the `init`) and the node's identity. Fails
/// with `NotInit` where that envelope carries no `init`.
pub fn handshake(msg: Message<InitPayload>) -> (r: Result<(Message<InitPayload>, Init), Fault>)
    ensures
        r is Err <==> msg.body.payload is InitOk,
        r is Err ==> r->Err_0 == Fault::NotInit,
        r matches Ok((reply, init)) ==> {
            &&& msg.body.payload == InitPayload::Init(init)
            &&& reply.src == msg.dest
            &&& reply.dest == msg.src
            &&& reply.body.in_reply_to == msg.body.msg_id
            &&& reply.body.msg_id == Some(0u32)
            &&& reply.body.payload is InitOk
        },
{
    let Message { src, dest, body } = msg;
    let Body { in_reply_to, msg_id, payload } = body;
    match payload {
        InitPayload::Init(init) => {
            let ack = Message { src, dest, body: Body { in_reply_to, msg_id, payload: InitPayload::InitOk } };
            Ok((ack.into_reply(Some(0)), init))
        },
        InitPayload::InitOk => Err(Fault::NotInit),
    }
}

} // verus!
