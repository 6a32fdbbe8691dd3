use vstd::prelude::*;

use crate::broadcast::{
    after_broadcast,
    forward_targets,
    handled,
    is_client,
    targets,
    BroadcastPayload,
    BroadcastState,
};
use crate::message::Message;
use crate::node::Fault;

verus! {

/// The state after `n` deliveries of a `Broadcast` of `v` from `from`, each
/// one handled without a fault.
pub open spec fn deliveries(s: BroadcastState, from: Seq<char>, v: u32, n: nat) -> BroadcastState
    decreases n,
{
    if n == 0 {
        s
    } else {
        after_broadcast(deliveries(s, from, v, (n - 1) as nat), from, v)
    }
}

/// No target of a flood is the peer it came from.
pub proof fn lemma_targets_skip_sender(peers: Seq<Seq<char>>, from: Seq<char>)
    ensures
        forall|k: int| 0 <= k < targets(peers, from).len() ==> #[trigger] targets(peers, from)[k] != from,
    decreases peers.len(),
{
    if peers.len() > 0 {
        let rest = targets(peers.drop_last(), from);
        lemma_targets_skip_sender(peers.drop_last(), from);
        assert forall|k: int| 0 <= k < targets(peers, from).len() implies #[trigger] targets(
            peers,
            from,
        )[k] != from by {
            if k < rest.len() {
                assert(targets(peers, from)[k] == rest[k]);
            }
        }
    }
}

/// No ping-pong: handling a `Broadcast` never sends a `Broadcast` to the
/// sender of the one handled.
pub proof fn lemma_no_ping_pong(
    pre: BroadcastState,
    msg: Message<BroadcastPayload>,
    v: u32,
    post: BroadcastState,
    out: Vec<Message<BroadcastPayload>>,
)
    requires
        msg.body.payload == (BroadcastPayload::Broadcast { message: v }),
        handled(pre, msg, post, Ok::<Vec<Message<BroadcastPayload>>, Fault>(out)),
    ensures
        forall|k: int|
            0 <= k < out@.len() && (#[trigger] out@[k]).body.payload is Broadcast ==> out@[k].dest@
                != msg.src@,
{
    lemma_targets_skip_sender(pre.peers, msg.src@);
}

/// Acknowledgement discipline: handling a `Broadcast` sends a `broadcast_ok`
/// exactly when its sender is a client, and then only to that sender.
pub proof fn lemma_ack_only_clients(
    pre: BroadcastState,
    msg: Message<BroadcastPayload>,
    v: u32,
    post: BroadcastState,
    out: Vec<Message<BroadcastPayload>>,
)
    requires
        msg.body.payload == (BroadcastPayload::Broadcast { message: v }),
        handled(pre, msg, post, Ok::<Vec<Message<BroadcastPayload>>, Fault>(out)),
    ensures
        (exists|k: int| 0 <= k < out@.len() && (#[trigger] out@[k]).body.payload is BroadcastOk)
            <==> is_client(msg.src@),
        forall|k: int|
            0 <= k < out@.len() && (#[trigger] out@[k]).body.payload is BroadcastOk ==> out@[k].dest
                == msg.src,
{
    let fw = forward_targets(pre, msg.src@, v);
    if is_client(msg.src@) {
        assert(out@[out@.len() - 1].body.payload is BroadcastOk);
    }
    assert forall|k: int| 0 <= k < fw.len() implies !((#[trigger] out@[k]).body.payload is BroadcastOk) by {
    }
}

/// Delivering the same `Broadcast` a second time leaves the seen values as
/// the first delivery left them and passes nothing on: only a client's
/// acknowledgement goes out.
pub proof fn lemma_redelivery_is_silent(
    s0: BroadcastState,
    msg: Message<BroadcastPayload>,
    v: u32,
    s1: BroadcastState,
    out1: Vec<Message<BroadcastPayload>>,
    s2: BroadcastState,
    out2: Vec<Message<BroadcastPayload>>,
)
    requires
        msg.body.payload == (BroadcastPayload::Broadcast { message: v }),
        handled(s0, msg, s1, Ok::<Vec<Message<BroadcastPayload>>, Fault>(out1)),
        handled(s1, msg, s2, Ok::<Vec<Message<BroadcastPayload>>, Fault>(out2)),
    ensures
        s1.seen == s0.seen.insert(v),
        s2.seen == s1.seen,
        forward_targets(s1, msg.src@, v).len() == 0,
        out2@.len() == if is_client(msg.src@) { 1int } else { 0int },
        forall|k: int| 0 <= k < out2@.len() ==> (#[trigger] out2@[k]).body.payload is BroadcastOk,
{
    assert(s2.seen =~= s1.seen);
}

/// Idempotence: after `n >= 1` deliveries of a `Broadcast` of `v` the seen
/// values are those before with `v` added, and every delivery after the
/// first passes nothing on.
pub proof fn lemma_deliveries_idempotent(s: BroadcastState, from: Seq<char>, v: u32, n: nat)
    requires
        n >= 1,
    ensures
        deliveries(s, from, v, n).seen == s.seen.insert(v),
        forall|k: nat| 1 <= k < n ==> forward_targets(#[trigger] deliveries(s, from, v, k), from, v).len() == 0,
    decreases n,
{
    if n == 1 {
        assert(deliveries(s, from, v, 0) == s);
    } else {
        lemma_deliveries_idempotent(s, from, v, (n - 1) as nat);
        assert(deliveries(s, from, v, n).seen =~= s.seen.insert(v));
        assert forall|k: nat| 1 <= k < n implies forward_targets(
            #[trigger] deliveries(s, from, v, k),
            from,
            v,
        ).len() == 0 by {
            if k == n - 1 {
                assert(deliveries(s, from, v, k).seen.contains(v));
            }
        }
    }
}

} // verus!
