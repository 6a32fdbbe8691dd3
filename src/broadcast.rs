use vstd::prelude::*;

use crate::handshake::Init;
use crate::id_gen::IdGenerator;
use crate::message::{Body, Message};
use crate::node::{Fault, Node};

verus! {

/// The payloads of the broadcast node kind.
#[derive(Debug)]
pub enum BroadcastPayload {
    /// Each node's neighbours, as (node id, neighbour ids) entries.
    Topology { topology: Vec<(String, Vec<String>)> },
    TopologyOk,
    Broadcast { message: u32 },
    BroadcastOk,
    Read,
    ReadOk { messages: Vec<u32> },
}

/// A node that floods each value it first hears of to its neighbours.
pub struct BroadcastNode {
    id: IdGenerator,
    node_id: String,
    neighbors: Vec<String>,
    values: Vec<u32>,
}

/// What a broadcast node is, in mathematical terms.
pub ghost struct BroadcastState {
    /// The node's own id.
    pub me: Seq<char>,
    /// Its neighbours, in the order the last topology gave them.
    pub peers: Seq<Seq<char>>,
    /// Every value it has heard of.
    pub seen: Set<u32>,
    /// How many message ids it has issued.
    pub issued: nat,
}

/// The text of each string, in order.
pub open spec fn views(v: Seq<String>) -> Seq<Seq<char>> {
    v.map_values(|s: String| s@)
}

/// A sender is a client, not a node of the cluster, when its id starts with `c`.
pub open spec fn is_client(id: Seq<char>) -> bool {
    id.len() > 0 && id[0] == 'c'
}

/// The peers, in order, leaving out every one named `from`.
pub open spec fn targets(peers: Seq<Seq<char>>, from: Seq<char>) -> Seq<Seq<char>>
    decreases peers.len(),
{
    if peers.len() == 0 {
        Seq::empty()
    } else {
        let rest = targets(peers.drop_last(), from);
        if peers.last() == from {
            rest
        } else {
            rest.push(peers.last())
        }
    }
}

/// Whether the topology has an entry for `key`.
pub open spec fn has_entry(entries: Seq<(String, Vec<String>)>, key: Seq<char>) -> bool {
    exists|i: int| 0 <= i < entries.len() && (#[trigger] entries[i]).0@ == key
}

/// Entry `i` is the first entry of the topology for `key`.
pub open spec fn first_entry(entries: Seq<(String, Vec<String>)>, key: Seq<char>, i: int) -> bool {
    &&& 0 <= i < entries.len()
    &&& entries[i].0@ == key
    &&& forall|j: int| 0 <= j < i ==> (#[trigger] entries[j]).0@ != key
}

/// The peers that a `Broadcast` of `v` from `from` is passed on to: none if
/// `v` was seen before, else every neighbour but `from`.
pub open spec fn forward_targets(s: BroadcastState, from: Seq<char>, v: u32) -> Seq<Seq<char>> {
    if s.seen.contains(v) {
        Seq::empty()
    } else {
        targets(s.peers, from)
    }
}

/// The state after a `Broadcast` of `v` from `from`: `v` is seen, and an id
/// is spent on the acknowledgement if `from` is a client.
pub open spec fn after_broadcast(s: BroadcastState, from: Seq<char>, v: u32) -> BroadcastState {
    BroadcastState {
        me: s.me,
        peers: s.peers,
        seen: s.seen.insert(v),
        issued: if is_client(from) { s.issued + 1 } else { s.issued },
    }
}

/// `f` passes `v` on from node `me` to `to`, with the body of `m` otherwise.
pub open spec fn is_forward(
    f: Message<BroadcastPayload>,
    m: Message<BroadcastPayload>,
    me: Seq<char>,
    to: Seq<char>,
    v: u32,
) -> bool {
    &&& f.src@ == me
    &&& f.dest@ == to
    &&& f.body.in_reply_to == m.body.in_reply_to
    &&& f.body.msg_id == m.body.msg_id
    &&& f.body.payload == (BroadcastPayload::Broadcast { message: v })
}

/// `r` answers `m` under message id `id`.
pub open spec fn is_reply(r: Message<BroadcastPayload>, m: Message<BroadcastPayload>, id: nat) -> bool {
    &&& r.src == m.dest
    &&& r.dest == m.src
    &&& r.body.in_reply_to == m.body.msg_id
    &&& r.body.msg_id == Some(id as u32)
}

fn is_client_id(id: &String) -> (r: bool)
    ensures
        r == is_client(id@),
{
    let s = id.as_str();
    !s.is_empty() && s.get_char(0) == 'c'
}

fn contains_value(values: &Vec<u32>, v: u32) -> (r: bool)
    ensures
        r == values@.contains(v),
{
    let mut i: usize = 0;
    while i < values.len()
        invariant
            i <= values@.len(),
            forall|k: int| 0 <= k < i ==> values@[k] != v,
        decreases values@.len() - i,
    {
        if values[i] == v {
            return true;
        }
        i = i + 1;
    }
    false
}

fn copy_values(values: &Vec<u32>) -> (r: Vec<u32>)
    ensures
        r@ == values@,
{
    let mut r: Vec<u32> = Vec::new();
    let mut i: usize = 0;
    while i < values.len()
        invariant
            i <= values@.len(),
            r@ == values@.subrange(0, i as int),
        decreases values@.len() - i,
    {
        r.push(values[i]);
        i = i + 1;
        assert(r@ =~= values@.subrange(0, i as int));
    }
    assert(r@ =~= values@);
    r
}

fn find_entry(entries: &Vec<(String, Vec<String>)>, key: &String) -> (r: Option<usize>)
    ensures
        r is None <==> !has_entry(entries@, key@),
        r matches Some(i) ==> first_entry(entries@, key@, i as int),
{
    let mut i: usize = 0;
    while i < entries.len()
        invariant
            i <= entries@.len(),
            forall|j: int| 0 <= j < i ==> (#[trigger] entries@[j]).0@ != key@,
        decreases entries@.len() - i,
    {
        if entries[i].0.eq(key) {
            return Some(i);
        }
        i = i + 1;
    }
    None
}

/// The `Broadcast` of `v` that `msg` carries, passed from `me` to every peer
/// but the sender, in the peers' order.
fn forwards(
    peers: &Vec<String>,
    me: &String,
    msg: &Message<BroadcastPayload>,
    v: u32,
) -> (out: Vec<Message<BroadcastPayload>>)
    ensures
        out@.len() == targets(views(peers@), msg.src@).len(),
        forall|k: int|
            0 <= k < out@.len() ==> is_forward(
                #[trigger] out@[k],
                *msg,
                me@,
                targets(views(peers@), msg.src@)[k],
                v,
            ),
{
    let mut out: Vec<Message<BroadcastPayload>> = Vec::new();
    let mut i: usize = 0;
    while i < peers.len()
        invariant
            i <= peers@.len(),
            out@.len() == targets(views(peers@).subrange(0, i as int), msg.src@).len(),
            forall|k: int|
                0 <= k < out@.len() ==> is_forward(
                    #[trigger] out@[k],
                    *msg,
                    me@,
                    targets(views(peers@).subrange(0, i as int), msg.src@)[k],
                    v,
                ),
        decreases peers@.len() - i,
    {
        let ghost before = views(peers@).subrange(0, i as int);
        let ghost after = views(peers@).subrange(0, i + 1);
        assert(after.drop_last() =~= before);
        let peer = &peers[i];
        if !peer.eq(&msg.src) {
            let f = Message {
                src: me.clone(),
                dest: peer.clone(),
                body: Body {
                    in_reply_to: msg.body.in_reply_to,
                    msg_id: msg.body.msg_id,
                    payload: BroadcastPayload::Broadcast { message: v },
                },
            };
            out.push(f);
        }
        i = i + 1;
    }
    assert(views(peers@).subrange(0, peers@.len() as int) =~= views(peers@));
    out
}

/// What handling `msg` does to a node in state `pre`: the node ends in `post`
/// and the call returns `r`.
pub open spec fn handled(
    pre: BroadcastState,
    msg: Message<BroadcastPayload>,
    post: BroadcastState,
    r: Result<Vec<Message<BroadcastPayload>>, Fault>,
) -> bool {
    match msg.body.payload {
        BroadcastPayload::Topology { topology } => topology_handled(pre, msg, topology@, post, r),
        BroadcastPayload::Broadcast { message } => broadcast_handled(pre, msg, message, post, r),
        BroadcastPayload::Read => read_handled(pre, msg, post, r),
        BroadcastPayload::BroadcastOk => post == pre && (r matches Ok(out) && out@.len() == 0),
        _ => post == pre && r == Err::<Vec<Message<BroadcastPayload>>, Fault>(
            Fault::UnexpectedReply,
        ),
    }
}

/// A `Topology`: the neighbours become those of the node's own (first) entry,
/// and a `topology_ok` answers it. Fails, changing nothing, if there is no
/// such entry, or else if no message id is left.
pub open spec fn topology_handled(
    pre: BroadcastState,
    msg: Message<BroadcastPayload>,
    entries: Seq<(String, Vec<String>)>,
    post: BroadcastState,
    r: Result<Vec<Message<BroadcastPayload>>, Fault>,
) -> bool {
    match r {
        Err(f) => {
            &&& post == pre
            &&& if !has_entry(entries, pre.me) {
                f == Fault::MissingTopologyEntry
            } else {
                f == Fault::IdsExhausted && pre.issued == IdGenerator::capacity()
            }
        },
        Ok(out) => {
            &&& pre.issued < IdGenerator::capacity()
            &&& exists|i: int|
                #![trigger entries[i]]
                first_entry(entries, pre.me, i) && post == (BroadcastState {
                    peers: views(entries[i].1@),
                    issued: pre.issued + 1,
                    ..pre
                })
            &&& out@.len() == 1
            &&& is_reply(out@[0], msg, post.issued)
            &&& out@[0].body.payload is TopologyOk
        },
    }
}

/// A `Broadcast` of `v`: `v` is seen from then on; if it was new, it is
/// passed on to every neighbour but the sender; and a client (never a peer)
/// gets a `broadcast_ok` after that. Fails, changing nothing, only where a
/// client is to be answered and no message id is left.
pub open spec fn broadcast_handled(
    pre: BroadcastState,
    msg: Message<BroadcastPayload>,
    v: u32,
    post: BroadcastState,
    r: Result<Vec<Message<BroadcastPayload>>, Fault>,
) -> bool {
    let client = is_client(msg.src@);
    let fw = forward_targets(pre, msg.src@, v);
    match r {
        Err(f) => {
            &&& f == Fault::IdsExhausted
            &&& client
            &&& pre.issued == IdGenerator::capacity()
            &&& post == pre
        },
        Ok(out) => {
            &&& !(client && pre.issued == IdGenerator::capacity())
            &&& post == after_broadcast(pre, msg.src@, v)
            &&& out@.len() == fw.len() + if client { 1int } else { 0int }
            &&& forall|k: int|
                0 <= k < fw.len() ==> is_forward(#[trigger] out@[k], msg, pre.me, fw[k], v)
            &&& client ==> is_reply(out@.last(), msg, post.issued)
            &&& client ==> out@.last().body.payload is BroadcastOk
        },
    }
}

/// A `Read`: a `read_ok` answers it with every value seen, each once. Fails,
/// changing nothing, only where no message id is left.
pub open spec fn read_handled(
    pre: BroadcastState,
    msg: Message<BroadcastPayload>,
    post: BroadcastState,
    r: Result<Vec<Message<BroadcastPayload>>, Fault>,
) -> bool {
    match r {
        Err(f) => f == Fault::IdsExhausted && pre.issued == IdGenerator::capacity() && post == pre,
        Ok(out) => {
            &&& pre.issued < IdGenerator::capacity()
            &&& post == (BroadcastState { issued: pre.issued + 1, ..pre })
            &&& out@.len() == 1
            &&& is_reply(out@[0], msg, post.issued)
            &&& out@[0].body.payload matches BroadcastPayload::ReadOk { messages } && messages@.to_set()
                == pre.seen && messages@.no_duplicates()
        },
    }
}

impl View for BroadcastNode {
    type V = BroadcastState;

    closed spec fn view(&self) -> BroadcastState {
        BroadcastState {
            me: self.node_id@,
            peers: views(self.neighbors@),
            seen: self.values@.to_set(),
            issued: self.id@,
        }
    }
}

impl BroadcastNode {
    /// This node's neighbours, in the order the last topology gave them.
    pub fn neighbors(&self) -> (r: &Vec<String>)
        ensures
            views(r@) == self@.peers,
    {
        &self.neighbors
    }

    /// Every value this node has seen, each once.
    pub fn values(&self) -> (r: Vec<u32>)
        requires
            self.well_formed(),
        ensures
            r@.to_set() == self@.seen,
            r@.no_duplicates(),
    {
        copy_values(&self.values)
    }

    fn on_topology(&mut self, msg: Message<BroadcastPayload>) -> (r: Result<
        Vec<Message<BroadcastPayload>>,
        Fault,
    >)
        requires
            old(self).well_formed(),
            msg.body.payload is Topology,
        ensures
            handled(old(self)@, msg, final(self)@, r),
            final(self).well_formed(),
    {
        let Message { src, dest, body } = msg;
        let Body { in_reply_to, msg_id, payload } = body;
        if let BroadcastPayload::Topology { topology } = payload {
            let mut entries = topology;
            match find_entry(&entries, &self.node_id) {
                None => Err(Fault::MissingTopologyEntry),
                Some(i) => {
                    if self.id.remaining() == 0 {
                        return Err(Fault::IdsExhausted);
                    }
                    let ghost pre = self@;
                    let (_, peers) = entries.remove(i);
                    self.neighbors = peers;
                    let ack = Message {
                        src,
                        dest,
                        body: Body { in_reply_to, msg_id, payload: BroadcastPayload::TopologyOk },
                    };
                    let reply = ack.into_reply(Some(self.id.next_id()));
                    let mut out: Vec<Message<BroadcastPayload>> = Vec::new();
                    out.push(reply);
                    assert(first_entry(msg.body.payload->topology@, pre.me, i as int));
                    Ok(out)
                },
            }
        } else {
            Err(Fault::UnexpectedReply)
        }
    }

    fn on_broadcast(&mut self, msg: Message<BroadcastPayload>, v: u32) -> (r: Result<
        Vec<Message<BroadcastPayload>>,
        Fault,
    >)
        requires
            old(self).well_formed(),
            msg.body.payload == (BroadcastPayload::Broadcast { message: v }),
        ensures
            handled(old(self)@, msg, final(self)@, r),
            final(self).well_formed(),
    {
        let client = is_client_id(&msg.src);
        if client && self.id.remaining() == 0 {
            return Err(Fault::IdsExhausted);
        }
        let ghost pre = self@;
        let mut out: Vec<Message<BroadcastPayload>> = Vec::new();
        if !contains_value(&self.values, v) {
            proof {
                self.values@.lemma_push_to_set_commute(v);
                assert forall|a: int, b: int|
                    0 <= a < b < self.values@.len() + 1 implies #[trigger] self.values@.push(v)[a]
                    != #[trigger] self.values@.push(v)[b] by {
                    if b == self.values@.len() {
                        assert(self.values@.contains(self.values@[a]));
                    }
                }
            }
            self.values.push(v);
            out = forwards(&self.neighbors, &self.node_id, &msg, v);
        }
        assert(self@.seen =~= pre.seen.insert(v));
        if client {
            let Message { src, dest, body } = msg;
            let ack = Message {
                src,
                dest,
                body: Body {
                    in_reply_to: body.in_reply_to,
                    msg_id: body.msg_id,
                    payload: BroadcastPayload::BroadcastOk,
                },
            };
            out.push(ack.into_reply(Some(self.id.next_id())));
        }
        Ok(out)
    }

    fn on_read(&mut self, msg: Message<BroadcastPayload>) -> (r: Result<
        Vec<Message<BroadcastPayload>>,
        Fault,
    >)
        requires
            old(self).well_formed(),
            msg.body.payload is Read,
        ensures
            handled(old(self)@, msg, final(self)@, r),
            final(self).well_formed(),
    {
        if self.id.remaining() == 0 {
            return Err(Fault::IdsExhausted);
        }
        let messages = copy_values(&self.values);
        let Message { src, dest, body } = msg;
        let ack = Message {
            src,
            dest,
            body: Body {
                in_reply_to: body.in_reply_to,
                msg_id: body.msg_id,
                payload: BroadcastPayload::ReadOk { messages },
            },
        };
        let mut out: Vec<Message<BroadcastPayload>> = Vec::new();
        out.push(ack.into_reply(Some(self.id.next_id())));
        Ok(out)
    }
}

impl Node<BroadcastPayload> for BroadcastNode {
    /// Each value is held once.
    closed spec fn well_formed(&self) -> bool {
        self.values@.no_duplicates()
    }

    fn new(init: Init) -> (r: Self)
        ensures
            r@ == (BroadcastState {
                me: init.node_id@,
                peers: Seq::empty(),
                seen: Set::empty(),
                issued: 0,
            }),
    {
        let r = BroadcastNode {
            id: IdGenerator::new(),
            node_id: init.node_id,
            neighbors: Vec::new(),
            values: Vec::new(),
        };
        assert(r@.peers =~= Seq::empty());
        assert(r@.seen =~= Set::empty());
        r
    }

    fn handle_msg(&mut self, msg: Message<BroadcastPayload>) -> (r: Result<
        Vec<Message<BroadcastPayload>>,
        Fault,
    >)
        ensures
            handled(old(self)@, msg, final(self)@, r),
    {
        let v: u32 = match &msg.body.payload {
            BroadcastPayload::Topology { .. } => {
                return self.on_topology(msg);
            },
            BroadcastPayload::Broadcast { message } => *message,
            BroadcastPayload::Read => {
                return self.on_read(msg);
            },
            BroadcastPayload::BroadcastOk => {
                return Ok(Vec::new());
            },
            _ => {
                return Err(Fault::UnexpectedReply);
            },
        };
        self.on_broadcast(msg, v)
    }
}

} // verus!
