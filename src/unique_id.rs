use vstd::prelude::*;

use crate::handshake::Init;
use crate::id_gen::IdGenerator;
use crate::message::{Body, Message};
use crate::node::{Fault, Node};

verus! {

/// The payloads of the unique-id node kind.
#[derive(Debug)]
pub enum GeneratePayload {
    Generate,
    GenerateOk { id: String },
}

/// The ten decimal digits, in order.
pub open spec fn digits() -> Seq<char> {
    seq!['0', '1', '2', '3', '4', '5', '6', '7', '8', '9']
}

/// `n` written in decimal, without leading zeros.
pub open spec fn decimal(n: nat) -> Seq<char>
    decreases n,
{
    if n < 10 {
        seq![digits()[n as int]]
    } else {
        decimal(n / 10).push(digits()[(n % 10) as int])
    }
}

/// The id that node `node` hands out with its message id `k`: the node's id,
/// a dash, and `k` in decimal.
pub open spec fn unique_id(node: Seq<char>, k: nat) -> Seq<char> {
    node + seq!['-'] + decimal(k)
}

/// `n` written in decimal.
pub fn decimal_string(n: u32) -> (r: String)
    ensures
        r@ == decimal(n as nat),
    decreases n,
{
    let table = "0123456789";
    proof {
        reveal_strlit("0123456789");
        assert(table@ =~= digits());
    }
    let d = n % 10;
    let digit = table.substring_char(d as usize, (d + 1) as usize);
    assert(digit@ =~= seq![digits()[d as int]]);
    if n < 10 {
        String::from_str(digit)
    } else {
        let mut r = decimal_string(n / 10);
        r.append(digit);
        r
    }
}

/// A node that hands out ids unique across the cluster: its own id joined to
/// a message id that it never issues twice.
pub struct UniqueIdNode {
    id: IdGenerator,
    node_id: String,
}

/// What a unique-id node is: its own id and how many message ids it has issued.
pub ghost struct UniqueIdState {
    pub me: Seq<char>,
    pub issued: nat,
}

impl View for UniqueIdNode {
    type V = UniqueIdState;

    closed spec fn view(&self) -> UniqueIdState {
        UniqueIdState { me: self.node_id@, issued: self.id@ }
    }
}

impl Node<GeneratePayload> for UniqueIdNode {
    open spec fn well_formed(&self) -> bool {
        true
    }

    fn new(init: Init) -> (r: Self)
        ensures
            r@ == (UniqueIdState { me: init.node_id@, issued: 0 }),
    {
        UniqueIdNode { id: IdGenerator::new(), node_id: init.node_id }
    }

    /// Answers `msg` under the next message id `k`. A `generate` gets a
    /// `generate_ok` whose id is the node's id and `k + 1`, which is spent
    /// too; any other payload goes back as it came. Fails, changing nothing,
    /// where the ids this needs are not left.
    fn handle_msg(&mut self, msg: Message<GeneratePayload>) -> (r: Result<
        Vec<Message<GeneratePayload>>,
        Fault,
    >)
        ensures
            ({
                let spent: nat = if msg.body.payload is Generate { 2 } else { 1 };
                &&& r is Err <==> old(self)@.issued + spent > IdGenerator::capacity()
                &&& r is Err ==> r->Err_0 == Fault::IdsExhausted && final(self)@ == old(self)@
                &&& r matches Ok(out) ==> {
                    &&& final(self)@ == (UniqueIdState {
                        issued: old(self)@.issued + spent,
                        ..old(self)@
                    })
                    &&& out@.len() == 1
                    &&& out@[0].src == msg.dest
                    &&& out@[0].dest == msg.src
                    &&& out@[0].body.in_reply_to == msg.body.msg_id
                    &&& out@[0].body.msg_id == Some((old(self)@.issued + 1) as u32)
                    &&& msg.body.payload is GenerateOk ==> out@[0].body.payload == msg.body.payload
                    &&& msg.body.payload is Generate ==> (out@[0].body.payload matches GeneratePayload::GenerateOk { id }
                        && id@ == unique_id(old(self)@.me, final(self)@.issued))
                }
            }),
    {
        let generate = match &msg.body.payload {
            GeneratePayload::Generate => true,
            GeneratePayload::GenerateOk { .. } => false,
        };
        let left = self.id.remaining();
        if left == 0 || (generate && left == 1) {
            return Err(Fault::IdsExhausted);
        }
        let mut reply = msg.into_reply(Some(self.id.next_id()));
        if generate {
            let k = self.id.next_id();
            let mut id = self.node_id.clone();
            id.append("-");
            let tail = decimal_string(k);
            id.append(tail.as_str());
            proof {
                reveal_strlit("-");
            }
            reply.body.payload = GeneratePayload::GenerateOk { id };
        }
        let mut out: Vec<Message<GeneratePayload>> = Vec::new();
        out.push(reply);
        Ok(out)
    }
}

} // verus!
