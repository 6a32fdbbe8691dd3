use fly_dist_sys::{
    decimal_string, handshake, Body, EchoNode, EchoPayload, Fault, GeneratePayload, IdGenerator,
    Init, InitPayload, Message, Node, UniqueIdNode,
};

fn s(x: &str) -> String {
    x.to_string()
}

fn init() -> Init {
    Init { node_id: s("n1"), node_ids: vec![s("n1"), s("n2")] }
}

#[test]
fn reply_swaps_ends_and_correlates() {
    let m = Message { src: s("c1"), dest: s("n1"), body: Body { in_reply_to: Some(3), msg_id: Some(9), payload: 5u8 } };
    let r = m.into_reply(Some(12));
    assert_eq!(r.src, "n1");
    assert_eq!(r.dest, "c1");
    assert_eq!(r.body.in_reply_to, Some(9));
    assert_eq!(r.body.msg_id, Some(12));
    assert_eq!(r.body.payload, 5);
}

#[test]
fn reply_without_id() {
    let m = Message { src: s("a"), dest: s("b"), body: Body { in_reply_to: None, msg_id: None, payload: () } };
    let r = m.into_reply(None);
    assert_eq!((r.src.as_str(), r.dest.as_str()), ("b", "a"));
    assert_eq!(r.body.in_reply_to, None);
    assert_eq!(r.body.msg_id, None);
}

#[test]
fn id_generator_counts_up_from_one() {
    let mut g = IdGenerator::new();
    assert_eq!(g.remaining(), u32::MAX);
    assert_eq!(g.next_id(), 1);
    assert_eq!(g.next_id(), 2);
    assert_eq!(g.next_id(), 3);
    assert_eq!(g.remaining(), u32::MAX - 3);
}

#[test]
fn handshake_acks_init() {
    let m = Message {
        src: s("c1"),
        dest: s("n1"),
        body: Body { in_reply_to: None, msg_id: Some(1), payload: InitPayload::Init(init()) },
    };
    let (reply, got) = handshake(m).unwrap();
    assert_eq!(reply.src, "n1");
    assert_eq!(reply.dest, "c1");
    assert_eq!(reply.body.in_reply_to, Some(1));
    assert_eq!(reply.body.msg_id, Some(0));
    assert!(matches!(reply.body.payload, InitPayload::InitOk));
    assert_eq!(got.node_id, "n1");
    assert_eq!(got.node_ids, vec![s("n1"), s("n2")]);
}

#[test]
fn handshake_rejects_non_init() {
    let m = Message { src: s("c1"), dest: s("n1"), body: Body { in_reply_to: None, msg_id: Some(1), payload: InitPayload::InitOk } };
    assert_eq!(handshake(m).err(), Some(Fault::NotInit));
}

#[test]
fn echo_copies_text() {
    let mut node = EchoNode::new(init());
    let m = Message { src: s("c1"), dest: s("n1"), body: Body { in_reply_to: None, msg_id: Some(4), payload: EchoPayload::Echo { echo: s("hi there") } } };
    let out = node.handle_msg(m).unwrap();
    assert_eq!(out.len(), 1);
    assert_eq!((out[0].src.as_str(), out[0].dest.as_str()), ("n1", "c1"));
    assert_eq!(out[0].body.in_reply_to, Some(4));
    assert_eq!(out[0].body.msg_id, Some(1));
    match &out[0].body.payload {
        EchoPayload::EchoOk { echo } => assert_eq!(echo, "hi there"),
        _ => panic!("expected echo_ok"),
    }
    let m = Message { src: s("c1"), dest: s("n1"), body: Body { in_reply_to: None, msg_id: Some(5), payload: EchoPayload::Echo { echo: s("") } } };
    let out = node.handle_msg(m).unwrap();
    assert_eq!(out[0].body.msg_id, Some(2));
}

#[test]
fn generate_hands_out_distinct_ids() {
    let mut node = UniqueIdNode::new(init());
    let mut ids = Vec::new();
    for k in 0..3u32 {
        let m = Message { src: s("c1"), dest: s("n1"), body: Body { in_reply_to: None, msg_id: Some(k), payload: GeneratePayload::Generate } };
        let out = node.handle_msg(m).unwrap();
        assert_eq!(out.len(), 1);
        assert_eq!(out[0].dest, "c1");
        assert_eq!(out[0].body.in_reply_to, Some(k));
        assert_eq!(out[0].body.msg_id, Some(2 * k + 1));
        match &out[0].body.payload {
            GeneratePayload::GenerateOk { id } => ids.push(id.clone()),
            _ => panic!("expected generate_ok"),
        }
    }
    assert_eq!(ids, vec![s("n1-2"), s("n1-4"), s("n1-6")]);
}

#[test]
fn decimal_renders_numbers() {
    assert_eq!(decimal_string(0), "0");
    assert_eq!(decimal_string(7), "7");
    assert_eq!(decimal_string(42), "42");
    assert_eq!(decimal_string(1000), "1000");
    assert_eq!(decimal_string(u32::MAX), "4294967295");
}
