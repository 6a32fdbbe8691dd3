use fly_dist_sys::{
    BroadcastNode, BroadcastPayload, Body, Fault, Init, Message, Node,
};

fn s(x: &str) -> String {
    x.to_string()
}

fn envelope(src: &str, dest: &str, msg_id: Option<u32>, payload: BroadcastPayload) -> Message<BroadcastPayload> {
    Message { src: s(src), dest: s(dest), body: Body { in_reply_to: None, msg_id, payload } }
}

fn node_n1() -> BroadcastNode {
    BroadcastNode::new(Init { node_id: s("n1"), node_ids: vec![s("n1"), s("n2"), s("n3")] })
}

fn topology_msg() -> Message<BroadcastPayload> {
    let topology = vec![
        (s("n1"), vec![s("n2"), s("n3")]),
        (s("n2"), vec![s("n3")]),
        (s("n3"), vec![s("n1")]),
    ];
    envelope("c1", "n1", Some(0), BroadcastPayload::Topology { topology })
}

fn configured_n1() -> BroadcastNode {
    let mut node = node_n1();
    node.handle_msg(topology_msg()).unwrap();
    node
}

fn sorted(mut v: Vec<u32>) -> Vec<u32> {
    v.sort();
    v
}

#[test]
fn topology_sets_neighbors_and_acks() {
    let mut node = node_n1();
    assert!(node.neighbors().is_empty());
    let out = node.handle_msg(topology_msg()).unwrap();
    assert_eq!(node.neighbors(), &vec![s("n2"), s("n3")]);
    assert_eq!(out.len(), 1);
    assert_eq!(out[0].src, "n1");
    assert_eq!(out[0].dest, "c1");
    assert_eq!(out[0].body.in_reply_to, Some(0));
    assert_eq!(out[0].body.msg_id, Some(1));
    assert!(matches!(out[0].body.payload, BroadcastPayload::TopologyOk));
}

#[test]
fn later_topology_replaces_neighbors() {
    let mut node = configured_n1();
    let topology = vec![(s("n2"), vec![s("n1")]), (s("n1"), vec![s("n4")])];
    node.handle_msg(envelope("c2", "n1", Some(5), BroadcastPayload::Topology { topology })).unwrap();
    assert_eq!(node.neighbors(), &vec![s("n4")]);
}

#[test]
fn topology_without_own_entry_is_fatal() {
    let mut node = node_n1();
    let topology = vec![(s("n2"), vec![s("n3")])];
    let r = node.handle_msg(envelope("c1", "n1", Some(0), BroadcastPayload::Topology { topology }));
    assert_eq!(r.unwrap_err(), Fault::MissingTopologyEntry);
    assert!(node.neighbors().is_empty());
}

#[test]
fn first_broadcast_floods_and_acks_client() {
    let mut node = configured_n1();
    let out = node.handle_msg(envelope("c1", "n1", Some(7), BroadcastPayload::Broadcast { message: 42 })).unwrap();
    assert_eq!(out.len(), 3);
    assert_eq!((out[0].src.as_str(), out[0].dest.as_str()), ("n1", "n2"));
    assert_eq!((out[1].src.as_str(), out[1].dest.as_str()), ("n1", "n3"));
    for f in &out[..2] {
        assert!(matches!(f.body.payload, BroadcastPayload::Broadcast { message: 42 }));
        assert_eq!(f.body.msg_id, Some(7));
    }
    assert_eq!((out[2].src.as_str(), out[2].dest.as_str()), ("n1", "c1"));
    assert!(matches!(out[2].body.payload, BroadcastPayload::BroadcastOk));
    assert_eq!(out[2].body.in_reply_to, Some(7));
    assert_eq!(out[2].body.msg_id, Some(2));
    assert_eq!(node.values(), vec![42]);
}

#[test]
fn duplicate_broadcast_only_acks() {
    let mut node = configured_n1();
    node.handle_msg(envelope("c1", "n1", Some(0), BroadcastPayload::Broadcast { message: 42 })).unwrap();
    let out = node.handle_msg(envelope("c1", "n1", Some(0), BroadcastPayload::Broadcast { message: 42 })).unwrap();
    assert_eq!(out.len(), 1);
    assert_eq!(out[0].dest, "c1");
    assert!(matches!(out[0].body.payload, BroadcastPayload::BroadcastOk));
    assert_eq!(node.values(), vec![42]);
}

#[test]
fn repeated_delivery_forwards_once() {
    let mut node = configured_n1();
    let mut forwarded = 0;
    for _ in 0..5 {
        let out = node.handle_msg(envelope("c1", "n1", Some(3), BroadcastPayload::Broadcast { message: 9 })).unwrap();
        forwarded += out.iter().filter(|m| matches!(m.body.payload, BroadcastPayload::Broadcast { .. })).count();
        assert_eq!(node.values(), vec![9]);
    }
    assert_eq!(forwarded, 2);
}

#[test]
fn read_returns_seen_values() {
    let mut node = configured_n1();
    node.handle_msg(envelope("c1", "n1", Some(0), BroadcastPayload::Broadcast { message: 42 })).unwrap();
    let out = node.handle_msg(envelope("c1", "n1", Some(4), BroadcastPayload::Read)).unwrap();
    assert_eq!(out.len(), 1);
    assert_eq!((out[0].src.as_str(), out[0].dest.as_str()), ("n1", "c1"));
    assert_eq!(out[0].body.in_reply_to, Some(4));
    match &out[0].body.payload {
        BroadcastPayload::ReadOk { messages } => assert_eq!(messages, &vec![42]),
        _ => panic!("expected read_ok"),
    }
}

#[test]
fn read_holds_each_value_once() {
    let mut node = configured_n1();
    for v in [5, 1, 5, 3, 1] {
        node.handle_msg(envelope("c1", "n1", None, BroadcastPayload::Broadcast { message: v })).unwrap();
    }
    let out = node.handle_msg(envelope("c1", "n1", None, BroadcastPayload::Read)).unwrap();
    match &out[0].body.payload {
        BroadcastPayload::ReadOk { messages } => assert_eq!(sorted(messages.clone()), vec![1, 3, 5]),
        _ => panic!("expected read_ok"),
    }
}

#[test]
fn peer_broadcast_is_not_sent_back_or_acked() {
    let mut node = configured_n1();
    let out = node.handle_msg(envelope("n2", "n1", Some(1), BroadcastPayload::Broadcast { message: 8 })).unwrap();
    assert_eq!(out.len(), 1);
    assert_eq!(out[0].dest, "n3");
    assert!(matches!(out[0].body.payload, BroadcastPayload::Broadcast { message: 8 }));
    let again = node.handle_msg(envelope("n3", "n1", Some(1), BroadcastPayload::Broadcast { message: 8 })).unwrap();
    assert!(again.is_empty());
}

#[test]
fn inbound_broadcast_ok_is_ignored() {
    let mut node = configured_n1();
    let out = node.handle_msg(envelope("n2", "n1", None, BroadcastPayload::BroadcastOk)).unwrap();
    assert!(out.is_empty());
    assert!(node.values().is_empty());
}

#[test]
fn unrequested_replies_are_fatal() {
    let mut node = configured_n1();
    let r = node.handle_msg(envelope("n2", "n1", None, BroadcastPayload::TopologyOk));
    assert_eq!(r.unwrap_err(), Fault::UnexpectedReply);
    let r = node.handle_msg(envelope("n2", "n1", None, BroadcastPayload::ReadOk { messages: vec![1] }));
    assert_eq!(r.unwrap_err(), Fault::UnexpectedReply);
}
