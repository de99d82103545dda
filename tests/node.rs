use cluster_node::node::{HandlerError, Node};
use cluster_node::protocol::{Message, MessageType, Payload, ReplyKind};

fn request(msg_id: Option<usize>, message_type: MessageType) -> Message {
    Message {
        src: "c1".to_string(),
        dest: "n1".to_string(),
        body: Payload { msg_id, in_reply_to: None, message_type },
    }
}

fn init() -> MessageType {
    MessageType::Init { node_id: "n1".to_string(), node_ids: vec!["n1".to_string()] }
}

fn topology() -> MessageType {
    let value: serde_json::Value =
        serde_json::from_str(r#"{"n1":["n2","n3"],"n2":["n1"],"n3":["n1"]}"#).unwrap();
    MessageType::Topology { topology: value }
}

fn read_messages(node: &mut Node, msg_id: usize) -> Vec<usize> {
    let reply = node.handle(request(Some(msg_id), MessageType::Read)).unwrap();
    match reply.body.message_type {
        MessageType::ReadOk { messages } => messages,
        other => panic!("expected read_ok, got {:?}", other),
    }
}

#[test]
fn new_node_starts_at_one_with_nothing_recorded() {
    let node = Node::new();
    assert_eq!(node.next_msg_id(), 1);
    assert!(node.recorded_values().is_empty());
}

#[test]
fn init_is_answered_with_init_ok() {
    let mut node = Node::new();
    let reply = node.handle(request(Some(1), init())).unwrap();
    assert_eq!(reply.src, "n1");
    assert_eq!(reply.dest, "c1");
    assert_eq!(reply.body.msg_id, Some(1));
    assert_eq!(reply.body.in_reply_to, Some(1));
    assert!(matches!(reply.body.message_type, MessageType::InitOk));
}

#[test]
fn echo_after_init_carries_second_msg_id() {
    let mut node = Node::new();
    node.handle(request(Some(1), init())).unwrap();
    let reply = node
        .handle(request(Some(2), MessageType::Echo { echo: "hello".to_string() }))
        .unwrap();
    assert_eq!(reply.body.msg_id, Some(2));
    assert_eq!(reply.body.in_reply_to, Some(2));
    match reply.body.message_type {
        MessageType::EchoOk { echo } => assert_eq!(echo, "hello"),
        other => panic!("expected echo_ok, got {:?}", other),
    }
    assert_eq!(node.next_msg_id(), 3);
}

#[test]
fn echo_returns_the_string_unchanged() {
    for text in ["", "hello", "h\u{e9}llo \"quoted\"\n\u{1f600}"] {
        let mut node = Node::new();
        let reply = node
            .handle(request(Some(4), MessageType::Echo { echo: text.to_string() }))
            .unwrap();
        match reply.body.message_type {
            MessageType::EchoOk { echo } => assert_eq!(echo, text),
            other => panic!("expected echo_ok, got {:?}", other),
        }
    }
}

#[test]
fn topology_then_read_gives_empty_messages() {
    let mut node = Node::new();
    let reply = node.handle(request(Some(1), topology())).unwrap();
    assert!(matches!(reply.body.message_type, MessageType::TopologyOk));
    assert_eq!(reply.body.msg_id, Some(1));
    assert_eq!(read_messages(&mut node, 2), Vec::<usize>::new());
}

#[test]
fn broadcasts_are_read_back_in_order_with_duplicates() {
    let mut node = Node::new();
    for (k, value) in [5usize, 3, 5].into_iter().enumerate() {
        let reply = node.handle(request(Some(10 + k), MessageType::Broadcast { message: value })).unwrap();
        assert!(matches!(reply.body.message_type, MessageType::BroadcastOk));
        assert_eq!(reply.body.in_reply_to, Some(10 + k));
    }
    assert_eq!(read_messages(&mut node, 20), vec![5, 3, 5]);
    assert_eq!(node.recorded_values(), &vec![5, 3, 5]);
}

#[test]
fn read_snapshot_is_not_changed_by_later_broadcasts() {
    let mut node = Node::new();
    node.handle(request(Some(1), MessageType::Broadcast { message: 7 })).unwrap();
    let first = read_messages(&mut node, 2);
    node.handle(request(Some(3), MessageType::Broadcast { message: 8 })).unwrap();
    assert_eq!(first, vec![7]);
    assert_eq!(read_messages(&mut node, 4), vec![7, 8]);
}

#[test]
fn msg_ids_start_at_one_and_increase() {
    let mut node = Node::new();
    let requests = vec![
        request(Some(1), init()),
        request(None, topology()),
        request(Some(30), MessageType::Echo { echo: "x".to_string() }),
        request(Some(31), MessageType::Generate),
        request(Some(32), MessageType::Broadcast { message: 9 }),
        request(Some(33), MessageType::Read),
    ];
    let mut seen = Vec::new();
    for message in requests {
        let asked = message.body.msg_id;
        let reply = node.handle(message).unwrap();
        assert_eq!(reply.body.in_reply_to, asked);
        seen.push(reply.body.msg_id.unwrap());
    }
    assert_eq!(seen, vec![1, 2, 3, 4, 5, 6]);
}

#[test]
fn refused_reply_variant_leaves_counter_alone() {
    let mut node = Node::new();
    node.handle(request(Some(1), init())).unwrap();
    let err = node.handle(request(Some(2), MessageType::InitOk)).unwrap_err();
    assert_eq!(err, HandlerError::UnexpectedReply(ReplyKind::InitOk));
    let reply = node.handle(request(Some(3), MessageType::Read)).unwrap();
    assert_eq!(reply.body.msg_id, Some(2));
}

#[test]
fn every_reply_variant_is_refused() {
    let cases = vec![
        (MessageType::InitOk, ReplyKind::InitOk),
        (MessageType::EchoOk { echo: "e".to_string() }, ReplyKind::EchoOk),
        (MessageType::GenerateOk { id: 4 }, ReplyKind::GenerateOk),
        (MessageType::BroadcastOk, ReplyKind::BroadcastOk),
        (MessageType::ReadOk { messages: vec![1] }, ReplyKind::ReadOk),
        (MessageType::TopologyOk, ReplyKind::TopologyOk),
    ];
    for (message_type, kind) in cases {
        let mut node = Node::new();
        let result = node.handle(request(Some(1), message_type));
        assert_eq!(result.unwrap_err(), HandlerError::UnexpectedReply(kind));
        assert_eq!(node.next_msg_id(), 1);
        assert!(node.recorded_values().is_empty());
    }
}

#[test]
fn reply_kind_tells_requests_from_replies() {
    assert_eq!(MessageType::Generate.reply_kind(), None);
    assert_eq!(MessageType::Read.reply_kind(), None);
    assert_eq!(MessageType::BroadcastOk.reply_kind(), Some(ReplyKind::BroadcastOk));
    assert_eq!(MessageType::GenerateOk { id: 1 }.reply_kind(), Some(ReplyKind::GenerateOk));
}

#[test]
fn generate_hands_out_the_given_identifier() {
    let mut node = Node::new();
    let reply = node.handle_with_id(request(Some(5), MessageType::Generate), 42).unwrap();
    assert_eq!(reply.body.msg_id, Some(1));
    assert_eq!(reply.body.in_reply_to, Some(5));
    assert!(matches!(reply.body.message_type, MessageType::GenerateOk { id: 42 }));
}

#[test]
fn generated_identifiers_are_pairwise_distinct() {
    let mut node = Node::new();
    let mut ids = Vec::new();
    for k in 0..200usize {
        let reply = node.handle(request(Some(k), MessageType::Generate)).unwrap();
        match reply.body.message_type {
            MessageType::GenerateOk { id } => ids.push(id),
            other => panic!("expected generate_ok, got {:?}", other),
        }
    }
    let mut sorted = ids.clone();
    sorted.sort();
    sorted.dedup();
    assert_eq!(sorted.len(), ids.len());
}

#[test]
fn reply_tags_use_wire_spelling() {
    assert_eq!(ReplyKind::InitOk.tag(), "init_ok");
    assert_eq!(ReplyKind::EchoOk.tag(), "echo_ok");
    assert_eq!(ReplyKind::GenerateOk.tag(), "generate_ok");
    assert_eq!(ReplyKind::BroadcastOk.tag(), "broadcast_ok");
    assert_eq!(ReplyKind::ReadOk.tag(), "read_ok");
    assert_eq!(ReplyKind::TopologyOk.tag(), "topology_ok");
}
