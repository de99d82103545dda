//! The message envelope, its payload and the closed set of payload variants.
use vstd::prelude::*;

verus! {

/// Declares `serde_json::Value` so that a topology announcement can carry it
/// through unread.
#[verifier::external_type_specification]
#[verifier::external_body]
pub struct ExValue(serde_json::Value);

/// The variants that only ever travel from a node back to its caller.
#[derive(Clone, Copy, Debug, PartialEq, Eq, Structural)]
pub enum ReplyKind {
    InitOk,
    EchoOk,
    GenerateOk,
    BroadcastOk,
    ReadOk,
    TopologyOk,
}

/// The type-specific part of a payload; exactly one variant is active.
#[derive(Debug)]
pub enum MessageType {
    Init { node_id: String, node_ids: Vec<String> },
    InitOk,
    Echo { echo: String },
    EchoOk { echo: String },
    Generate,
    GenerateOk { id: u128 },
    Broadcast { message: usize },
    BroadcastOk,
    Read,
    ReadOk { messages: Vec<usize> },
    Topology { topology: serde_json::Value },
    TopologyOk,
}

/// Sequence numbers of a payload, and its variant.
#[derive(Debug)]
pub struct Payload {
    pub msg_id: Option<usize>,
    pub in_reply_to: Option<usize>,
    pub message_type: MessageType,
}

/// The envelope: who sent it, to whom, and what it says.
#[derive(Debug)]
pub struct Message {
    pub src: String,
    pub dest: String,
    pub body: Payload,
}

/// The reply kind of a variant that only travels outbound, `None` for a request.
pub open spec fn reply_kind_of(t: MessageType) -> Option<ReplyKind> {
    match t {
        MessageType::InitOk => Some(ReplyKind::InitOk),
        MessageType::EchoOk { .. } => Some(ReplyKind::EchoOk),
        MessageType::GenerateOk { .. } => Some(ReplyKind::GenerateOk),
        MessageType::BroadcastOk => Some(ReplyKind::BroadcastOk),
        MessageType::ReadOk { .. } => Some(ReplyKind::ReadOk),
        MessageType::TopologyOk => Some(ReplyKind::TopologyOk),
        _ => None,
    }
}

/// A request is a variant that a node is asked to answer.
pub open spec fn is_request(t: MessageType) -> bool {
    reply_kind_of(t) is None
}

/// The wire spelling of a reply variant's tag.
pub open spec fn reply_tag_of(kind: ReplyKind) -> Seq<char> {
    match kind {
        ReplyKind::InitOk => "init_ok"@,
        ReplyKind::EchoOk => "echo_ok"@,
        ReplyKind::GenerateOk => "generate_ok"@,
        ReplyKind::BroadcastOk => "broadcast_ok"@,
        ReplyKind::ReadOk => "read_ok"@,
        ReplyKind::TopologyOk => "topology_ok"@,
    }
}

impl ReplyKind {
    /// The tag that names this variant on the wire.
    pub fn tag(&self) -> (r: &'static str)
        ensures
            r@ == reply_tag_of(*self),
    {
        match self {
            ReplyKind::InitOk => "init_ok",
            ReplyKind::EchoOk => "echo_ok",
            ReplyKind::GenerateOk => "generate_ok",
            ReplyKind::BroadcastOk => "broadcast_ok",
            ReplyKind::ReadOk => "read_ok",
            ReplyKind::TopologyOk => "topology_ok",
        }
    }
}

impl MessageType {
    /// Tells the reply variants apart from the requests.
    pub fn reply_kind(&self) -> (r: Option<ReplyKind>)
        ensures
            r == reply_kind_of(*self),
    {
        match self {
            MessageType::InitOk => Some(ReplyKind::InitOk),
            MessageType::EchoOk { .. } => Some(ReplyKind::EchoOk),
            MessageType::GenerateOk { .. } => Some(ReplyKind::GenerateOk),
            MessageType::BroadcastOk => Some(ReplyKind::BroadcastOk),
            MessageType::ReadOk { .. } => Some(ReplyKind::ReadOk),
            MessageType::TopologyOk => Some(ReplyKind::TopologyOk),
            _ => None,
        }
    }
}

} // verus!
