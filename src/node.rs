//! The node engine: per-process state and the handler that answers each
//! inbound message with exactly one reply or an error.
use vstd::prelude::*;
use unique_id::Generator;
use crate::protocol::{is_request, reply_kind_of, Message, MessageType, Payload, ReplyKind};

verus! {

/// Why a message could not be handled.
#[derive(Clone, Copy, Debug, PartialEq, Eq, Structural)]
pub enum HandlerError {
    /// The node was sent a reply variant, which it never answers.
    UnexpectedReply(ReplyKind),
}

/// What a node is, mathematically: the number its next reply carries, and the
/// values recorded so far in arrival order.
pub ghost struct NodeView {
    pub next_msg_id: nat,
    pub recorded_values: Seq<usize>,
}

/// The node's state right after startup.
pub open spec fn initial_view() -> NodeView {
    NodeView { next_msg_id: 1, recorded_values: Seq::empty() }
}

/// The state after handling one inbound variant: a request consumes one
/// sequence number, a broadcast also appends its value; a reply variant
/// changes nothing.
pub open spec fn next_state(n: NodeView, t: MessageType) -> NodeView {
    match t {
        MessageType::Broadcast { message } => NodeView {
            next_msg_id: n.next_msg_id + 1,
            recorded_values: n.recorded_values.push(message),
        },
        _ => if is_request(t) {
            NodeView { next_msg_id: n.next_msg_id + 1, recorded_values: n.recorded_values }
        } else {
            n
        },
    }
}

/// `r` is the variant that answers request `t` on state `n`, where `fresh` is the
/// identifier handed out for a `generate`.
pub open spec fn answers_variant(n: NodeView, t: MessageType, fresh: u128, r: MessageType) -> bool {
    match t {
        MessageType::Init { .. } => r is InitOk,
        MessageType::Echo { echo } => r matches MessageType::EchoOk { echo: e } && e == echo,
        MessageType::Generate => r matches MessageType::GenerateOk { id } && id == fresh,
        MessageType::Broadcast { .. } => r is BroadcastOk,
        MessageType::Read => r matches MessageType::ReadOk { messages } && messages@
            == n.recorded_values,
        MessageType::Topology { .. } => r is TopologyOk,
        _ => false,
    }
}

/// `reply` answers `request` on state `n`: it goes back the way the request
/// came, carries the node's next sequence number, correlates to the request's
/// own number, and has the variant that the request calls for.
pub open spec fn answers(n: NodeView, request: Message, fresh: u128, reply: Message) -> bool {
    &&& reply.src == request.dest
    &&& reply.dest == request.src
    &&& reply.body.msg_id matches Some(id) && id as nat == n.next_msg_id
    &&& reply.body.in_reply_to == request.body.msg_id
    &&& answers_variant(n, request.body.message_type, fresh, reply.body.message_type)
}

/// Relies on unique_id's `RandomGenerator::next_id`, which returns the bits of
/// a freshly drawn version-4 UUID; nothing is promised of its value.
#[verifier::external_body]
fn fresh_id() -> (r: u128) {
    unique_id::random::RandomGenerator::default().next_id()
}

/// Process-wide state, changed only by handling messages.
pub struct Node {
    next_msg_id: usize,
    recorded_values: Vec<usize>,
}

impl View for Node {
    type V = NodeView;

    closed spec fn view(&self) -> NodeView {
        NodeView { next_msg_id: self.next_msg_id as nat, recorded_values: self.recorded_values@ }
    }
}

impl Node {
    /// A node at startup: sequence numbers start at 1, nothing recorded.
    pub fn new() -> (r: Node)
        ensures
            r@ == initial_view(),
    {
        Node { next_msg_id: 1, recorded_values: Vec::new() }
    }

    /// The sequence number the next reply will carry.
    pub fn next_msg_id(&self) -> (r: usize)
        ensures
            r as nat == self@.next_msg_id,
    {
        self.next_msg_id
    }

    /// The values recorded by `broadcast`, in arrival order.
    pub fn recorded_values(&self) -> (r: &Vec<usize>)
        ensures
            r@ == self@.recorded_values,
    {
        &self.recorded_values
    }

    /// Answers `message`, with `fresh` as the identifier a `generate` hands out.
    /// A request gets exactly one reply; a reply variant is refused and leaves
    /// the node as it was.
    pub fn handle_with_id(&mut self, message: Message, fresh: u128) -> (r: Result<
        Message,
        HandlerError,
    >)
        requires
            old(self)@.next_msg_id < usize::MAX,
        ensures
            final(self)@ == next_state(old(self)@, message.body.message_type),
            match reply_kind_of(message.body.message_type) {
                Some(kind) => r == Err::<Message, HandlerError>(HandlerError::UnexpectedReply(kind)),
                None => r matches Ok(reply) && answers(old(self)@, message, fresh, reply),
            },
    {
        if let Some(kind) = message.body.message_type.reply_kind() {
            return Err(HandlerError::UnexpectedReply(kind));
        }
        let id = self.next_msg_id;
        let reply_type = match message.body.message_type {
            MessageType::Echo { echo } => MessageType::EchoOk { echo },
            MessageType::Generate => MessageType::GenerateOk { id: fresh },
            MessageType::Broadcast { message: value } => {
                self.recorded_values.push(value);
                MessageType::BroadcastOk
            },
            MessageType::Read => MessageType::ReadOk { messages: self.recorded_values.clone() },
            MessageType::Topology { .. } => MessageType::TopologyOk,
            // `init`: the reply variants were refused above.
            _ => MessageType::InitOk,
        };
        self.next_msg_id = id + 1;
        Ok(
            Message {
                src: message.dest,
                dest: message.src,
                body: Payload {
                    msg_id: Some(id),
                    in_reply_to: message.body.msg_id,
                    message_type: reply_type,
                },
            },
        )
    }

    /// Answers `message`; a `generate` is answered with an identifier drawn
    /// from the random identifier source, whatever value that gives.
    pub fn handle(&mut self, message: Message) -> (r: Result<Message, HandlerError>)
        requires
            old(self)@.next_msg_id < usize::MAX,
        ensures
            final(self)@ == next_state(old(self)@, message.body.message_type),
            match reply_kind_of(message.body.message_type) {
                Some(kind) => r == Err::<Message, HandlerError>(HandlerError::UnexpectedReply(kind)),
                None => r matches Ok(reply) && exists|fresh: u128|
                    answers(old(self)@, message, fresh, reply),
            },
    {
        let fresh: u128 = match message.body.message_type {
            MessageType::Generate => fresh_id(),
            _ => 0,
        };
        self.handle_with_id(message, fresh)
    }
}

} // verus!
