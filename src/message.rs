use vstd::prelude::*;

use crate::ident::{process_eq_text, Address, ProcessId};

verus! {

/// A grantable permission, issued by an address and described by its parameters.
#[derive(Debug)]
pub struct Capability {
    pub issuer: Address,
    pub params: String,
}

/// An out-of-band attachment to a request or a response.
#[derive(Debug)]
pub struct Payload {
    pub mime: Option<String>,
    pub bytes: Vec<u8>,
}

/// Why the transport could not obtain a response.
#[derive(Clone, Copy, Debug, PartialEq, Eq, Structural)]
pub enum SendErrorKind {
    Offline,
    Timeout,
}

/// A failed send, with the address it was meant for.
#[derive(Debug)]
pub struct SendError {
    pub kind: SendErrorKind,
    pub target: Address,
}

/// The fields of a request as the transport carries it.
#[derive(Debug)]
pub struct WireRequest {
    pub inherit: bool,
    pub expects_response: Option<u64>,
    pub body: Vec<u8>,
    pub metadata: Option<String>,
}

/// The fields of a response as the transport carries it.
#[derive(Debug)]
pub struct WireResponse {
    pub inherit: bool,
    pub body: Vec<u8>,
    pub metadata: Option<String>,
}

/// A received message: a request or a response.
#[derive(Debug)]
pub enum Message {
    Request {
        source: Address,
        expects_response: Option<u64>,
        body: Vec<u8>,
        metadata: Option<String>,
        capabilities: Vec<Capability>,
    },
    Response {
        source: Address,
        body: Vec<u8>,
        metadata: Option<String>,
        context: Option<Vec<u8>>,
        capabilities: Vec<Capability>,
    },
}

/// The text view of an optional string.
pub open spec fn opt_text(s: Option<String>) -> Option<Seq<char>> {
    match s {
        Some(t) => Some(t@),
        None => None,
    }
}

/// The byte view of an optional byte vector.
pub open spec fn opt_bytes(b: Option<Vec<u8>>) -> Option<Seq<u8>> {
    match b {
        Some(v) => Some(v@),
        None => None,
    }
}

impl Message {
    pub open spec fn spec_source(&self) -> Address {
        match self {
            Message::Request { source, .. } => *source,
            Message::Response { source, .. } => *source,
        }
    }

    pub open spec fn spec_body(&self) -> Seq<u8> {
        match self {
            Message::Request { body, .. } => body@,
            Message::Response { body, .. } => body@,
        }
    }

    pub open spec fn spec_metadata(&self) -> Option<Seq<char>> {
        match self {
            Message::Request { metadata, .. } => opt_text(*metadata),
            Message::Response { metadata, .. } => opt_text(*metadata),
        }
    }

    /// The context echoed with a response; a request has none.
    pub open spec fn spec_context(&self) -> Option<Seq<u8>> {
        match self {
            Message::Request { .. } => None,
            Message::Response { context, .. } => opt_bytes(*context),
        }
    }

    pub open spec fn spec_capabilities(&self) -> Seq<Capability> {
        match self {
            Message::Request { capabilities, .. } => capabilities@,
            Message::Response { capabilities, .. } => capabilities@,
        }
    }

    pub fn source(&self) -> (r: &Address)
        ensures
            *r == self.spec_source(),
    {
        match self {
            Message::Request { source, .. } => source,
            Message::Response { source, .. } => source,
        }
    }

    pub fn body(&self) -> (r: &[u8])
        ensures
            r@ == self.spec_body(),
    {
        match self {
            Message::Request { body, .. } => body.as_slice(),
            Message::Response { body, .. } => body.as_slice(),
        }
    }

    pub fn metadata(&self) -> (r: Option<&str>)
        ensures
            r is Some <==> self.spec_metadata() is Some,
            r is Some ==> r->Some_0@ == self.spec_metadata()->Some_0,
    {
        let m = match self {
            Message::Request { metadata, .. } => metadata,
            Message::Response { metadata, .. } => metadata,
        };
        match m {
            Some(s) => Some(s.as_str()),
            None => None,
        }
    }

    /// The context of a response; always absent for a request.
    pub fn context(&self) -> (r: Option<&[u8]>)
        ensures
            r is Some <==> self.spec_context() is Some,
            r is Some ==> r->Some_0@ == self.spec_context()->Some_0,
            self is Request ==> r is None,
    {
        match self {
            Message::Request { .. } => None,
            Message::Response { context, .. } => match context {
                Some(c) => Some(c.as_slice()),
                None => None,
            },
        }
    }

    pub fn capabilities(&self) -> (r: &Vec<Capability>)
        ensures
            r@ == self.spec_capabilities(),
    {
        match self {
            Message::Request { capabilities, .. } => capabilities,
            Message::Response { capabilities, .. } => capabilities,
        }
    }

    pub fn is_request(&self) -> (r: bool)
        ensures
            r == (self is Request),
    {
        match self {
            Message::Request { .. } => true,
            Message::Response { .. } => false,
        }
    }

    /// Whether the message came from the node of `our`.
    pub fn is_local(&self, our: &Address) -> (r: bool)
        ensures
            r == (self.spec_source().node@ == our.node@),
    {
        self.source().node == our.node
    }

    /// Whether the message came from `process`.
    pub fn is_process(&self, process: &ProcessId) -> (r: bool)
        ensures
            r == self.spec_source().process.same_fields(process),
    {
        self.source().process == *process
    }

    /// Whether the message came from the process written as `process`.
    pub fn is_process_str(&self, process: &str) -> (r: bool)
        ensures
            r == process_eq_text(self.spec_source().process, process@),
    {
        self.source().process.eq_str(process)
    }
}

/// A message as the transport delivers it, before its source is attached.
#[derive(Debug)]
pub enum WireMessage {
    Request { request: WireRequest, capabilities: Vec<Capability> },
    Response {
        response: WireResponse,
        context: Option<Vec<u8>>,
        capabilities: Vec<Capability>,
    },
}

/// The message that `message`, delivered from `source`, stands for. A request
/// keeps its timeout and never gains a context; a response keeps the context
/// the transport echoed.
pub fn wire_message_to_message(source: Address, message: WireMessage) -> (r: Message)
    ensures
        match message {
            WireMessage::Request { request, capabilities } => r == Message::Request {
                source,
                expects_response: request.expects_response,
                body: request.body,
                metadata: request.metadata,
                capabilities,
            },
            WireMessage::Response { response, context, capabilities } => r == Message::Response {
                source,
                body: response.body,
                metadata: response.metadata,
                context,
                capabilities,
            },
        },
{
    match message {
        WireMessage::Request { request, capabilities } => Message::Request {
            source,
            expects_response: request.expects_response,
            body: request.body,
            metadata: request.metadata,
            capabilities,
        },
        WireMessage::Response { response, context, capabilities } => Message::Response {
            source,
            body: response.body,
            metadata: response.metadata,
            context,
            capabilities,
        },
    }
}

/// The context of a request is absent, whatever its other fields.
pub proof fn lemma_request_has_no_context(m: Message)
    requires
        m is Request,
    ensures
        m.spec_context() is None,
{
}

/// A received message together with the attachment that came with it, which
/// can be taken once.
pub struct Delivery {
    message: Message,
    blob: Option<Payload>,
}

impl Delivery {
    pub closed spec fn spec_blob(&self) -> Option<Payload> {
        self.blob
    }

    pub closed spec fn spec_message(&self) -> Message {
        self.message
    }

    pub fn new(message: Message, blob: Option<Payload>) -> (r: Self)
        ensures
            r.spec_message() == message,
            r.spec_blob() == blob,
    {
        Delivery { message, blob }
    }

    /// The attachment of the message; later calls find none.
    pub fn blob(&mut self) -> (r: Option<Payload>)
        ensures
            r == old(self).spec_blob(),
            final(self).spec_blob() is None,
            final(self).spec_message() == old(self).spec_message(),
    {
        self.blob.take()
    }

    pub fn message(&self) -> (r: &Message)
        ensures
            *r == self.spec_message(),
    {
        &self.message
    }
}

} // verus!
