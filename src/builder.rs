use vstd::prelude::*;

use crate::ident::{Address, AddressParseError, IntoAddress};
use crate::message::{Capability, Message, Payload, SendError, WireRequest, WireResponse};

verus! {

/// Why a request or a response could not be finished or unpacked.
#[derive(Clone, Copy, Debug, PartialEq, Eq, Structural)]
pub enum RequestError {
    /// A request needs a target and a body before it is sent.
    MissingFields,
    /// A response needs a body before it is sent.
    MissingIpc,
    /// A response was awaited and a request came back.
    DidNotReceiveResponse,
}

/// A finished request, ready for the transport.
#[derive(Debug)]
pub struct OutgoingRequest {
    pub target: Address,
    pub request: WireRequest,
    pub context: Option<Vec<u8>>,
    pub payload: Option<Payload>,
}

/// A finished response, ready for the transport.
#[derive(Debug)]
pub struct OutgoingResponse {
    pub response: WireResponse,
    pub payload: Option<Payload>,
}

/// The fields of a received response.
#[derive(Debug)]
pub struct ReceivedResponse {
    pub body: Vec<u8>,
    pub metadata: Option<String>,
    pub capabilities: Vec<Capability>,
}

/// The attachment after its bytes are set: the type stays.
pub open spec fn payload_with_bytes(p: Option<Payload>, bytes: Vec<u8>) -> Option<Payload> {
    match p {
        Some(old) => Some(Payload { mime: old.mime, bytes }),
        None => Some(Payload { mime: None, bytes }),
    }
}

fn set_mime(p: Option<Payload>, mime: String) -> (r: Option<Payload>)
    ensures
        r is Some,
        r->Some_0.mime == Some(mime),
        p is Some ==> r->Some_0.bytes == p->Some_0.bytes,
        p is None ==> r->Some_0.bytes@.len() == 0,
{
    match p {
        Some(old) => Some(Payload { mime: Some(mime), bytes: old.bytes }),
        None => Some(Payload { mime: Some(mime), bytes: Vec::new() }),
    }
}

fn set_bytes(p: Option<Payload>, bytes: Vec<u8>) -> (r: Option<Payload>)
    ensures
        r == payload_with_bytes(p, bytes),
{
    match p {
        Some(old) => Some(Payload { mime: old.mime, bytes }),
        None => Some(Payload { mime: None, bytes }),
    }
}

/// A request under construction.
pub struct Request {
    target: Option<Address>,
    inherit: bool,
    timeout: Option<u64>,
    ipc: Option<Vec<u8>>,
    metadata: Option<String>,
    payload: Option<Payload>,
    context: Option<Vec<u8>>,
}

impl Request {
    pub closed spec fn spec_target(&self) -> Option<Address> {
        self.target
    }

    pub closed spec fn spec_inherit(&self) -> bool {
        self.inherit
    }

    pub closed spec fn spec_timeout(&self) -> Option<u64> {
        self.timeout
    }

    pub closed spec fn spec_body(&self) -> Option<Vec<u8>> {
        self.ipc
    }

    pub closed spec fn spec_metadata(&self) -> Option<String> {
        self.metadata
    }

    pub closed spec fn spec_payload(&self) -> Option<Payload> {
        self.payload
    }

    pub closed spec fn spec_context(&self) -> Option<Vec<u8>> {
        self.context
    }

    /// Whether `other` agrees with this request on every field but those named.
    pub open spec fn keeps(
        &self,
        other: &Request,
        target: bool,
        inherit: bool,
        timeout: bool,
        body: bool,
        metadata: bool,
        payload: bool,
        context: bool,
    ) -> bool {
        &&& target || other.spec_target() == self.spec_target()
        &&& inherit || other.spec_inherit() == self.spec_inherit()
        &&& timeout || other.spec_timeout() == self.spec_timeout()
        &&& body || other.spec_body() == self.spec_body()
        &&& metadata || other.spec_metadata() == self.spec_metadata()
        &&& payload || other.spec_payload() == self.spec_payload()
        &&& context || other.spec_context() == self.spec_context()
    }

    pub fn new() -> (r: Self)
        ensures
            r.spec_target() is None,
            !r.spec_inherit(),
            r.spec_timeout() is None,
            r.spec_body() is None,
            r.spec_metadata() is None,
            r.spec_payload() is None,
            r.spec_context() is None,
    {
        Request {
            target: None,
            inherit: false,
            timeout: None,
            ipc: None,
            metadata: None,
            payload: None,
            context: None,
        }
    }

    /// Targets the address named by `target`, an address or its text.
    pub fn target<T: IntoAddress>(self, target: T) -> (r: Result<Self, AddressParseError>)
        ensures
            match (r, target.address_fields()) {
                (Ok(q), Ok(f)) => {
                    &&& q.spec_target() is Some
                    &&& q.spec_target()->Some_0.node@ == f.0
                    &&& q.spec_target()->Some_0.process.process_name@ == f.1
                    &&& q.spec_target()->Some_0.process.package_name@ == f.2
                    &&& q.spec_target()->Some_0.process.publisher_node@ == f.3
                    &&& self.keeps(&q, true, false, false, false, false, false, false)
                },
                (Err(e), Err(g)) => e == g,
                _ => false,
            },
    {
        match target.into_address() {
            Ok(a) => Ok(Request { target: Some(a), ..self }),
            Err(e) => Err(e),
        }
    }

    pub fn inherit(self, inherit: bool) -> (r: Self)
        ensures
            r.spec_inherit() == inherit,
            self.keeps(&r, false, true, false, false, false, false, false),
    {
        Request { inherit, ..self }
    }

    pub fn expects_response(self, timeout: u64) -> (r: Self)
        ensures
            r.spec_timeout() == Some(timeout),
            self.keeps(&r, false, false, true, false, false, false, false),
    {
        Request { timeout: Some(timeout), ..self }
    }

    pub fn ipc_bytes(self, ipc: Vec<u8>) -> (r: Self)
        ensures
            r.spec_body() == Some(ipc),
            self.keeps(&r, false, false, false, true, false, false, false),
    {
        Request { ipc: Some(ipc), ..self }
    }

    /// Sets the body to what `serializer` makes of `ipc`; a failure of the
    /// serializer is handed back.
    pub fn ipc<T, E, F: Fn(&T) -> Result<Vec<u8>, E>>(self, ipc: &T, serializer: F) -> (r: Result<
        Self,
        E,
    >)
        requires
            serializer.requires((ipc,)),
        ensures
            exists|out: Result<Vec<u8>, E>|
                #[trigger] serializer.ensures((ipc,), out) && match (out, r) {
                    (Ok(b), Ok(q)) => q.spec_body() == Some(b) && self.keeps(
                        &q,
                        false,
                        false,
                        false,
                        true,
                        false,
                        false,
                        false,
                    ),
                    (Err(e), Err(g)) => e == g,
                    _ => false,
                },
    {
        let out = serializer(ipc);
        let ghost seen = out;
        match out {
            Ok(b) => {
                let q = Request { ipc: Some(b), ..self };
                assert(serializer.ensures((ipc,), seen));
                Ok(q)
            },
            Err(e) => {
                assert(serializer.ensures((ipc,), seen));
                Err(e)
            },
        }
    }

    pub fn metadata(self, metadata: String) -> (r: Self)
        ensures
            r.spec_metadata() == Some(metadata),
            self.keeps(&r, false, false, false, false, true, false, false),
    {
        Request { metadata: Some(metadata), ..self }
    }

    pub fn payload(self, payload: Payload) -> (r: Self)
        ensures
            r.spec_payload() == Some(payload),
            self.keeps(&r, false, false, false, false, false, true, false),
    {
        Request { payload: Some(payload), ..self }
    }

    /// Sets the type of the attachment, keeping its bytes (none if there was
    /// no attachment).
    pub fn payload_mime(self, mime: String) -> (r: Self)
        ensures
            r.spec_payload() is Some,
            r.spec_payload()->Some_0.mime == Some(mime),
            self.spec_payload() is Some ==> r.spec_payload()->Some_0.bytes
                == self.spec_payload()->Some_0.bytes,
            self.spec_payload() is None ==> r.spec_payload()->Some_0.bytes@.len() == 0,
            self.keeps(&r, false, false, false, false, false, true, false),
    {
        let Request { target, inherit, timeout, ipc, metadata, payload, context } = self;
        Request { target, inherit, timeout, ipc, metadata, payload: set_mime(payload, mime), context }
    }

    /// Sets the bytes of the attachment, keeping its type.
    pub fn payload_bytes(self, bytes: Vec<u8>) -> (r: Self)
        ensures
            r.spec_payload() == payload_with_bytes(self.spec_payload(), bytes),
            self.keeps(&r, false, false, false, false, false, true, false),
    {
        let Request { target, inherit, timeout, ipc, metadata, payload, context } = self;
        Request { target, inherit, timeout, ipc, metadata, payload: set_bytes(payload, bytes), context }
    }

    pub fn context_bytes(self, context: Vec<u8>) -> (r: Self)
        ensures
            r.spec_context() == Some(context),
            self.keeps(&r, false, false, false, false, false, false, true),
    {
        Request { context: Some(context), ..self }
    }

    /// Sets the context to what `serializer` makes of `context`; a failure of the
    /// serializer is handed back.
    pub fn context<T, E, F: Fn(&T) -> Result<Vec<u8>, E>>(self, context: &T, serializer: F) -> (r:
        Result<Self, E>)
        requires
            serializer.requires((context,)),
        ensures
            exists|out: Result<Vec<u8>, E>|
                #[trigger] serializer.ensures((context,), out) && match (out, r) {
                    (Ok(b), Ok(q)) => q.spec_context() == Some(b) && self.keeps(
                        &q,
                        false,
                        false,
                        false,
                        false,
                        false,
                        false,
                        true,
                    ),
                    (Err(e), Err(g)) => e == g,
                    _ => false,
                },
    {
        let out = serializer(context);
        let ghost seen = out;
        match out {
            Ok(b) => {
                let q = Request { context: Some(b), ..self };
                assert(serializer.ensures((context,), seen));
                Ok(q)
            },
            Err(e) => {
                assert(serializer.ensures((context,), seen));
                Err(e)
            },
        }
    }

    /// Finishes the request for a send that awaits no response. It needs a
    /// target and a body; everything set is handed on unchanged.
    pub fn send(self) -> (r: Result<OutgoingRequest, RequestError>)
        ensures
            r is Ok <==> (self.spec_target() is Some && self.spec_body() is Some),
            r is Err ==> r->Err_0 == RequestError::MissingFields,
            r is Ok ==> {
                let o = r->Ok_0;
                &&& o.target == self.spec_target()->Some_0
                &&& o.request.inherit == self.spec_inherit()
                &&& o.request.expects_response == self.spec_timeout()
                &&& o.request.body == self.spec_body()->Some_0
                &&& o.request.metadata == self.spec_metadata()
                &&& o.context == self.spec_context()
                &&& o.payload == self.spec_payload()
            },
    {
        let Request { target, inherit, timeout, ipc, metadata, payload, context } = self;
        match (target, ipc) {
            (Some(target), Some(body)) => Ok(
                OutgoingRequest {
                    target,
                    request: WireRequest { inherit, expects_response: timeout, body, metadata },
                    context,
                    payload,
                },
            ),
            _ => Err(RequestError::MissingFields),
        }
    }

    /// Finishes the request for a send whose caller waits up to `timeout` for the
    /// response. It needs a target and a body; the context stays with the caller.
    pub fn send_and_await_response(self, timeout: u64) -> (r: Result<
        OutgoingRequest,
        RequestError,
    >)
        ensures
            r is Ok <==> (self.spec_target() is Some && self.spec_body() is Some),
            r is Err ==> r->Err_0 == RequestError::MissingFields,
            r is Ok ==> {
                let o = r->Ok_0;
                &&& o.target == self.spec_target()->Some_0
                &&& o.request.inherit == self.spec_inherit()
                &&& o.request.expects_response == Some(timeout)
                &&& o.request.body == self.spec_body()->Some_0
                &&& o.request.metadata == self.spec_metadata()
                &&& o.context is None
                &&& o.payload == self.spec_payload()
            },
    {
        let Request { target, inherit, timeout: _, ipc, metadata, payload, context: _ } = self;
        match (target, ipc) {
            (Some(target), Some(body)) => Ok(
                OutgoingRequest {
                    target,
                    request: WireRequest {
                        inherit,
                        expects_response: Some(timeout),
                        body,
                        metadata,
                    },
                    context: None,
                    payload,
                },
            ),
            _ => Err(RequestError::MissingFields),
        }
    }
}

/// What an awaited call gives back once the delivered message is taken apart:
/// the transport's error as it came, a response's source, fields and context, or
/// an error when a request came back instead.
pub fn unpack_response(reply: Result<(Address, Message), SendError>) -> (r: Result<
    Result<(Address, ReceivedResponse, Option<Vec<u8>>), SendError>,
    RequestError,
>)
    ensures
        match reply {
            Err(e) => r == Ok::<_, RequestError>(
                Err::<(Address, ReceivedResponse, Option<Vec<u8>>), SendError>(e),
            ),
            Ok((source, Message::Request { .. })) => r == Err::<
                Result<(Address, ReceivedResponse, Option<Vec<u8>>), SendError>,
                RequestError,
            >(RequestError::DidNotReceiveResponse),
            Ok(
                (source, Message::Response { body, metadata, context, capabilities, .. }),
            ) => r == Ok::<_, RequestError>(
                Ok::<_, SendError>(
                    (source, ReceivedResponse { body, metadata, capabilities }, context),
                ),
            ),
        },
{
    match reply {
        Err(e) => Ok(Err(e)),
        Ok((source, message)) => match message {
            Message::Request { .. } => Err(RequestError::DidNotReceiveResponse),
            Message::Response { source: _, body, metadata, context, capabilities } => Ok(
                Ok((source, ReceivedResponse { body, metadata, capabilities }, context)),
            ),
        },
    }
}

/// A response under construction; it goes to the sender of the request being
/// handled.
pub struct Response {
    inherit: bool,
    ipc: Option<Vec<u8>>,
    metadata: Option<String>,
    payload: Option<Payload>,
}

impl Response {
    pub closed spec fn spec_inherit(&self) -> bool {
        self.inherit
    }

    pub closed spec fn spec_body(&self) -> Option<Vec<u8>> {
        self.ipc
    }

    pub closed spec fn spec_metadata(&self) -> Option<String> {
        self.metadata
    }

    pub closed spec fn spec_payload(&self) -> Option<Payload> {
        self.payload
    }

    /// Whether `other` agrees with this response on every field but those named.
    pub open spec fn keeps(
        &self,
        other: &Response,
        inherit: bool,
        body: bool,
        metadata: bool,
        payload: bool,
    ) -> bool {
        &&& inherit || other.spec_inherit() == self.spec_inherit()
        &&& body || other.spec_body() == self.spec_body()
        &&& metadata || other.spec_metadata() == self.spec_metadata()
        &&& payload || other.spec_payload() == self.spec_payload()
    }

    pub fn new() -> (r: Self)
        ensures
            !r.spec_inherit(),
            r.spec_body() is None,
            r.spec_metadata() is None,
            r.spec_payload() is None,
    {
        Response { inherit: false, ipc: None, metadata: None, payload: None }
    }

    pub fn inherit(self, inherit: bool) -> (r: Self)
        ensures
            r.spec_inherit() == inherit,
            self.keeps(&r, true, false, false, false),
    {
        Response { inherit, ..self }
    }

    pub fn ipc_bytes(self, ipc: Vec<u8>) -> (r: Self)
        ensures
            r.spec_body() == Some(ipc),
            self.keeps(&r, false, true, false, false),
    {
        Response { ipc: Some(ipc), ..self }
    }

    /// Sets the body to what `serializer` makes of `ipc`; a failure of the
    /// serializer is handed back.
    pub fn ipc<T, E, F: Fn(&T) -> Result<Vec<u8>, E>>(self, ipc: &T, serializer: F) -> (r: Result<
        Self,
        E,
    >)
        requires
            serializer.requires((ipc,)),
        ensures
            exists|out: Result<Vec<u8>, E>|
                #[trigger] serializer.ensures((ipc,), out) && match (out, r) {
                    (Ok(b), Ok(q)) => q.spec_body() == Some(b) && self.keeps(
                        &q,
                        false,
                        true,
                        false,
                        false,
                    ),
                    (Err(e), Err(g)) => e == g,
                    _ => false,
                },
    {
        let out = serializer(ipc);
        let ghost seen = out;
        match out {
            Ok(b) => {
                let q = Response { ipc: Some(b), ..self };
                assert(serializer.ensures((ipc,), seen));
                Ok(q)
            },
            Err(e) => {
                assert(serializer.ensures((ipc,), seen));
                Err(e)
            },
        }
    }

    pub fn metadata(self, metadata: Option<String>) -> (r: Self)
        ensures
            r.spec_metadata() == metadata,
            self.keeps(&r, false, false, true, false),
    {
        Response { metadata, ..self }
    }

    pub fn payload(self, payload: Payload) -> (r: Self)
        ensures
            r.spec_payload() == Some(payload),
            self.keeps(&r, false, false, false, true),
    {
        Response { payload: Some(payload), ..self }
    }

    /// Sets the type of the attachment, keeping its bytes (none if there was
    /// no attachment).
    pub fn payload_mime(self, mime: String) -> (r: Self)
        ensures
            r.spec_payload() is Some,
            r.spec_payload()->Some_0.mime == Some(mime),
            self.spec_payload() is Some ==> r.spec_payload()->Some_0.bytes
                == self.spec_payload()->Some_0.bytes,
            self.spec_payload() is None ==> r.spec_payload()->Some_0.bytes@.len() == 0,
            self.keeps(&r, false, false, false, true),
    {
        let Response { inherit, ipc, metadata, payload } = self;
        Response { inherit, ipc, metadata, payload: set_mime(payload, mime) }
    }

    /// Sets the bytes of the attachment, keeping its type.
    pub fn payload_bytes(self, bytes: Vec<u8>) -> (r: Self)
        ensures
            r.spec_payload() == payload_with_bytes(self.spec_payload(), bytes),
            self.keeps(&r, false, false, false, true),
    {
        let Response { inherit, ipc, metadata, payload } = self;
        Response { inherit, ipc, metadata, payload: set_bytes(payload, bytes) }
    }

    /// Finishes the response. It needs a body; everything set is handed on
    /// unchanged.
    pub fn send(self) -> (r: Result<OutgoingResponse, RequestError>)
        ensures
            r is Ok <==> self.spec_body() is Some,
            r is Err ==> r->Err_0 == RequestError::MissingIpc,
            r is Ok ==> {
                let o = r->Ok_0;
                &&& o.response.inherit == self.spec_inherit()
                &&& o.response.body == self.spec_body()->Some_0
                &&& o.response.metadata == self.spec_metadata()
                &&& o.payload == self.spec_payload()
            },
    {
        let Response { inherit, ipc, metadata, payload } = self;
        match ipc {
            Some(body) => Ok(
                OutgoingResponse { response: WireResponse { inherit, body, metadata }, payload },
            ),
            None => Err(RequestError::MissingIpc),
        }
    }
}

/// An attachment without a type holding what `serializer` makes of `payload`;
/// a failure of the serializer is handed back.
pub fn make_payload<T, E, F: Fn(&T) -> Result<Vec<u8>, E>>(payload: &T, serializer: F) -> (r:
    Result<Payload, E>)
    requires
        serializer.requires((payload,)),
    ensures
        exists|out: Result<Vec<u8>, E>|
            #[trigger] serializer.ensures((payload,), out) && match (out, r) {
                (Ok(b), Ok(p)) => p.mime is None && p.bytes == b,
                (Err(e), Err(g)) => e == g,
                _ => false,
            },
{
    let out = serializer(payload);
    let ghost seen = out;
    proof {
        assert(serializer.ensures((payload,), seen));
    }
    match out {
        Ok(bytes) => Ok(Payload { mime: None, bytes }),
        Err(e) => Err(e),
    }
}

/// What `deserializer` makes of `bytes`, if anything; a failure counts as
/// nothing.
pub open spec fn decoded_by<T, E, F: Fn(&[u8]) -> Result<T, E>>(
    deserializer: F,
    bytes: Seq<u8>,
    r: Option<T>,
) -> bool {
    exists|b: &[u8], out: Result<T, E>|
        b@ == bytes && #[trigger] deserializer.ensures((b,), out) && r == match out {
            Ok(t) => Some(t),
            Err(_) => None,
        }
}

fn decode_with<T, E, F: Fn(&[u8]) -> Result<T, E>>(bytes: &Vec<u8>, deserializer: F) -> (r: Option<
    T,
>)
    requires
        forall|b: &[u8]| #[trigger] deserializer.requires((b,)),
    ensures
        decoded_by(deserializer, bytes@, r),
{
    let b = bytes.as_slice();
    let out = deserializer(b);
    let ghost seen = out;
    let r = match out {
        Ok(t) => Some(t),
        Err(_) => None,
    };
    assert(deserializer.ensures((b,), seen));
    r
}

/// What `deserializer` makes of the bytes of the attachment that came with the
/// current message; nothing when there is no attachment or the bytes do not
/// decode.
pub fn get_typed_payload<T, E, F: Fn(&[u8]) -> Result<T, E>>(
    payload: Option<Payload>,
    deserializer: F,
) -> (r: Option<T>)
    requires
        forall|b: &[u8]| #[trigger] deserializer.requires((b,)),
    ensures
        match payload {
            Some(p) => decoded_by(deserializer, p.bytes@, r),
            None => r is None,
        },
{
    match payload {
        Some(p) => decode_with(&p.bytes, deserializer),
        None => None,
    }
}

/// What `deserializer` makes of the saved state of the process; nothing when
/// there is no state or it does not decode.
pub fn get_typed_state<T, E, F: Fn(&[u8]) -> Result<T, E>>(
    state: Option<Vec<u8>>,
    deserializer: F,
) -> (r: Option<T>)
    requires
        forall|b: &[u8]| #[trigger] deserializer.requires((b,)),
    ensures
        match state {
            Some(s) => decoded_by(deserializer, s@, r),
            None => r is None,
        },
{
    match state {
        Some(s) => decode_with(&s, deserializer),
        None => None,
    }
}

} // verus!
