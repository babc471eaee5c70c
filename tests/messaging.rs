use process_lib::builder::{
    get_typed_payload, get_typed_state, make_payload, unpack_response, Request, RequestError,
    Response,
};
use process_lib::capability::{can_message, grant_messaging, messaging_params, CapabilityError};
use process_lib::ident::{Address, AddressParseError, ProcessId, ProcessIdParseError};
use process_lib::message::{
    wire_message_to_message, Capability, Delivery, Message, Payload, SendError, SendErrorKind,
    WireMessage, WireRequest, WireResponse,
};

fn addr(s: &str) -> Address {
    Address::from_str(s).unwrap()
}

fn request_message(context_free_body: &[u8]) -> Message {
    Message::Request {
        source: addr("node1@app:pkg:alice"),
        expects_response: Some(5),
        body: context_free_body.to_vec(),
        metadata: Some("meta".to_string()),
        capabilities: vec![],
    }
}

fn response_message(body: &[u8], context: Option<Vec<u8>>) -> Message {
    Message::Response {
        source: addr("node2@vfs:sys:uqbar"),
        body: body.to_vec(),
        metadata: None,
        context,
        capabilities: vec![Capability { issuer: addr("node2@vfs:sys:uqbar"), params: "x".to_string() }],
    }
}

#[test]
fn request_message_has_no_context() {
    let m = request_message(b"hello");
    assert_eq!(m.context(), None);
    assert!(m.is_request());
    assert_eq!(m.body(), b"hello");
    assert_eq!(m.metadata(), Some("meta"));
}

#[test]
fn response_message_accessors() {
    let m = response_message(b"ok", Some(vec![9, 8]));
    assert!(!m.is_request());
    assert_eq!(m.context(), Some(&[9u8, 8][..]));
    assert_eq!(m.metadata(), None);
    assert_eq!(m.capabilities().len(), 1);
    assert_eq!(m.source().to_string(), "node2@vfs:sys:uqbar");
}

#[test]
fn message_locality_and_process() {
    let m = request_message(b"");
    assert!(m.is_local(&addr("node1@other:x:y")));
    assert!(!m.is_local(&addr("node9@app:pkg:alice")));
    assert!(m.is_process(&ProcessId::new("app", "pkg", "alice")));
    assert!(!m.is_process(&ProcessId::new("app", "pkg", "bob")));
    assert!(m.is_process_str("app:pkg:alice"));
    assert!(!m.is_process_str("app:pkg"));
}

#[test]
fn blob_is_taken_once() {
    let mut d = Delivery::new(request_message(b""), Some(make_payload(&vec![1u8, 2, 3], |v: &Vec<u8>| Ok::<Vec<u8>, ()>(v.clone())).unwrap()));
    let first = d.blob().unwrap();
    assert_eq!(first.bytes, vec![1, 2, 3]);
    assert!(first.mime.is_none());
    assert!(d.blob().is_none());
    assert!(d.message().is_request());
}

#[test]
fn request_without_target_or_body_is_missing_fields() {
    assert_eq!(Request::new().send().unwrap_err(), RequestError::MissingFields);
    assert_eq!(
        Request::new().ipc_bytes(b"x".to_vec()).send().unwrap_err(),
        RequestError::MissingFields
    );
    assert_eq!(
        Request::new().target(addr("n@a:b:c"))
        .unwrap().send().unwrap_err(),
        RequestError::MissingFields
    );
    assert_eq!(
        Request::new().send_and_await_response(5).unwrap_err(),
        RequestError::MissingFields
    );
}

#[test]
fn request_send_hands_on_every_field() {
    let o = Request::new()
        .target(addr("n@a:b:c"))
        .unwrap()
        .inherit(true)
        .expects_response(30)
        .ipc_bytes(b"body".to_vec())
        .metadata("m".to_string())
        .payload_bytes(vec![4, 5])
        .payload_mime("text/plain".to_string())
        .context_bytes(vec![7])
        .send()
        .unwrap();
    assert_eq!(o.target.to_string(), "n@a:b:c");
    assert!(o.request.inherit);
    assert_eq!(o.request.expects_response, Some(30));
    assert_eq!(o.request.body, b"body".to_vec());
    assert_eq!(o.request.metadata, Some("m".to_string()));
    assert_eq!(o.context, Some(vec![7]));
    let p = o.payload.unwrap();
    assert_eq!(p.bytes, vec![4, 5]);
    assert_eq!(p.mime, Some("text/plain".to_string()));
}

#[test]
fn awaited_request_carries_the_timeout() {
    let o = Request::new()
        .target("node1@vfs:sys:uqbar")
        .unwrap()
        .ipc_bytes(b"read".to_vec())
        .context_bytes(vec![1])
        .send_and_await_response(5)
        .unwrap();
    assert_eq!(o.target.node, "node1");
    assert_eq!(o.request.expects_response, Some(5));
    assert_eq!(o.request.body, b"read".to_vec());
    assert!(o.context.is_none());
    assert!(o.payload.is_none());
}

#[test]
fn request_target_text_errors() {
    assert_eq!(
        Request::new().target("vfs:sys:uqbar").err().unwrap(),
        AddressParseError::MissingNodeId
    );
}

#[test]
fn payload_mime_on_empty_payload_has_no_bytes() {
    let o = Request::new()
        .target(addr("n@a:b:c"))
        .unwrap()
        .ipc_bytes(vec![])
        .payload_mime("image/png".to_string())
        .send()
        .unwrap();
    let p = o.payload.unwrap();
    assert!(p.bytes.is_empty());
    assert_eq!(p.mime, Some("image/png".to_string()));
}

#[test]
fn payload_bytes_keeps_mime() {
    let o = Request::new()
        .target(addr("n@a:b:c"))
        .unwrap()
        .ipc_bytes(vec![])
        .payload(Payload { mime: Some("a/b".to_string()), bytes: vec![1] })
        .payload_bytes(vec![2, 3])
        .send()
        .unwrap();
    let p = o.payload.unwrap();
    assert_eq!(p.bytes, vec![2, 3]);
    assert_eq!(p.mime, Some("a/b".to_string()));
}

#[test]
fn response_without_body_is_missing_ipc() {
    assert_eq!(Response::new().send().unwrap_err(), RequestError::MissingIpc);
    assert_eq!(
        Response::new().inherit(true).metadata(Some("m".to_string())).send().unwrap_err(),
        RequestError::MissingIpc
    );
}

#[test]
fn response_send_hands_on_every_field() {
    let o = Response::new()
        .inherit(true)
        .ipc_bytes(vec![1])
        .metadata(Some("m".to_string()))
        .payload_bytes(vec![2])
        .send()
        .unwrap();
    assert!(o.response.inherit);
    assert_eq!(o.response.body, vec![1]);
    assert_eq!(o.response.metadata, Some("m".to_string()));
    assert_eq!(o.payload.unwrap().bytes, vec![2]);
}

#[test]
fn unpack_response_takes_a_response_apart() {
    let reply = Ok((addr("node2@vfs:sys:uqbar"), response_message(b"r", Some(vec![3]))));
    let (source, resp, context) = unpack_response(reply).unwrap().unwrap();
    assert_eq!(source.node, "node2");
    assert_eq!(resp.body, b"r".to_vec());
    assert_eq!(context, Some(vec![3]));
}

#[test]
fn unpack_response_rejects_a_request() {
    let reply = Ok((addr("node1@app:pkg:alice"), request_message(b"")));
    assert_eq!(unpack_response(reply).unwrap_err(), RequestError::DidNotReceiveResponse);
}

#[test]
fn unpack_response_passes_send_errors_on() {
    let reply = Err(SendError { kind: SendErrorKind::Timeout, target: addr("n@a:b:c") });
    let e = unpack_response(reply).unwrap().unwrap_err();
    assert_eq!(e.kind, SendErrorKind::Timeout);
}

#[test]
fn grant_messaging_shares_with_each_process() {
    let cap = Capability { issuer: addr("our@me:pkg:pub"), params: messaging_params() };
    let targets = vec![ProcessId::new("a", "b", "c"), ProcessId::new("d", "e", "f")];
    let shares = grant_messaging(Some(cap), &targets).unwrap();
    assert_eq!(shares.len(), 2);
    assert_eq!(shares[0].0, targets[0]);
    assert_eq!(shares[1].0, targets[1]);
    assert_eq!(shares[1].1.params, "\"messaging\"");
}

#[test]
fn grant_messaging_without_own_capability_fails() {
    let targets = vec![ProcessId::new("a", "b", "c")];
    assert_eq!(
        grant_messaging(None, &targets).unwrap_err(),
        CapabilityError::MissingOwnMessagingCapability
    );
}

#[test]
fn can_message_needs_a_capability() {
    assert!(!can_message(&None));
    let cap = Capability { issuer: addr("n@a:b:c"), params: messaging_params() };
    assert!(can_message(&Some(cap)));
}

#[test]
fn serializer_helpers_set_fields() {
    let o = Request::new()
        .target("n@a:b:c")
        .unwrap()
        .ipc(&7u32, |v: &u32| Ok::<Vec<u8>, String>(v.to_string().into_bytes()))
        .unwrap()
        .context(&"ctx", |v: &&str| Ok::<Vec<u8>, String>(v.as_bytes().to_vec()))
        .unwrap()
        .send()
        .unwrap();
    assert_eq!(o.request.body, b"7".to_vec());
    assert_eq!(o.context, Some(b"ctx".to_vec()));
    let failed = Request::new().ipc(&1u8, |_: &u8| Err::<Vec<u8>, String>("no".to_string()));
    assert_eq!(failed.err().unwrap(), "no");
    let r = Response::new()
        .ipc(&[1u8, 2], |v: &[u8; 2]| Ok::<Vec<u8>, ()>(v.to_vec()))
        .unwrap()
        .send()
        .unwrap();
    assert_eq!(r.response.body, vec![1, 2]);
}

#[test]
fn typed_payload_and_state() {
    let parse = |b: &[u8]| -> Result<u32, String> {
        std::str::from_utf8(b).map_err(|e| e.to_string())?.parse::<u32>().map_err(|e| e.to_string())
    };
    let p = Payload { mime: None, bytes: b"42".to_vec() };
    assert_eq!(get_typed_payload(Some(p), parse), Some(42));
    let bad = Payload { mime: None, bytes: b"x".to_vec() };
    assert_eq!(get_typed_payload(Some(bad), parse), None);
    assert_eq!(get_typed_payload(None, parse), None);
    assert_eq!(get_typed_state(Some(b"7".to_vec()), parse), Some(7));
    assert_eq!(get_typed_state(None, parse), None);
}

#[test]
fn wire_messages_become_messages() {
    let req = WireMessage::Request {
        request: WireRequest {
            inherit: true,
            expects_response: Some(9),
            body: vec![1],
            metadata: Some("m".to_string()),
        },
        capabilities: vec![],
    };
    let m = wire_message_to_message(addr("n@a:b:c"), req);
    assert!(m.is_request());
    assert_eq!(m.context(), None);
    assert!(matches!(m, Message::Request { expects_response: Some(9), .. }));
    let resp = WireMessage::Response {
        response: WireResponse { inherit: false, body: vec![2], metadata: None },
        context: Some(vec![5]),
        capabilities: vec![],
    };
    let m = wire_message_to_message(addr("n@a:b:c"), resp);
    assert_eq!(m.body(), &[2u8][..]);
    assert_eq!(m.context(), Some(&[5u8][..]));
    assert_eq!(m.source().node, "n");
}

#[test]
fn parse_error_descriptions() {
    assert_eq!(ProcessIdParseError::MissingField.to_string(), "Missing field in ProcessId string");
    assert_eq!(AddressParseError::MissingNodeId.to_string(), "Node ID missing");
    assert_eq!(AddressParseError::TooManyColons.to_string(), "Too many colons in ProcessId string");
}
