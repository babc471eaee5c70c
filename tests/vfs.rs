use process_lib::builder::Request;
use process_lib::ident::{Address, PackageId};
use process_lib::message::{Message, Payload, SendError, SendErrorKind};
use process_lib::vfs::{
    create_drive, create_drive_request, create_file, create_file_request, decode_response,
    driver_address, encode_request, open_file, open_file_request, File, FileMetadata, FileType,
    IoErrorKind, SeekFrom, VfsAction, VfsError, VfsResponse,
};

fn driver() -> Address {
    Address::from_str("our@vfs:sys:uqbar").unwrap()
}

fn reply_with(body: &str) -> Result<(Address, Message), SendError> {
    Ok((
        driver(),
        Message::Response {
            source: driver(),
            body: body.as_bytes().to_vec(),
            metadata: None,
            context: None,
            capabilities: vec![],
        },
    ))
}

fn blob(bytes: Vec<u8>) -> Option<Payload> {
    Some(Payload { mime: None, bytes })
}

#[test]
fn read_returns_the_attached_blob() {
    let call = Request::new()
        .target("node1@vfs:sys:uqbar")
        .unwrap()
        .ipc_bytes(b"read".to_vec())
        .send_and_await_response(5)
        .unwrap();
    assert_eq!(call.target.to_string(), "node1@vfs:sys:uqbar");
    assert_eq!(call.request.expects_response, Some(5));
    let file = File { path: "/pkg/drive/x.txt".to_string() };
    assert_eq!(file.read(&reply_with("\"Read\""), blob(vec![1, 2, 3])), Ok(vec![1, 2, 3]));
}

#[test]
fn read_without_blob_is_a_protocol_error() {
    let file = File { path: "/p".to_string() };
    assert_eq!(file.read(&reply_with("\"Read\""), None), Err(VfsError::NoPayload));
}

#[test]
fn read_reports_driver_errors() {
    let file = File { path: "/p".to_string() };
    assert_eq!(
        file.read(&reply_with("{\"Err\":\"PermissionDenied\"}"), blob(vec![1])),
        Err(VfsError::Io(IoErrorKind::PermissionDenied))
    );
    assert_eq!(file.read(&reply_with("\"Ok\""), None), Err(VfsError::UnexpectedResponse));
    assert_eq!(file.read(&reply_with("garbage"), None), Err(VfsError::BadResponse));
}

#[test]
fn read_reports_transport_errors() {
    let file = File { path: "/p".to_string() };
    let reply = Err(SendError { kind: SendErrorKind::Offline, target: driver() });
    assert_eq!(file.read(&reply, None), Err(VfsError::Send(SendErrorKind::Offline)));
    let request_back = Ok((
        driver(),
        Message::Request {
            source: driver(),
            expects_response: None,
            body: vec![],
            metadata: None,
            capabilities: vec![],
        },
    ));
    assert_eq!(file.read(&request_back, None), Err(VfsError::UnexpectedMessage));
}

#[test]
fn read_request_encodes_the_action() {
    let file = File { path: "/pkg/drive/x.txt".to_string() };
    let call = file.read_request().unwrap();
    assert_eq!(call.target, driver_address());
    assert_eq!(call.target.to_string(), "our@vfs:sys:uqbar");
    assert_eq!(call.request.expects_response, Some(5));
    assert!(!call.request.inherit);
    assert_eq!(call.request.body, br#"{"path":"/pkg/drive/x.txt","action":"Read"}"#.to_vec());
    assert!(call.payload.is_none());
}

#[test]
fn read_into_copies_what_fits() {
    let file = File { path: "/p".to_string() };
    let mut small = vec![0u8; 2];
    assert_eq!(file.read_into(&reply_with("\"Read\""), blob(vec![1, 2, 3]), &mut small), Ok(2));
    assert_eq!(small, vec![1, 2]);
    let mut large = vec![9u8; 5];
    assert_eq!(file.read_into(&reply_with("\"Read\""), blob(vec![1, 2, 3]), &mut large), Ok(3));
    assert_eq!(large, vec![1, 2, 3, 9, 9]);
}

#[test]
fn read_at_asks_for_the_buffer_length() {
    let file = File { path: "/p".to_string() };
    let call = file.read_at_request(4).unwrap();
    assert_eq!(call.request.body, br#"{"path":"/p","action":{"ReadExact":4}}"#.to_vec());
    let mut buf = vec![0u8; 4];
    assert_eq!(file.read_at(&reply_with("\"Read\""), blob(vec![5, 6, 7, 8]), &mut buf), Ok(4));
    assert_eq!(buf, vec![5, 6, 7, 8]);
}

#[test]
fn write_attaches_the_buffer() {
    let file = File { path: "/p".to_string() };
    let call = file.write_request(vec![1, 2]).unwrap();
    assert_eq!(call.request.body, br#"{"path":"/p","action":"Write"}"#.to_vec());
    let p = call.payload.unwrap();
    assert_eq!(p.bytes, vec![1, 2]);
    assert!(p.mime.is_none());
    assert_eq!(file.write(&reply_with("\"Ok\"")), Ok(()));
    assert_eq!(
        file.write(&reply_with("{\"Err\":\"AlreadyExists\"}")),
        Err(VfsError::Io(IoErrorKind::AlreadyExists))
    );
}

#[test]
fn write_at_attaches_the_buffer() {
    let file = File { path: "/p".to_string() };
    let call = file.write_at_request(vec![3]).unwrap();
    assert_eq!(call.request.body, br#"{"path":"/p","action":"WriteAt"}"#.to_vec());
    assert_eq!(call.payload.unwrap().bytes, vec![3]);
    assert_eq!(file.write_at(&reply_with("\"Ok\"")), Ok(()));
}

#[test]
fn seek_returns_the_new_position() {
    let file = File { path: "/p".to_string() };
    let call = file.seek_request(SeekFrom::Current(-3)).unwrap();
    assert_eq!(
        call.request.body,
        br#"{"path":"/p","action":{"Seek":{"seek_from":{"Current":-3}}}}"#.to_vec()
    );
    assert_eq!(file.seek(&reply_with("{\"SeekFrom\":42}")), Ok(42));
    assert_eq!(
        file.seek(&reply_with("{\"SeekFrom\":18446744073709551615}")),
        Ok(u64::MAX)
    );
    assert_eq!(file.seek(&reply_with("{\"SeekFrom\":18446744073709551616}")), Err(VfsError::BadResponse));
    assert_eq!(file.seek(&reply_with("{\"SeekFrom\":042}")), Err(VfsError::BadResponse));
    assert_eq!(file.seek(&reply_with("\"Ok\"")), Err(VfsError::UnexpectedResponse));
}

#[test]
fn seek_from_start_and_end_encodings() {
    let file = File { path: "/p".to_string() };
    let start = file.seek_request(SeekFrom::Start(10)).unwrap();
    assert_eq!(
        start.request.body,
        br#"{"path":"/p","action":{"Seek":{"seek_from":{"Start":10}}}}"#.to_vec()
    );
    let end = file.seek_request(SeekFrom::End(0)).unwrap();
    assert_eq!(
        end.request.body,
        br#"{"path":"/p","action":{"Seek":{"seek_from":{"End":0}}}}"#.to_vec()
    );
}

#[test]
fn set_len_and_sync_all() {
    let file = File { path: "/p".to_string() };
    assert_eq!(
        file.set_len_request(1024).unwrap().request.body,
        br#"{"path":"/p","action":{"SetLen":1024}}"#.to_vec()
    );
    assert_eq!(file.set_len(&reply_with("\"Ok\"")), Ok(()));
    assert_eq!(
        file.sync_all_request().unwrap().request.body,
        br#"{"path":"/p","action":"SyncAll"}"#.to_vec()
    );
    assert_eq!(file.sync_all(&reply_with("\"Read\"")), Err(VfsError::UnexpectedResponse));
}

#[test]
fn metadata_is_decoded() {
    let file = File { path: "/p".to_string() };
    assert_eq!(
        file.metadata_request().unwrap().request.body,
        br#"{"path":"/p","action":"Metadata"}"#.to_vec()
    );
    assert_eq!(
        file.metadata(&reply_with("{\"Metadata\":{\"file_type\":\"File\",\"len\":10}}")),
        Ok(FileMetadata { file_type: FileType::File, len: 10 })
    );
    assert_eq!(
        file.metadata(&reply_with("{\"Metadata\":{\"file_type\":\"Directory\",\"len\":0}}")),
        Ok(FileMetadata { file_type: FileType::Directory, len: 0 })
    );
    assert_eq!(
        file.metadata(&reply_with("{\"Metadata\":{\"file_type\":\"Pipe\",\"len\":0}}")),
        Err(VfsError::BadResponse)
    );
}

#[test]
fn open_file_reports_not_found() {
    let call = open_file_request("/pkg/drive/x.txt", false).unwrap();
    assert_eq!(
        call.request.body,
        br#"{"path":"/pkg/drive/x.txt","action":{"OpenFile":{"create":false}}}"#.to_vec()
    );
    let r = open_file("/pkg/drive/x.txt", &reply_with("{\"Err\":\"NotFound\"}"));
    assert!(matches!(r, Err(VfsError::Io(IoErrorKind::NotFound))));
}

#[test]
fn open_file_on_ok_gives_a_handle() {
    let call = open_file_request("/a/b", true).unwrap();
    assert_eq!(call.request.body, br#"{"path":"/a/b","action":{"OpenFile":{"create":true}}}"#.to_vec());
    let f = open_file("/a/b", &reply_with("\"Ok\"")).unwrap();
    assert_eq!(f.path, "/a/b");
}

#[test]
fn create_file_on_ok_gives_a_handle() {
    let call = create_file_request("/a/c").unwrap();
    assert_eq!(call.request.body, br#"{"path":"/a/c","action":"CreateFile"}"#.to_vec());
    assert_eq!(create_file("/a/c", &reply_with("\"Ok\"")).unwrap().path, "/a/c");
    assert!(matches!(
        create_file("/a/c", &reply_with("{\"Err\":\"InvalidInput\"}")),
        Err(VfsError::Io(IoErrorKind::InvalidInput))
    ));
}

#[test]
fn create_drive_uses_the_package_path() {
    let pkg = PackageId::new("app", "alice");
    let (path, call) = create_drive_request(&pkg, "files");
    assert_eq!(path, "/app:alice/files");
    let call = call.unwrap();
    assert_eq!(
        call.request.body,
        br#"{"path":"/app:alice/files","action":"CreateDrive"}"#.to_vec()
    );
    assert_eq!(create_drive(path, &reply_with("\"Ok\"")), Ok("/app:alice/files".to_string()));
}

#[test]
fn create_drive_reports_errors() {
    let r = create_drive("/x/y".to_string(), &reply_with("{\"Err\":\"Other\"}"));
    assert_eq!(r, Err(VfsError::Io(IoErrorKind::Other)));
}

#[test]
fn path_is_escaped_as_a_json_string() {
    let body = encode_request("a\"b\\c", VfsAction::Read);
    assert_eq!(body, br#"{"path":"a\"b\\c","action":"Read"}"#.to_vec());
    let body = encode_request("", VfsAction::CreateFile);
    assert_eq!(body, br#"{"path":"","action":"CreateFile"}"#.to_vec());
}

#[test]
fn decode_each_response() {
    assert_eq!(decode_response(b"\"Ok\""), Some(VfsResponse::Done));
    assert_eq!(decode_response(b"\"Read\""), Some(VfsResponse::Read));
    assert_eq!(decode_response(b"{\"SeekFrom\":0}"), Some(VfsResponse::SeekFrom(0)));
    assert_eq!(
        decode_response(b"{\"Err\":\"NotFound\"}"),
        Some(VfsResponse::Failed(IoErrorKind::NotFound))
    );
    assert_eq!(
        decode_response(b"{\"Metadata\":{\"file_type\":\"Symlink\",\"len\":7}}"),
        Some(VfsResponse::Metadata(FileMetadata { file_type: FileType::Symlink, len: 7 }))
    );
    assert_eq!(decode_response(b""), None);
    assert_eq!(decode_response(b"{\"SeekFrom\":}"), None);
    assert_eq!(decode_response(b"{\"Err\":\"Nope\"}"), None);
}

fn object(key: &str, value: serde_json::Value) -> serde_json::Value {
    let mut m = serde_json::Map::new();
    m.insert(key.to_string(), value);
    serde_json::Value::Object(m)
}

#[test]
fn decodes_what_serde_json_writes() {
    let ok = serde_json::to_vec(&serde_json::Value::from("Ok")).unwrap();
    assert_eq!(decode_response(&ok), Some(VfsResponse::Done));
    let seek = serde_json::to_vec(&object("SeekFrom", serde_json::Value::from(42u64))).unwrap();
    assert_eq!(decode_response(&seek), Some(VfsResponse::SeekFrom(42)));
    let mut meta = serde_json::Map::new();
    meta.insert("file_type".to_string(), serde_json::Value::from("Directory"));
    meta.insert("len".to_string(), serde_json::Value::from(4096u64));
    let md = serde_json::to_vec(&object("Metadata", serde_json::Value::Object(meta))).unwrap();
    assert_eq!(
        decode_response(&md),
        Some(VfsResponse::Metadata(FileMetadata { file_type: FileType::Directory, len: 4096 }))
    );
    let err = serde_json::to_vec(&object("Err", serde_json::Value::from("NotFound"))).unwrap();
    assert_eq!(decode_response(&err), Some(VfsResponse::Failed(IoErrorKind::NotFound)));
}
