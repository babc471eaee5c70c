use vstd::prelude::*;

use crate::builder::{OutgoingRequest, Request, RequestError};
use crate::ident::{Address, PackageId, ProcessId};
use crate::message::{Message, Payload, SendError, SendErrorKind};
use crate::wire::{
    ascii, ascii_is, ascii_at, number_of, parse_number, push_ascii, push_i64,
    push_json_string, push_u64, decimal, json_string_of, signed_decimal, lemma_decimal_digits,
    lemma_number_of_decimal,
};

verus! {

/// An action of the kernel's own filesystem, on files named by number.
#[derive(Clone, Copy, Debug, PartialEq, Eq, Structural)]
pub enum FsAction {
    Write,
    Replace(u128),
    Append(Option<u128>),
    Read(u128),
    ReadChunk(ReadChunkRequest),
    Delete(u128),
    Length(u128),
    GetState,
    SetState,
}

/// A part of a file of the kernel's filesystem.
#[derive(Clone, Copy, Debug, PartialEq, Eq, Structural)]
pub struct ReadChunkRequest {
    pub file_uuid: u128,
    pub start: u64,
    pub length: u64,
}

/// How long a call to the filesystem driver may wait for its response.
pub const DRIVER_TIMEOUT: u64 = 5;

/// Where a seek counts from.
#[derive(Clone, Copy, Debug, PartialEq, Eq, Structural)]
pub enum SeekFrom {
    Start(u64),
    End(i64),
    Current(i64),
}

/// What the filesystem driver is asked to do with a path.
#[derive(Clone, Copy, Debug, PartialEq, Eq, Structural)]
pub enum VfsAction {
    CreateDrive,
    CreateFile,
    OpenFile { create: bool },
    Read,
    ReadExact(u64),
    Write,
    WriteAt,
    Seek { seek_from: SeekFrom },
    SetLen(u64),
    Metadata,
    SyncAll,
}

/// The kind of a path.
#[derive(Clone, Copy, Debug, PartialEq, Eq, Structural)]
pub enum FileType {
    File,
    Directory,
    Symlink,
    Other,
}

/// What the driver reports of a path.
#[derive(Clone, Copy, Debug, PartialEq, Eq, Structural)]
pub struct FileMetadata {
    pub file_type: FileType,
    pub len: u64,
}

/// The failure the driver reports.
#[derive(Clone, Copy, Debug, PartialEq, Eq, Structural)]
pub enum IoErrorKind {
    NotFound,
    PermissionDenied,
    AlreadyExists,
    InvalidInput,
    Other,
}

/// The driver's answer to an action. On the wire `Done` is written `"Ok"` and
/// `Failed` is written `{"Err":...}`.
#[derive(Clone, Copy, Debug, PartialEq, Eq, Structural)]
pub enum VfsResponse {
    Done,
    Failed(IoErrorKind),
    Read,
    SeekFrom(u64),
    Metadata(FileMetadata),
}

/// Why a file operation failed.
#[derive(Clone, Copy, Debug, PartialEq, Eq, Structural)]
pub enum VfsError {
    /// The transport obtained no response.
    Send(SendErrorKind),
    /// A request came back where a response was awaited.
    UnexpectedMessage,
    /// The response body is not a driver response.
    BadResponse,
    /// The driver answered with a response that does not fit the action.
    UnexpectedResponse,
    /// The driver reported a failure.
    Io(IoErrorKind),
    /// A read was answered without its data attached.
    NoPayload,
}

// ---------------------------------------------------------------------------
// Encoding of requests
// ---------------------------------------------------------------------------

pub open spec fn seek_from_bytes(s: SeekFrom) -> Seq<u8> {
    match s {
        SeekFrom::Start(n) => ascii("{\"Start\":"@) + decimal(n as nat) + ascii("}"@),
        SeekFrom::End(n) => ascii("{\"End\":"@) + signed_decimal(n as int) + ascii("}"@),
        SeekFrom::Current(n) => ascii("{\"Current\":"@) + signed_decimal(n as int) + ascii("}"@),
    }
}

/// The encoding of an action: a unit action as its quoted name, one with data
/// as an object keyed by its name.
pub open spec fn action_bytes(a: VfsAction) -> Seq<u8> {
    match a {
        VfsAction::CreateDrive => ascii("\"CreateDrive\""@),
        VfsAction::CreateFile => ascii("\"CreateFile\""@),
        VfsAction::OpenFile { create } => if create {
            ascii("{\"OpenFile\":{\"create\":true}}"@)
        } else {
            ascii("{\"OpenFile\":{\"create\":false}}"@)
        },
        VfsAction::Read => ascii("\"Read\""@),
        VfsAction::ReadExact(n) => ascii("{\"ReadExact\":"@) + decimal(n as nat) + ascii("}"@),
        VfsAction::Write => ascii("\"Write\""@),
        VfsAction::WriteAt => ascii("\"WriteAt\""@),
        VfsAction::Seek { seek_from } => ascii("{\"Seek\":{\"seek_from\":"@) + seek_from_bytes(
            seek_from,
        ) + ascii("}}"@),
        VfsAction::SetLen(n) => ascii("{\"SetLen\":"@) + decimal(n as nat) + ascii("}"@),
        VfsAction::Metadata => ascii("\"Metadata\""@),
        VfsAction::SyncAll => ascii("\"SyncAll\""@),
    }
}

/// The body of a request to the driver: the path and the action.
pub open spec fn request_bytes(path: Seq<char>, a: VfsAction) -> Seq<u8> {
    ascii("{\"path\":"@) + json_string_of(path) + ascii(",\"action\":"@) + action_bytes(a) + ascii(
        "}"@,
    )
}

fn push_seek_from(out: &mut Vec<u8>, s: SeekFrom)
    ensures
        final(out)@ == old(out)@ + seek_from_bytes(s),
{
    match s {
        SeekFrom::Start(n) => {
            push_ascii(out, "{\"Start\":");
            push_u64(out, n);
        },
        SeekFrom::End(n) => {
            push_ascii(out, "{\"End\":");
            push_i64(out, n);
        },
        SeekFrom::Current(n) => {
            push_ascii(out, "{\"Current\":");
            push_i64(out, n);
        },
    }
    push_ascii(out, "}");
    assert(final(out)@ =~= old(out)@ + seek_from_bytes(s));
}

fn push_action(out: &mut Vec<u8>, a: VfsAction)
    ensures
        final(out)@ == old(out)@ + action_bytes(a),
{
    let ghost start = out@;
    match a {
        VfsAction::CreateDrive => push_ascii(out, "\"CreateDrive\""),
        VfsAction::CreateFile => push_ascii(out, "\"CreateFile\""),
        VfsAction::OpenFile { create } => if create {
            push_ascii(out, "{\"OpenFile\":{\"create\":true}}")
        } else {
            push_ascii(out, "{\"OpenFile\":{\"create\":false}}")
        },
        VfsAction::Read => push_ascii(out, "\"Read\""),
        VfsAction::ReadExact(n) => {
            push_ascii(out, "{\"ReadExact\":");
            push_u64(out, n);
            push_ascii(out, "}");
        },
        VfsAction::Write => push_ascii(out, "\"Write\""),
        VfsAction::WriteAt => push_ascii(out, "\"WriteAt\""),
        VfsAction::Seek { seek_from } => {
            push_ascii(out, "{\"Seek\":{\"seek_from\":");
            push_seek_from(out, seek_from);
            push_ascii(out, "}}");
        },
        VfsAction::SetLen(n) => {
            push_ascii(out, "{\"SetLen\":");
            push_u64(out, n);
            push_ascii(out, "}");
        },
        VfsAction::Metadata => push_ascii(out, "\"Metadata\""),
        VfsAction::SyncAll => push_ascii(out, "\"SyncAll\""),
    }
    assert(out@ =~= start + action_bytes(a));
}

/// The body of a request asking the driver to do `action` on `path`.
pub fn encode_request(path: &str, action: VfsAction) -> (r: Vec<u8>)
    ensures
        r@ == request_bytes(path@, action),
{
    let mut out: Vec<u8> = Vec::new();
    push_ascii(&mut out, "{\"path\":");
    push_json_string(&mut out, path);
    push_ascii(&mut out, ",\"action\":");
    push_action(&mut out, action);
    push_ascii(&mut out, "}");
    assert(out@ =~= request_bytes(path@, action));
    out
}

// ---------------------------------------------------------------------------
// Decoding of responses
// ---------------------------------------------------------------------------

/// Whether `b` starts with `pre` and ends with `post`, the two not overlapping.
pub open spec fn framed(b: Seq<u8>, pre: Seq<u8>, post: Seq<u8>) -> bool {
    &&& b.len() >= pre.len() + post.len()
    &&& b.subrange(0, pre.len() as int) == pre
    &&& b.subrange(b.len() - post.len(), b.len() as int) == post
}

/// What stands between `pre` and `post` in `b`.
pub open spec fn inner(b: Seq<u8>, pre: Seq<u8>, post: Seq<u8>) -> Seq<u8> {
    b.subrange(pre.len() as int, b.len() - post.len())
}

pub open spec fn kind_name(k: IoErrorKind) -> Seq<char> {
    match k {
        IoErrorKind::NotFound => "NotFound"@,
        IoErrorKind::PermissionDenied => "PermissionDenied"@,
        IoErrorKind::AlreadyExists => "AlreadyExists"@,
        IoErrorKind::InvalidInput => "InvalidInput"@,
        IoErrorKind::Other => "Other"@,
    }
}

/// The failure named by `s`.
pub open spec fn kind_of(s: Seq<u8>) -> Option<IoErrorKind> {
    if s == ascii(kind_name(IoErrorKind::NotFound)) {
        Some(IoErrorKind::NotFound)
    } else if s == ascii(kind_name(IoErrorKind::PermissionDenied)) {
        Some(IoErrorKind::PermissionDenied)
    } else if s == ascii(kind_name(IoErrorKind::AlreadyExists)) {
        Some(IoErrorKind::AlreadyExists)
    } else if s == ascii(kind_name(IoErrorKind::InvalidInput)) {
        Some(IoErrorKind::InvalidInput)
    } else if s == ascii(kind_name(IoErrorKind::Other)) {
        Some(IoErrorKind::Other)
    } else {
        None
    }
}

pub open spec fn file_type_name(t: FileType) -> Seq<char> {
    match t {
        FileType::File => "File"@,
        FileType::Directory => "Directory"@,
        FileType::Symlink => "Symlink"@,
        FileType::Other => "Other"@,
    }
}

/// The metadata that `s` writes when its type is `t`: the type's name, then the
/// length.
pub open spec fn metadata_as(s: Seq<u8>, t: FileType) -> Option<FileMetadata> {
    let pre = ascii(file_type_name(t)) + ascii("\",\"len\":"@);
    if s.len() >= pre.len() && s.subrange(0, pre.len() as int) == pre {
        match number_of(s.subrange(pre.len() as int, s.len() as int)) {
            Some(n) => Some(FileMetadata { file_type: t, len: n }),
            None => None,
        }
    } else {
        None
    }
}

/// The metadata written in `s`.
pub open spec fn metadata_of(s: Seq<u8>) -> Option<FileMetadata> {
    if metadata_as(s, FileType::File) is Some {
        metadata_as(s, FileType::File)
    } else if metadata_as(s, FileType::Directory) is Some {
        metadata_as(s, FileType::Directory)
    } else if metadata_as(s, FileType::Symlink) is Some {
        metadata_as(s, FileType::Symlink)
    } else {
        metadata_as(s, FileType::Other)
    }
}

/// The driver response that `b` encodes, if any.
pub open spec fn response_of(b: Seq<u8>) -> Option<VfsResponse> {
    let seek_pre = ascii("{\"SeekFrom\":"@);
    let meta_pre = ascii("{\"Metadata\":{\"file_type\":\""@);
    let err_pre = ascii("{\"Err\":\""@);
    if b == ascii("\"Ok\""@) {
        Some(VfsResponse::Done)
    } else if b == ascii("\"Read\""@) {
        Some(VfsResponse::Read)
    } else if framed(b, seek_pre, ascii("}"@)) && number_of(inner(b, seek_pre, ascii("}"@))) is Some {
        Some(VfsResponse::SeekFrom(number_of(inner(b, seek_pre, ascii("}"@)))->Some_0))
    } else if framed(b, meta_pre, ascii("}}"@)) && metadata_of(inner(b, meta_pre, ascii("}}"@))) is Some {
        Some(VfsResponse::Metadata(metadata_of(inner(b, meta_pre, ascii("}}"@)))->Some_0))
    } else if framed(b, err_pre, ascii("\"}"@)) && kind_of(inner(b, err_pre, ascii("\"}"@))) is Some {
        Some(VfsResponse::Failed(kind_of(inner(b, err_pre, ascii("\"}"@)))->Some_0))
    } else {
        None
    }
}

/// What the driver writes for a response.
pub open spec fn response_bytes(r: VfsResponse) -> Seq<u8> {
    match r {
        VfsResponse::Done => ascii("\"Ok\""@),
        VfsResponse::Read => ascii("\"Read\""@),
        VfsResponse::SeekFrom(n) => ascii("{\"SeekFrom\":"@) + decimal(n as nat) + ascii("}"@),
        VfsResponse::Metadata(m) => ascii("{\"Metadata\":{\"file_type\":\""@) + ascii(
            file_type_name(m.file_type),
        ) + ascii("\",\"len\":"@) + decimal(m.len as nat) + ascii("}}"@),
        VfsResponse::Failed(k) => ascii("{\"Err\":\""@) + ascii(kind_name(k)) + ascii("\"}"@),
    }
}

/// Every response the driver writes decodes to itself.
pub proof fn lemma_response_round_trip(r: VfsResponse)
    ensures
        response_of(response_bytes(r)) == Some(r),
{
    reveal_strlit("\"Ok\"");
    reveal_strlit("\"Read\"");
    reveal_strlit("{\"SeekFrom\":");
    reveal_strlit("{\"Metadata\":{\"file_type\":\"");
    reveal_strlit("{\"Err\":\"");
    reveal_strlit("}");
    reveal_strlit("}}");
    reveal_strlit("\"}");
    reveal_strlit("\",\"len\":");
    let b = response_bytes(r);
    let seek_pre = ascii("{\"SeekFrom\":"@);
    let meta_pre = ascii("{\"Metadata\":{\"file_type\":\""@);
    let err_pre = ascii("{\"Err\":\""@);
    match r {
        VfsResponse::Done => {},
        VfsResponse::Read => {
            assert(b[1] != ascii("\"Ok\""@)[1]);
        },
        VfsResponse::SeekFrom(n) => {
            lemma_decimal_digits(n as nat);
            lemma_number_of_decimal(n);
            assert(b[0] != ascii("\"Ok\""@)[0]);
            assert(b[0] != ascii("\"Read\""@)[0]);
            assert(b.subrange(0, seek_pre.len() as int) =~= seek_pre);
            assert(b.subrange(b.len() - 1, b.len() as int) =~= ascii("}"@));
            assert(inner(b, seek_pre, ascii("}"@)) =~= decimal(n as nat));
        },
        VfsResponse::Metadata(m) => {
            lemma_decimal_digits(m.len as nat);
            lemma_number_of_decimal(m.len);
            assert(b[0] != ascii("\"Ok\""@)[0]);
            assert(b[0] != ascii("\"Read\""@)[0]);
            assert(b[2] != seek_pre[2]);
            assert(b.subrange(0, meta_pre.len() as int) =~= meta_pre);
            assert(b.subrange(b.len() - 2, b.len() as int) =~= ascii("}}"@));
            let s = inner(b, meta_pre, ascii("}}"@));
            let name = ascii(file_type_name(m.file_type));
            let pre = name + ascii("\",\"len\":"@);
            assert(s =~= pre + decimal(m.len as nat));
            assert(s.subrange(0, pre.len() as int) =~= pre);
            assert(s.subrange(pre.len() as int, s.len() as int) =~= decimal(m.len as nat));
            assert(metadata_as(s, m.file_type) == Some(m));
            reveal_strlit("File");
            reveal_strlit("Directory");
            reveal_strlit("Symlink");
            reveal_strlit("Other");
            assert(s[0] == name[0]);
            if m.file_type != FileType::File {
                assert(s[0] != ascii("File"@)[0]);
                assert(metadata_as(s, FileType::File) is None);
            }
            if m.file_type != FileType::Directory {
                assert(s[0] != ascii("Directory"@)[0]);
                assert(metadata_as(s, FileType::Directory) is None);
            }
            if m.file_type != FileType::Symlink {
                assert(s[0] != ascii("Symlink"@)[0]);
                assert(metadata_as(s, FileType::Symlink) is None);
            }
        },
        VfsResponse::Failed(k) => {
            assert(b[0] != ascii("\"Ok\""@)[0]);
            assert(b[0] != ascii("\"Read\""@)[0]);
            assert(b[2] != seek_pre[2]);
            assert(b[2] != meta_pre[2]);
            assert(b.subrange(0, err_pre.len() as int) =~= err_pre);
            assert(b.subrange(b.len() - 2, b.len() as int) =~= ascii("\"}"@));
            assert(inner(b, err_pre, ascii("\"}"@)) =~= ascii(kind_name(k)));
            reveal_strlit("NotFound");
            reveal_strlit("PermissionDenied");
            reveal_strlit("AlreadyExists");
            reveal_strlit("InvalidInput");
            reveal_strlit("Other");
        },
    }
}

/// Whether `b` holds exactly the characters of `s` between `start` and `end`.
fn ascii_range_is(b: &[u8], start: usize, end: usize, s: &str) -> (r: bool)
    requires
        start <= end <= b@.len(),
    ensures
        r == (b@.subrange(start as int, end as int) == ascii(s@)),
{
    let n = s.unicode_len();
    if end - start != n {
        proof {
            if b@.subrange(start as int, end as int) == ascii(s@) {
                assert(ascii(s@).len() == n);
            }
        }
        return false;
    }
    ascii_at(b, start, s)
}

/// Whether `b` starts with `pre` and ends with `post`.
fn is_framed(b: &[u8], pre: &str, post: &str) -> (r: bool)
    ensures
        r == framed(b@, ascii(pre@), ascii(post@)),
{
    let p = pre.unicode_len();
    let q = post.unicode_len();
    if p > b.len() || q > b.len() - p {
        return false;
    }
    ascii_at(b, 0, pre) && ascii_at(b, b.len() - q, post)
}

fn kind_in(b: &[u8], start: usize, end: usize) -> (r: Option<IoErrorKind>)
    requires
        start <= end <= b@.len(),
    ensures
        r == kind_of(b@.subrange(start as int, end as int)),
{
    if ascii_range_is(b, start, end, "NotFound") {
        Some(IoErrorKind::NotFound)
    } else if ascii_range_is(b, start, end, "PermissionDenied") {
        Some(IoErrorKind::PermissionDenied)
    } else if ascii_range_is(b, start, end, "AlreadyExists") {
        Some(IoErrorKind::AlreadyExists)
    } else if ascii_range_is(b, start, end, "InvalidInput") {
        Some(IoErrorKind::InvalidInput)
    } else if ascii_range_is(b, start, end, "Other") {
        Some(IoErrorKind::Other)
    } else {
        None
    }
}

fn metadata_in_as(b: &[u8], start: usize, end: usize, t: FileType, name: &str) -> (r: Option<
    FileMetadata,
>)
    requires
        start <= end <= b@.len(),
        name@ == file_type_name(t),
    ensures
        r == metadata_as(b@.subrange(start as int, end as int), t),
{
    let ghost s = b@.subrange(start as int, end as int);
    let ghost pre = ascii(file_type_name(t)) + ascii("\",\"len\":"@);
    let n = name.unicode_len();
    let m = "\",\"len\":".unicode_len();
    if n > end - start || m > end - start - n {
        return None;
    }
    let head = ascii_at(b, start, name) && ascii_at(b, start + n, "\",\"len\":");
    proof {
        assert(pre.len() == n + m);
        assert(pre.subrange(0, n as int) =~= ascii(name@));
        assert(pre.subrange(n as int, (n + m) as int) =~= ascii("\",\"len\":"@));
        if s.subrange(0, pre.len() as int) == pre {
            assert(b@.subrange(start as int, start + n) =~= s.subrange(0, pre.len() as int).subrange(0, n as int));
            assert(b@.subrange(start + n, start + n + m) =~= s.subrange(0, pre.len() as int).subrange(n as int, (n + m) as int));
        }
        if head {
            assert(s.subrange(0, pre.len() as int) =~= pre);
        }
    }
    if !head {
        return None;
    }
    assert(s.subrange(pre.len() as int, s.len() as int) =~= b@.subrange(start + n + m, end as int));
    match parse_number(b, start + n + m, end) {
        Some(len) => Some(FileMetadata { file_type: t, len }),
        None => None,
    }
}

fn metadata_in(b: &[u8], start: usize, end: usize) -> (r: Option<FileMetadata>)
    requires
        start <= end <= b@.len(),
    ensures
        r == metadata_of(b@.subrange(start as int, end as int)),
{
    let f = metadata_in_as(b, start, end, FileType::File, "File");
    if f.is_some() {
        return f;
    }
    let d = metadata_in_as(b, start, end, FileType::Directory, "Directory");
    if d.is_some() {
        return d;
    }
    let l = metadata_in_as(b, start, end, FileType::Symlink, "Symlink");
    if l.is_some() {
        return l;
    }
    metadata_in_as(b, start, end, FileType::Other, "Other")
}

/// The driver response that `b` encodes, if any.
pub fn decode_response(b: &[u8]) -> (r: Option<VfsResponse>)
    ensures
        r == response_of(b@),
{
    proof {
        reveal_strlit("}");
        reveal_strlit("}}");
        reveal_strlit("\"}");
    }
    if ascii_is(b, "\"Ok\"") {
        return Some(VfsResponse::Done);
    }
    if ascii_is(b, "\"Read\"") {
        return Some(VfsResponse::Read);
    }
    let len = b.len();
    if is_framed(b, "{\"SeekFrom\":", "}") {
        let p = "{\"SeekFrom\":".unicode_len();
        if let Some(n) = parse_number(b, p, len - 1) {
            return Some(VfsResponse::SeekFrom(n));
        }
    }
    if is_framed(b, "{\"Metadata\":{\"file_type\":\"", "}}") {
        let p = "{\"Metadata\":{\"file_type\":\"".unicode_len();
        if let Some(m) = metadata_in(b, p, len - 2) {
            return Some(VfsResponse::Metadata(m));
        }
    }
    if is_framed(b, "{\"Err\":\"", "\"}") {
        let p = "{\"Err\":\"".unicode_len();
        if let Some(k) = kind_in(b, p, len - 2) {
            return Some(VfsResponse::Failed(k));
        }
    }
    None
}

// ---------------------------------------------------------------------------
// Calls to the driver
// ---------------------------------------------------------------------------

/// Whether `a` is the filesystem driver on the caller's own node.
pub open spec fn is_driver_address(a: Address) -> bool {
    &&& a.node@ == "our"@
    &&& a.process.process_name@ == "vfs"@
    &&& a.process.package_name@ == "sys"@
    &&& a.process.publisher_node@ == "uqbar"@
}

/// The attachment that carries `data`, if any.
pub open spec fn blob_of(data: Option<Vec<u8>>) -> Option<Payload> {
    match data {
        Some(bytes) => Some(Payload { mime: None, bytes }),
        None => None,
    }
}

/// Whether `o` is the awaited call asking the driver to do `action` on `path`,
/// with `data` attached.
pub open spec fn is_driver_call(
    o: OutgoingRequest,
    path: Seq<char>,
    action: VfsAction,
    data: Option<Vec<u8>>,
) -> bool {
    &&& is_driver_address(o.target)
    &&& !o.request.inherit
    &&& o.request.expects_response == Some(DRIVER_TIMEOUT)
    &&& o.request.body@ == request_bytes(path, action)
    &&& o.request.metadata is None
    &&& o.context is None
    &&& o.payload == blob_of(data)
}

/// The address of the filesystem driver on the caller's own node.
pub fn driver_address() -> (r: Address)
    ensures
        is_driver_address(r),
{
    Address { node: String::from_str("our"), process: ProcessId::new("vfs", "sys", "uqbar") }
}

/// The awaited call asking the driver to do `action` on `path`, with `data`
/// attached.
pub fn driver_call(path: &str, action: VfsAction, data: Option<Vec<u8>>) -> (r: Result<
    OutgoingRequest,
    RequestError,
>)
    ensures
        r is Ok,
        is_driver_call(r->Ok_0, path@, action, data),
{
    let request = match Request::new().target(driver_address()) {
        Ok(request) => request,
        // An `Address` always converts, so this arm is never taken.
        Err(_) => {
            return Err(RequestError::MissingFields);
        },
    };
    let request = request.ipc_bytes(encode_request(path, action));
    let request = match data {
        Some(bytes) => request.payload_bytes(bytes),
        None => request,
    };
    request.send_and_await_response(DRIVER_TIMEOUT)
}

/// The driver's response, given what the transport handed back for the call.
pub open spec fn reply_outcome(reply: Result<(Address, Message), SendError>) -> Result<
    VfsResponse,
    VfsError,
> {
    match reply {
        Err(e) => Err(VfsError::Send(e.kind)),
        Ok((_, Message::Request { .. })) => Err(VfsError::UnexpectedMessage),
        Ok((_, Message::Response { body, .. })) => match response_of(body@) {
            Some(resp) => Ok(resp),
            None => Err(VfsError::BadResponse),
        },
    }
}

/// The driver's response, given what the transport handed back for the call.
pub fn driver_response(reply: &Result<(Address, Message), SendError>) -> (r: Result<
    VfsResponse,
    VfsError,
>)
    ensures
        r == reply_outcome(*reply),
{
    match reply {
        Err(e) => Err(VfsError::Send(e.kind)),
        Ok((_, Message::Request { .. })) => Err(VfsError::UnexpectedMessage),
        Ok((_, Message::Response { body, .. })) => match decode_response(body.as_slice()) {
            Some(resp) => Ok(resp),
            None => Err(VfsError::BadResponse),
        },
    }
}

/// The outcome of an action that the driver acknowledges with `Ok`.
pub open spec fn done_outcome(o: Result<VfsResponse, VfsError>) -> Result<(), VfsError> {
    match o {
        Ok(VfsResponse::Done) => Ok(()),
        Ok(VfsResponse::Failed(k)) => Err(VfsError::Io(k)),
        Ok(_) => Err(VfsError::UnexpectedResponse),
        Err(e) => Err(e),
    }
}

/// The outcome of a read: the attached data once the driver answers `Read`.
pub open spec fn read_outcome(o: Result<VfsResponse, VfsError>, blob: Option<Payload>) -> Result<
    Vec<u8>,
    VfsError,
> {
    match o {
        Ok(VfsResponse::Read) => match blob {
            Some(p) => Ok(p.bytes),
            None => Err(VfsError::NoPayload),
        },
        Ok(VfsResponse::Failed(k)) => Err(VfsError::Io(k)),
        Ok(_) => Err(VfsError::UnexpectedResponse),
        Err(e) => Err(e),
    }
}

fn expect_done(reply: &Result<(Address, Message), SendError>) -> (r: Result<(), VfsError>)
    ensures
        r == done_outcome(reply_outcome(*reply)),
{
    match driver_response(reply) {
        Ok(VfsResponse::Done) => Ok(()),
        Ok(VfsResponse::Failed(k)) => Err(VfsError::Io(k)),
        Ok(_) => Err(VfsError::UnexpectedResponse),
        Err(e) => Err(e),
    }
}

fn expect_read(reply: &Result<(Address, Message), SendError>, blob: Option<Payload>) -> (r: Result<
    Vec<u8>,
    VfsError,
>)
    ensures
        r == read_outcome(reply_outcome(*reply), blob),
{
    match driver_response(reply) {
        Ok(VfsResponse::Read) => match blob {
            Some(p) => Ok(p.bytes),
            None => Err(VfsError::NoPayload),
        },
        Ok(VfsResponse::Failed(k)) => Err(VfsError::Io(k)),
        Ok(_) => Err(VfsError::UnexpectedResponse),
        Err(e) => Err(e),
    }
}

/// Copies as much of `data` as fits to the front of `buffer`; returns how much.
fn copy_front(buffer: &mut Vec<u8>, data: &Vec<u8>) -> (r: usize)
    ensures
        r == if data@.len() < old(buffer)@.len() {
            data@.len()
        } else {
            old(buffer)@.len()
        },
        final(buffer)@ == data@.subrange(0, r as int) + old(buffer)@.subrange(
            r as int,
            old(buffer)@.len() as int,
        ),
{
    let n = if data.len() < buffer.len() {
        data.len()
    } else {
        buffer.len()
    };
    let mut i: usize = 0;
    while i < n
        invariant
            n <= data@.len(),
            n <= old(buffer)@.len(),
            i <= n,
            buffer@.len() == old(buffer)@.len(),
            forall|k: int| 0 <= k < i ==> buffer@[k] == data@[k],
            forall|k: int| i <= k < buffer@.len() ==> buffer@[k] == old(buffer)@[k],
        decreases n - i,
    {
        buffer.set(i, data[i]);
        i = i + 1;
    }
    assert(buffer@ =~= data@.subrange(0, n as int) + old(buffer)@.subrange(
        n as int,
        old(buffer)@.len() as int,
    ));
    n
}

/// A file of the filesystem driver, named by its path.
pub struct File {
    pub path: String,
}

impl File {
    /// The call that reads the whole file.
    pub fn read_request(&self) -> (r: Result<OutgoingRequest, RequestError>)
        ensures
            r is Ok,
            is_driver_call(r->Ok_0, self.path@, VfsAction::Read, None),
    {
        driver_call(self.path.as_str(), VfsAction::Read, None)
    }

    /// The contents of the file, given the reply to `read_request` and the
    /// attachment that came with it.
    pub fn read(&self, reply: &Result<(Address, Message), SendError>, blob: Option<Payload>) -> (r:
        Result<Vec<u8>, VfsError>)
        ensures
            r == read_outcome(reply_outcome(*reply), blob),
    {
        expect_read(reply, blob)
    }

    /// Given the reply to `read_request` and its attachment, copies as much of
    /// the contents as fits to the front of `buffer` and returns how much.
    pub fn read_into(
        &self,
        reply: &Result<(Address, Message), SendError>,
        blob: Option<Payload>,
        buffer: &mut Vec<u8>,
    ) -> (r: Result<usize, VfsError>)
        ensures
            match read_outcome(reply_outcome(*reply), blob) {
                Ok(data) => {
                    let n = if data@.len() < old(buffer)@.len() {
                        data@.len()
                    } else {
                        old(buffer)@.len()
                    };
                    &&& r == Ok::<usize, VfsError>(n as usize)
                    &&& final(buffer)@ == data@.subrange(0, n as int) + old(buffer)@.subrange(
                        n as int,
                        old(buffer)@.len() as int,
                    )
                },
                Err(e) => r == Err::<usize, VfsError>(e) && final(buffer)@ == old(buffer)@,
            },
    {
        match expect_read(reply, blob) {
            Ok(data) => Ok(copy_front(buffer, &data)),
            Err(e) => Err(e),
        }
    }

    /// The call that reads `length` bytes from the cursor.
    pub fn read_at_request(&self, length: u64) -> (r: Result<OutgoingRequest, RequestError>)
        ensures
            r is Ok,
            is_driver_call(r->Ok_0, self.path@, VfsAction::ReadExact(length), None),
    {
        driver_call(self.path.as_str(), VfsAction::ReadExact(length), None)
    }

    /// Given the reply to `read_at_request` and its attachment, copies as much of
    /// the data as fits to the front of `buffer` and returns how much.
    pub fn read_at(
        &self,
        reply: &Result<(Address, Message), SendError>,
        blob: Option<Payload>,
        buffer: &mut Vec<u8>,
    ) -> (r: Result<usize, VfsError>)
        ensures
            match read_outcome(reply_outcome(*reply), blob) {
                Ok(data) => {
                    let n = if data@.len() < old(buffer)@.len() {
                        data@.len()
                    } else {
                        old(buffer)@.len()
                    };
                    &&& r == Ok::<usize, VfsError>(n as usize)
                    &&& final(buffer)@ == data@.subrange(0, n as int) + old(buffer)@.subrange(
                        n as int,
                        old(buffer)@.len() as int,
                    )
                },
                Err(e) => r == Err::<usize, VfsError>(e) && final(buffer)@ == old(buffer)@,
            },
    {
        self.read_into(reply, blob, buffer)
    }

    /// The call that replaces the file's contents with `buffer`.
    pub fn write_request(&self, buffer: Vec<u8>) -> (r: Result<OutgoingRequest, RequestError>)
        ensures
            r is Ok,
            is_driver_call(r->Ok_0, self.path@, VfsAction::Write, Some(buffer)),
    {
        driver_call(self.path.as_str(), VfsAction::Write, Some(buffer))
    }

    /// The outcome of a write, given the reply to `write_request`.
    pub fn write(&self, reply: &Result<(Address, Message), SendError>) -> (r: Result<(), VfsError>)
        ensures
            r == done_outcome(reply_outcome(*reply)),
    {
        expect_done(reply)
    }

    /// The call that writes `buffer` at the cursor.
    pub fn write_at_request(&self, buffer: Vec<u8>) -> (r: Result<OutgoingRequest, RequestError>)
        ensures
            r is Ok,
            is_driver_call(r->Ok_0, self.path@, VfsAction::WriteAt, Some(buffer)),
    {
        driver_call(self.path.as_str(), VfsAction::WriteAt, Some(buffer))
    }

    /// The outcome of a write at the cursor, given the reply to
    /// `write_at_request`.
    pub fn write_at(&self, reply: &Result<(Address, Message), SendError>) -> (r: Result<
        (),
        VfsError,
    >)
        ensures
            r == done_outcome(reply_outcome(*reply)),
    {
        expect_done(reply)
    }

    /// The call that moves the cursor.
    pub fn seek_request(&self, pos: SeekFrom) -> (r: Result<OutgoingRequest, RequestError>)
        ensures
            r is Ok,
            is_driver_call(r->Ok_0, self.path@, VfsAction::Seek { seek_from: pos }, None),
    {
        driver_call(self.path.as_str(), VfsAction::Seek { seek_from: pos }, None)
    }

    /// The new cursor position, given the reply to `seek_request`.
    pub fn seek(&self, reply: &Result<(Address, Message), SendError>) -> (r: Result<u64, VfsError>)
        ensures
            r == match reply_outcome(*reply) {
                Ok(VfsResponse::SeekFrom(n)) => Ok::<u64, VfsError>(n),
                Ok(VfsResponse::Failed(k)) => Err(VfsError::Io(k)),
                Ok(_) => Err(VfsError::UnexpectedResponse),
                Err(e) => Err(e),
            },
    {
        match driver_response(reply) {
            Ok(VfsResponse::SeekFrom(n)) => Ok(n),
            Ok(VfsResponse::Failed(k)) => Err(VfsError::Io(k)),
            Ok(_) => Err(VfsError::UnexpectedResponse),
            Err(e) => Err(e),
        }
    }

    /// The call that sets the file's length; the driver fills growth with zeros.
    pub fn set_len_request(&self, size: u64) -> (r: Result<OutgoingRequest, RequestError>)
        ensures
            r is Ok,
            is_driver_call(r->Ok_0, self.path@, VfsAction::SetLen(size), None),
    {
        driver_call(self.path.as_str(), VfsAction::SetLen(size), None)
    }

    /// The outcome of setting the length, given the reply to `set_len_request`.
    pub fn set_len(&self, reply: &Result<(Address, Message), SendError>) -> (r: Result<
        (),
        VfsError,
    >)
        ensures
            r == done_outcome(reply_outcome(*reply)),
    {
        expect_done(reply)
    }

    /// The call that asks for the file's metadata.
    pub fn metadata_request(&self) -> (r: Result<OutgoingRequest, RequestError>)
        ensures
            r is Ok,
            is_driver_call(r->Ok_0, self.path@, VfsAction::Metadata, None),
    {
        driver_call(self.path.as_str(), VfsAction::Metadata, None)
    }

    /// The file's metadata, given the reply to `metadata_request`.
    pub fn metadata(&self, reply: &Result<(Address, Message), SendError>) -> (r: Result<
        FileMetadata,
        VfsError,
    >)
        ensures
            r == match reply_outcome(*reply) {
                Ok(VfsResponse::Metadata(m)) => Ok::<FileMetadata, VfsError>(m),
                Ok(VfsResponse::Failed(k)) => Err(VfsError::Io(k)),
                Ok(_) => Err(VfsError::UnexpectedResponse),
                Err(e) => Err(e),
            },
    {
        match driver_response(reply) {
            Ok(VfsResponse::Metadata(m)) => Ok(m),
            Ok(VfsResponse::Failed(k)) => Err(VfsError::Io(k)),
            Ok(_) => Err(VfsError::UnexpectedResponse),
            Err(e) => Err(e),
        }
    }

    /// The call that flushes the file to disk.
    pub fn sync_all_request(&self) -> (r: Result<OutgoingRequest, RequestError>)
        ensures
            r is Ok,
            is_driver_call(r->Ok_0, self.path@, VfsAction::SyncAll, None),
    {
        driver_call(self.path.as_str(), VfsAction::SyncAll, None)
    }

    /// The outcome of a flush, given the reply to `sync_all_request`.
    pub fn sync_all(&self, reply: &Result<(Address, Message), SendError>) -> (r: Result<
        (),
        VfsError,
    >)
        ensures
            r == done_outcome(reply_outcome(*reply)),
    {
        expect_done(reply)
    }
}

/// The path of the drive `drive` of a package: `/<package>/<drive>`.
pub open spec fn drive_path_text(package_id: PackageId, drive: Seq<char>) -> Seq<char> {
    seq!['/'] + package_id.canonical() + seq!['/'] + drive
}

/// The path of the drive `drive` of a package.
pub fn drive_path(package_id: &PackageId, drive: &str) -> (r: String)
    ensures
        r@ == drive_path_text(*package_id, drive@),
{
    proof {
        reveal_strlit("/");
    }
    let s = String::from_str("/").concat(package_id.to_string().as_str());
    let s = s.concat("/").concat(drive);
    assert(s@ =~= drive_path_text(*package_id, drive@));
    s
}

/// The path of the new drive and the call that creates it.
pub fn create_drive_request(package_id: &PackageId, drive: &str) -> (r: (
    String,
    Result<OutgoingRequest, RequestError>,
))
    ensures
        r.0@ == drive_path_text(*package_id, drive@),
        r.1 is Ok,
        is_driver_call(r.1->Ok_0, r.0@, VfsAction::CreateDrive, None),
{
    let path = drive_path(package_id, drive);
    let call = driver_call(path.as_str(), VfsAction::CreateDrive, None);
    (path, call)
}

/// The path of the new drive, given the reply to `create_drive_request`.
pub fn create_drive(path: String, reply: &Result<(Address, Message), SendError>) -> (r: Result<
    String,
    VfsError,
>)
    ensures
        match done_outcome(reply_outcome(*reply)) {
            Ok(_) => r == Ok::<String, VfsError>(path),
            Err(e) => r == Err::<String, VfsError>(e),
        },
{
    match expect_done(reply) {
        Ok(()) => Ok(path),
        Err(e) => Err(e),
    }
}

/// The call that opens the file at `path`, creating it if `create` is set.
pub fn open_file_request(path: &str, create: bool) -> (r: Result<OutgoingRequest, RequestError>)
    ensures
        r is Ok,
        is_driver_call(r->Ok_0, path@, VfsAction::OpenFile { create }, None),
{
    driver_call(path, VfsAction::OpenFile { create }, None)
}

/// The opened file, given the reply to `open_file_request`.
pub fn open_file(path: &str, reply: &Result<(Address, Message), SendError>) -> (r: Result<
    File,
    VfsError,
>)
    ensures
        match done_outcome(reply_outcome(*reply)) {
            Ok(_) => r is Ok && r->Ok_0.path@ == path@,
            Err(e) => r == Err::<File, VfsError>(e),
        },
{
    match expect_done(reply) {
        Ok(()) => Ok(File { path: String::from_str(path) }),
        Err(e) => Err(e),
    }
}

/// The call that creates the file at `path`, emptying any file there.
pub fn create_file_request(path: &str) -> (r: Result<OutgoingRequest, RequestError>)
    ensures
        r is Ok,
        is_driver_call(r->Ok_0, path@, VfsAction::CreateFile, None),
{
    driver_call(path, VfsAction::CreateFile, None)
}

/// The created file, given the reply to `create_file_request`.
pub fn create_file(path: &str, reply: &Result<(Address, Message), SendError>) -> (r: Result<
    File,
    VfsError,
>)
    ensures
        match done_outcome(reply_outcome(*reply)) {
            Ok(_) => r is Ok && r->Ok_0.path@ == path@,
            Err(e) => r == Err::<File, VfsError>(e),
        },
{
    match expect_done(reply) {
        Ok(()) => Ok(File { path: String::from_str(path) }),
        Err(e) => Err(e),
    }
}

} // verus!
