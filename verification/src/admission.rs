//! Admission of a viewing request: who may watch, what is watched, and the
//! answer that turns the connection into a message stream.
//!
//! Admission decides from plain values: what the caller may do, what it
//! looked up in the storage engine, and the head of the request.
//! `accept_request` decides in one call. A caller that holds the engine's
//! lock for the lookups takes the steps one by one: `require_view_video`
//! before it takes the lock, `resolve` and the registration of the
//! subscription under the lock, and `upgrade` once the lock is released, so
//! that no segment is lost between the lookup and the upgrade.

use crate::admission::HttpVersion::{Http09, Http10, Http11, Http2, Http3};
use crate::error::ErrorKind;
use crate::model::{Camera, Permissions, StreamType};
use http::{Request, Version};
use tokio_tungstenite::tungstenite::handshake::server::create_response;
use vstd::prelude::*;

verus! {

/// The version of HTTP that a message is written in.
#[derive(Clone, Copy, Debug, PartialEq, Eq, Structural)]
pub enum HttpVersion {
    Http09,
    Http10,
    Http11,
    Http2,
    Http3,
}

/// One header field of a message.
#[derive(Clone, Debug, PartialEq, Eq)]
pub struct Header {
    pub name: String,
    pub value: Vec<u8>,
}

/// A header field, with sequences for its buffers.
pub ghost struct HeaderView {
    pub name: Seq<char>,
    pub value: Seq<u8>,
}

impl View for Header {
    type V = HeaderView;

    open spec fn view(&self) -> HeaderView {
        HeaderView { name: self.name@, value: self.value@ }
    }
}

/// The head of a request: all of it but the address and the body.
#[derive(Clone, Debug, PartialEq, Eq)]
pub struct RequestHead {
    pub method: String,
    pub version: HttpVersion,
    /// The header fields, in the order they came in.
    pub headers: Vec<Header>,
}

/// The head of a request, with sequences for its buffers.
pub ghost struct RequestHeadView {
    pub method: Seq<char>,
    pub version: HttpVersion,
    pub headers: Seq<HeaderView>,
}

impl View for RequestHead {
    type V = RequestHeadView;

    open spec fn view(&self) -> RequestHeadView {
        RequestHeadView {
            method: self.method@,
            version: self.version,
            headers: self.headers@.map_values(|h: Header| h@),
        }
    }
}

/// The head of a response: its status and its header fields. It goes out
/// in the version of the request that it answers.
#[derive(Clone, Debug, PartialEq, Eq)]
pub struct ResponseHead {
    pub status: u16,
    /// The header fields, in the order they are to go out.
    pub headers: Vec<Header>,
}

/// The head of a response, with sequences for its buffers.
pub ghost struct ResponseHeadView {
    pub status: u16,
    pub headers: Seq<HeaderView>,
}

impl View for ResponseHead {
    type V = ResponseHeadView;

    open spec fn view(&self) -> ResponseHeadView {
        ResponseHeadView { status: self.status, headers: self.headers@.map_values(|h: Header| h@) }
    }
}

/// What a viewing request was admitted to.
#[derive(Clone, Copy, Debug, PartialEq, Eq, Structural)]
pub struct Admission {
    /// The stream whose segments the session will carry.
    pub stream_id: i32,
    /// The generation of the storage engine's write ownership at admission.
    pub open_id: u32,
}

/// Why a viewing request was turned away.
#[derive(Clone, Copy, Debug, PartialEq, Eq, Structural)]
pub enum AdmissionError {
    /// The caller lacks the permission to view video.
    ViewVideoRequired,
    /// The storage engine is open read-only: nothing is being recorded.
    ReadOnly,
    /// No camera has the requested identifier.
    NoSuchCamera,
    /// The camera has no stream of the requested type.
    NoSuchStream,
    /// The request is no valid request for a protocol upgrade.
    BadHandshake,
}

impl AdmissionError {
    /// The kind of the error; a malformed upgrade request has none, it is
    /// answered as a bad request.
    pub open spec fn spec_kind(self) -> Option<ErrorKind> {
        match self {
            AdmissionError::ViewVideoRequired => Some(ErrorKind::PermissionDenied),
            AdmissionError::ReadOnly => Some(ErrorKind::FailedPrecondition),
            AdmissionError::NoSuchCamera => Some(ErrorKind::NotFound),
            AdmissionError::NoSuchStream => Some(ErrorKind::NotFound),
            AdmissionError::BadHandshake => None,
        }
    }

    /// The kind of the error, if it has one.
    #[verifier::when_used_as_spec(spec_kind)]
    pub fn kind(self) -> (k: Option<ErrorKind>)
        ensures
            k == self.spec_kind(),
    {
        match self {
            AdmissionError::ViewVideoRequired => Some(ErrorKind::PermissionDenied),
            AdmissionError::ReadOnly => Some(ErrorKind::FailedPrecondition),
            AdmissionError::NoSuchCamera => Some(ErrorKind::NotFound),
            AdmissionError::NoSuchStream => Some(ErrorKind::NotFound),
            AdmissionError::BadHandshake => None,
        }
    }

    /// The HTTP status of the response that reports the error.
    pub open spec fn spec_http_status(self) -> u16 {
        match self.spec_kind() {
            Some(kind) => kind.spec_http_status(),
            None => 400,
        }
    }

    /// The HTTP status of the response that reports the error.
    #[verifier::when_used_as_spec(spec_http_status)]
    pub fn http_status(self) -> (status: u16)
        ensures
            status == self.spec_http_status(),
    {
        match self.kind() {
            Some(kind) => kind.http_status(),
            None => 400,
        }
    }
}

/// The decision on a viewing request. The checks come in this order: the
/// caller's permission, the engine's write generation, the camera, the
/// stream; the first that fails names the error.
pub open spec fn resolve_spec(
    permissions: Permissions,
    open_id: Option<u32>,
    camera: Option<Camera>,
    stream_type: StreamType,
) -> Result<Admission, AdmissionError> {
    if !permissions.view_video {
        Err(AdmissionError::ViewVideoRequired)
    } else if open_id is None {
        Err(AdmissionError::ReadOnly)
    } else if camera is None {
        Err(AdmissionError::NoSuchCamera)
    } else {
        match camera->Some_0.streams[stream_type.spec_index() as int] {
            None => Err(AdmissionError::NoSuchStream),
            Some(stream_id) => Ok(Admission { stream_id, open_id: open_id->Some_0 }),
        }
    }
}

/// Decides on a viewing request.
///
/// `open_id` is the engine's current write generation, `None` while it has
/// none; `camera` is what the engine knows of the requested camera, `None`
/// where it knows no such camera.
pub fn resolve(
    permissions: &Permissions,
    open_id: Option<u32>,
    camera: Option<Camera>,
    stream_type: StreamType,
) -> (r: Result<Admission, AdmissionError>)
    ensures
        r == resolve_spec(*permissions, open_id, camera, stream_type),
{
    if !permissions.view_video {
        return Err(AdmissionError::ViewVideoRequired);
    }
    let open_id = match open_id {
        None => {
            return Err(AdmissionError::ReadOnly);
        },
        Some(id) => id,
    };
    let camera = match camera {
        None => {
            return Err(AdmissionError::NoSuchCamera);
        },
        Some(c) => c,
    };
    match camera.streams[stream_type.index()] {
        None => Err(AdmissionError::NoSuchStream),
        Some(stream_id) => Ok(Admission { stream_id, open_id }),
    }
}

/// Tests the caller's permission alone, before anything is looked up: a
/// caller who is refused here is refused by `resolve` whatever the engine
/// holds.
pub fn require_view_video(permissions: &Permissions) -> (r: Result<(), AdmissionError>)
    ensures
        r == (if permissions.view_video {
            Ok::<(), AdmissionError>(())
        } else {
            Err::<(), AdmissionError>(AdmissionError::ViewVideoRequired)
        }),
        r is Err ==> forall|open_id: Option<u32>, camera: Option<Camera>, stream_type: StreamType|
            #[trigger] resolve_spec(*permissions, open_id, camera, stream_type) == Err::<
                Admission,
                AdmissionError,
            >(AdmissionError::ViewVideoRequired),
{
    if permissions.view_video {
        Ok(())
    } else {
        Err(AdmissionError::ViewVideoRequired)
    }
}

/// A request for a camera that the engine does not know fails as not found,
/// whatever stream it asks for, once the caller may view video and the
/// engine has a write generation.
pub proof fn lemma_unknown_camera_not_found(
    permissions: Permissions,
    open_id: u32,
    stream_type: StreamType,
)
    requires
        permissions.view_video,
    ensures
        resolve_spec(permissions, Some(open_id), None, stream_type) == Err::<
            Admission,
            AdmissionError,
        >(AdmissionError::NoSuchCamera),
        AdmissionError::NoSuchCamera.spec_kind() == Some(ErrorKind::NotFound),
{
}

/// While the engine has no write generation, every request of a caller who
/// may view video fails as a failed precondition, whatever else the caller
/// may do and whatever it asks for.
pub proof fn lemma_read_only_failed_precondition(
    permissions: Permissions,
    camera: Option<Camera>,
    stream_type: StreamType,
)
    requires
        permissions.view_video,
    ensures
        resolve_spec(permissions, None, camera, stream_type) == Err::<Admission, AdmissionError>(
            AdmissionError::ReadOnly,
        ),
        AdmissionError::ReadOnly.spec_kind() == Some(ErrorKind::FailedPrecondition),
{
}

/// A caller without the permission to view video is denied, whatever the
/// state of the engine and whatever it asks for.
pub proof fn lemma_permission_checked_first(
    permissions: Permissions,
    open_id: Option<u32>,
    camera: Option<Camera>,
    stream_type: StreamType,
)
    requires
        !permissions.view_video,
    ensures
        resolve_spec(permissions, open_id, camera, stream_type) == Err::<Admission, AdmissionError>(
            AdmissionError::ViewVideoRequired,
        ),
        AdmissionError::ViewVideoRequired.spec_kind() == Some(ErrorKind::PermissionDenied),
{
}

/// The response by which `tungstenite::handshake::server::create_response`
/// answers a request with this head: the head of the response that upgrades
/// the connection, or `None` where the head is that of no valid request for a
/// WebSocket upgrade.
pub uninterp spec fn upgrade_response(head: RequestHeadView) -> Option<ResponseHeadView>;

/// Builds an `http::Request` of the given method, version and header fields,
/// calls `tungstenite::handshake::server::create_response` on it, and reads
/// the status and the header fields off the response. A head that `http`
/// takes for no request, and a request that `tungstenite` refuses, give
/// `None`. The call reads nothing but the request, and the response lists
/// its fields in the order they were set, so the result is
/// `upgrade_response` of the head.
#[verifier::external_body]
fn create_upgrade_response(head: &RequestHead) -> (r: Option<ResponseHead>)
    ensures
        match r {
            Some(response) => upgrade_response(head@) == Some(response@),
            None => upgrade_response(head@) is None,
        },
{
    let version = match head.version {
        Http09 => Version::HTTP_09,
        Http10 => Version::HTTP_10,
        Http11 => Version::HTTP_11,
        Http2 => Version::HTTP_2,
        Http3 => Version::HTTP_3,
    };
    let mut request = Request::builder().method(&*head.method).version(version);
    for h in head.headers.iter() {
        request = request.header(&*h.name, &*h.value);
    }
    let response = create_response(&request.body(()).ok()?).ok()?;
    let fields = response.headers().iter();
    let headers = fields.map(|(n, v)| Header { name: n.to_string(), value: v.as_bytes().to_vec() });
    Some(ResponseHead { status: response.status().as_u16(), headers: headers.collect() })
}

/// What admission makes of the handshake's result: the response as it is, or
/// the refusal of a malformed upgrade request.
pub fn upgrade_outcome(handshake: Option<ResponseHead>) -> (r: Result<ResponseHead, AdmissionError>)
    ensures
        match handshake {
            Some(response) => r == Ok::<ResponseHead, AdmissionError>(response),
            None => r == Err::<ResponseHead, AdmissionError>(AdmissionError::BadHandshake),
        },
{
    match handshake {
        Some(response) => Ok(response),
        None => Err(AdmissionError::BadHandshake),
    }
}

/// The answer to an upgrade request: the head of the response that upgrades
/// the connection where the request is a valid one, the refusal where it is
/// not.
pub open spec fn upgrade_spec(head: RequestHeadView) -> Result<ResponseHeadView, AdmissionError> {
    match upgrade_response(head) {
        Some(response) => Ok(response),
        None => Err(AdmissionError::BadHandshake),
    }
}

/// Builds the response that upgrades the connection of a request.
pub fn upgrade(head: &RequestHead) -> (r: Result<ResponseHead, AdmissionError>)
    ensures
        match r {
            Ok(response) => upgrade_spec(head@) == Ok::<ResponseHeadView, AdmissionError>(
                response@,
            ),
            Err(e) => upgrade_spec(head@) == Err::<ResponseHeadView, AdmissionError>(e),
        },
{
    upgrade_outcome(create_upgrade_response(head))
}

/// Admits a viewing request: decides on it as `resolve` does and, where it is
/// admitted, builds the response that upgrades the connection.
///
/// A request that `resolve` turns away is never upgraded: it fails with
/// that error, and no response exists. An admitted request is upgraded
/// exactly when it is a valid upgrade request.
pub fn accept_request(
    permissions: &Permissions,
    open_id: Option<u32>,
    camera: Option<Camera>,
    stream_type: StreamType,
    head: &RequestHead,
) -> (r: Result<(Admission, ResponseHead), AdmissionError>)
    ensures
        match resolve_spec(*permissions, open_id, camera, stream_type) {
            Err(e) => r == Err::<(Admission, ResponseHead), AdmissionError>(e),
            Ok(admission) => match upgrade_response(head@) {
                Some(response) => r matches Ok((admitted, built)) && admitted == admission
                    && built@ == response,
                None => r == Err::<(Admission, ResponseHead), AdmissionError>(
                    AdmissionError::BadHandshake,
                ),
            },
        },
{
    let admission = match resolve(permissions, open_id, camera, stream_type) {
        Err(e) => {
            return Err(e);
        },
        Ok(a) => a,
    };
    match upgrade(head) {
        Ok(response) => Ok((admission, response)),
        Err(e) => Err(e),
    }
}

} // verus!
