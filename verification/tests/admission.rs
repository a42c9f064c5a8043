use liveview::admission::{
    accept_request, require_view_video, resolve, upgrade, upgrade_outcome, Admission,
    AdmissionError, Header, HttpVersion, RequestHead, ResponseHead,
};
use liveview::error::ErrorKind;
use liveview::model::{Camera, Permissions, StreamType, NUM_STREAM_TYPES};

fn viewer() -> Permissions {
    Permissions { view_video: true, read_camera_configs: false, update_signals: false }
}

fn nobody() -> Permissions {
    Permissions { view_video: false, read_camera_configs: true, update_signals: true }
}

fn camera() -> Camera {
    Camera { streams: [Some(7), None] }
}

fn header(name: &str, value: &str) -> Header {
    Header { name: name.to_string(), value: value.as_bytes().to_vec() }
}

fn upgrade_head() -> RequestHead {
    RequestHead {
        method: "GET".to_string(),
        version: HttpVersion::Http11,
        headers: vec![
            header("Host", "nvr.example"),
            header("Connection", "Upgrade"),
            header("Upgrade", "websocket"),
            header("Sec-WebSocket-Version", "13"),
            header("Sec-WebSocket-Key", "dGhlIHNhbXBsZSBub25jZQ=="),
        ],
    }
}

fn plain_head() -> RequestHead {
    RequestHead {
        method: "GET".to_string(),
        version: HttpVersion::Http11,
        headers: vec![header("Host", "nvr.example")],
    }
}

fn switching_protocols() -> ResponseHead {
    ResponseHead {
        status: 101,
        headers: vec![
            header("connection", "Upgrade"),
            header("upgrade", "websocket"),
            header("sec-websocket-accept", "s3pPLMBiTxaQ9kYGzzhZRbK+xOo="),
        ],
    }
}

#[test]
fn viewer_is_admitted_to_a_configured_stream() {
    assert_eq!(
        resolve(&viewer(), Some(3), Some(camera()), StreamType::Main),
        Ok(Admission { stream_id: 7, open_id: 3 })
    );
    let both = Camera { streams: [Some(7), Some(8)] };
    assert_eq!(
        resolve(&viewer(), Some(u32::MAX), Some(both), StreamType::Sub),
        Ok(Admission { stream_id: 8, open_id: u32::MAX })
    );
}

#[test]
fn caller_without_view_video_is_denied() {
    let r = resolve(&nobody(), Some(3), Some(camera()), StreamType::Main);
    assert_eq!(r, Err(AdmissionError::ViewVideoRequired));
    assert_eq!(r.unwrap_err().kind(), Some(ErrorKind::PermissionDenied));
}

#[test]
fn read_only_engine_fails_the_precondition() {
    let r = resolve(&viewer(), None, Some(camera()), StreamType::Main);
    assert_eq!(r, Err(AdmissionError::ReadOnly));
    assert_eq!(r.unwrap_err().kind(), Some(ErrorKind::FailedPrecondition));
    let all = Permissions { view_video: true, read_camera_configs: true, update_signals: true };
    assert_eq!(resolve(&all, None, None, StreamType::Sub), Err(AdmissionError::ReadOnly));
}

#[test]
fn unknown_camera_is_not_found() {
    let r = resolve(&viewer(), Some(3), None, StreamType::Main);
    assert_eq!(r, Err(AdmissionError::NoSuchCamera));
    assert_eq!(r.unwrap_err().kind(), Some(ErrorKind::NotFound));
}

#[test]
fn stream_that_is_not_configured_is_not_found() {
    let r = resolve(&viewer(), Some(3), Some(camera()), StreamType::Sub);
    assert_eq!(r, Err(AdmissionError::NoSuchStream));
    assert_eq!(r.unwrap_err().kind(), Some(ErrorKind::NotFound));
}

#[test]
fn checks_come_in_order() {
    assert_eq!(resolve(&nobody(), None, None, StreamType::Sub), Err(AdmissionError::ViewVideoRequired));
    assert_eq!(resolve(&viewer(), None, None, StreamType::Sub), Err(AdmissionError::ReadOnly));
    assert_eq!(resolve(&viewer(), Some(1), None, StreamType::Sub), Err(AdmissionError::NoSuchCamera));
}

#[test]
fn error_kinds_map_to_http_statuses() {
    assert_eq!(ErrorKind::PermissionDenied.http_status(), 403);
    assert_eq!(ErrorKind::NotFound.http_status(), 404);
    assert_eq!(ErrorKind::FailedPrecondition.http_status(), 400);
    assert_eq!(ErrorKind::Internal.http_status(), 500);
    assert_eq!(AdmissionError::ViewVideoRequired.http_status(), 403);
    assert_eq!(AdmissionError::ReadOnly.http_status(), 400);
    assert_eq!(AdmissionError::NoSuchCamera.http_status(), 404);
    assert_eq!(AdmissionError::NoSuchStream.http_status(), 404);
    assert_eq!(AdmissionError::BadHandshake.http_status(), 400);
    assert_eq!(AdmissionError::BadHandshake.kind(), None);
}

#[test]
fn stream_types_and_their_slots() {
    assert_eq!(StreamType::Main.index(), 0);
    assert_eq!(StreamType::Sub.index(), 1);
    assert_eq!(StreamType::from_index(0), Some(StreamType::Main));
    assert_eq!(StreamType::from_index(1), Some(StreamType::Sub));
    assert_eq!(StreamType::from_index(2), None);
    assert_eq!(StreamType::from_index(usize::MAX), None);
    assert_eq!(NUM_STREAM_TYPES, 2);
}

#[test]
fn admitted_request_is_upgraded() {
    let (admission, response) =
        accept_request(&viewer(), Some(3), Some(camera()), StreamType::Main, &upgrade_head())
            .unwrap();
    assert_eq!(admission, Admission { stream_id: 7, open_id: 3 });
    assert_eq!(response, switching_protocols());
}

#[test]
fn upgrade_answers_the_key_of_the_request() {
    let mut head = upgrade_head();
    head.headers[4] = header("Sec-WebSocket-Key", "x3JJHMbDL1EzLkh9GBhXDw==");
    let response = upgrade(&head).unwrap();
    assert_eq!(response.status, 101);
    assert_eq!(response.headers[2], header("sec-websocket-accept", "HSmrc0sMlYUkAGmm5OPpG2HaGWk="));
}

#[test]
fn upgrade_reads_the_first_field_of_a_name() {
    let mut head = upgrade_head();
    head.headers.push(header("Sec-WebSocket-Key", "x3JJHMbDL1EzLkh9GBhXDw=="));
    assert_eq!(upgrade(&head), Ok(switching_protocols()));
}

#[test]
fn upgrade_takes_names_in_any_case() {
    let mut head = upgrade_head();
    for h in head.headers.iter_mut() {
        h.name = h.name.to_lowercase();
    }
    head.headers[2].value = b"WebSocket".to_vec();
    assert_eq!(upgrade(&head), Ok(switching_protocols()));
}

#[test]
fn request_that_is_turned_away_is_never_upgraded() {
    let head = upgrade_head();
    assert_eq!(
        accept_request(&nobody(), Some(3), Some(camera()), StreamType::Main, &head),
        Err(AdmissionError::ViewVideoRequired)
    );
    assert_eq!(
        accept_request(&viewer(), None, Some(camera()), StreamType::Main, &head),
        Err(AdmissionError::ReadOnly)
    );
    assert_eq!(
        accept_request(&viewer(), Some(3), None, StreamType::Main, &head),
        Err(AdmissionError::NoSuchCamera)
    );
    assert_eq!(
        accept_request(&viewer(), Some(3), Some(camera()), StreamType::Sub, &head),
        Err(AdmissionError::NoSuchStream)
    );
}

#[test]
fn malformed_upgrade_request_is_a_bad_handshake() {
    let admitted = |head: &RequestHead| {
        accept_request(&viewer(), Some(3), Some(camera()), StreamType::Main, head)
    };
    assert_eq!(admitted(&plain_head()), Err(AdmissionError::BadHandshake));
    let mut post = upgrade_head();
    post.method = "POST".to_string();
    assert_eq!(admitted(&post), Err(AdmissionError::BadHandshake));
    let mut old = upgrade_head();
    old.version = HttpVersion::Http10;
    assert_eq!(admitted(&old), Err(AdmissionError::BadHandshake));
    let mut oldest = upgrade_head();
    oldest.version = HttpVersion::Http09;
    assert_eq!(admitted(&oldest), Err(AdmissionError::BadHandshake));
    let mut other_protocol = upgrade_head();
    other_protocol.headers[2] = header("Upgrade", "h2c");
    assert_eq!(admitted(&other_protocol), Err(AdmissionError::BadHandshake));
    let mut other_version = upgrade_head();
    other_version.headers[3] = header("Sec-WebSocket-Version", "8");
    assert_eq!(admitted(&other_version), Err(AdmissionError::BadHandshake));
    let mut no_key = upgrade_head();
    no_key.headers.truncate(4);
    assert_eq!(admitted(&no_key), Err(AdmissionError::BadHandshake));
}

#[test]
fn later_versions_are_upgraded_too() {
    for version in [HttpVersion::Http11, HttpVersion::Http2, HttpVersion::Http3] {
        let mut head = upgrade_head();
        head.version = version;
        assert_eq!(upgrade(&head), Ok(switching_protocols()));
    }
}

#[test]
fn head_that_is_no_request_is_a_bad_handshake() {
    let mut bad_name = upgrade_head();
    bad_name.headers.push(header("not a name", "x"));
    assert_eq!(upgrade(&bad_name), Err(AdmissionError::BadHandshake));
    let mut bad_value = upgrade_head();
    bad_value.headers.push(Header { name: "X-Note".to_string(), value: vec![b'a', 10, b'b'] });
    assert_eq!(upgrade(&bad_value), Err(AdmissionError::BadHandshake));
    let mut bad_method = upgrade_head();
    bad_method.method = "G E T".to_string();
    assert_eq!(upgrade(&bad_method), Err(AdmissionError::BadHandshake));
}

#[test]
fn earlier_checks_win_over_a_bad_handshake() {
    assert_eq!(
        accept_request(&viewer(), Some(3), None, StreamType::Main, &plain_head()),
        Err(AdmissionError::NoSuchCamera)
    );
}

#[test]
fn upgrade_outcome_passes_the_response_on() {
    assert_eq!(upgrade_outcome(Some(switching_protocols())), Ok(switching_protocols()));
    assert_eq!(upgrade_outcome(None), Err(AdmissionError::BadHandshake));
}

#[test]
fn permission_alone_is_tested_first() {
    assert_eq!(require_view_video(&viewer()), Ok(()));
    assert_eq!(require_view_video(&nobody()), Err(AdmissionError::ViewVideoRequired));
}

#[test]
fn stream_types_have_names() {
    assert_eq!(StreamType::Main.as_str(), "main");
    assert_eq!(StreamType::Sub.as_str(), "sub");
}
