use liveview::admission::Admission;
use liveview::error::ErrorKind;
use liveview::keepalive::{Keepalive, KEEPALIVE_PERIOD};
use liveview::model::{LiveSegment, MediaRange, RecordingRow, SegmentNotice};
use liveview::session::{Action, Event, Failure, Outcome, Phase, Session, Stage};

fn session() -> Session {
    Session::new(Admission { stream_id: 7, open_id: 3 })
}

fn notice(recording_id: i32, start: i32, end: i32) -> SegmentNotice {
    SegmentNotice { recording_id, start, end }
}

fn segment(recording_id: i32, start: i32, end: i32) -> LiveSegment {
    LiveSegment {
        stream_id: 7,
        recording_id,
        media_offset_range: MediaRange::new(start, end).unwrap(),
    }
}

fn row() -> RecordingRow {
    RecordingRow {
        start: 147_060_894_000_000,
        run_offset: 0,
        prev_media_duration: 5_400_000,
        prev_runs: 4,
        video_sample_entry_id: 12,
    }
}

fn built(body: &[u8]) -> Event {
    Event::Built { row: row(), content_type: b"video/mp4".to_vec(), body: body.to_vec() }
}

fn header_value(message: &[u8], name: &str) -> String {
    let end = message.windows(4).position(|w| w == b"\r\n\r\n").unwrap();
    let head = std::str::from_utf8(&message[..end]).unwrap();
    for line in head.split("\r\n") {
        if let Some(value) = line.strip_prefix(&format!("{}: ", name)) {
            return value.to_string();
        }
    }
    panic!("no header {}", name);
}

/// Delivers one segment through a session whose collaborators succeed and
/// returns the flag of the build and the message.
fn deliver(s: &mut Session, seg: LiveSegment, body: &[u8]) -> (bool, Vec<u8>) {
    let announced =
        notice(seg.recording_id, seg.media_offset_range.start(), seg.media_offset_range.end());
    assert_eq!(
        s.step(Event::Segment(announced)),
        Action::Query { stream_id: 7, recording_id: seg.recording_id }
    );
    let flag = match s.step(Event::Rows(1)) {
        Action::Build { segment, start_at_key } => {
            assert_eq!(segment, seg);
            start_at_key
        }
        other => panic!("unexpected {:?}", other),
    };
    let message = match s.step(built(body)) {
        Action::SendFragment(m) => m,
        other => panic!("unexpected {:?}", other),
    };
    assert_eq!(s.phase(), Phase::Sending(Stage::WriteFragment));
    assert_eq!(s.step(Event::Written), Action::Wait);
    assert_eq!(s.phase(), Phase::AwaitingEvent);
    (flag, message)
}

#[test]
fn new_session_awaits_an_event_and_owes_a_key_frame() {
    let s = session();
    assert_eq!(s.phase(), Phase::AwaitingEvent);
    assert!(s.start_at_key());
    assert_eq!(s.outcome(), None);
    assert_eq!(s.next_ping_due(), Some(0));
    let state = s.state();
    assert_eq!(state.stream_id, 7);
    assert_eq!(state.open_id, 3);
    assert_eq!(state.keepalive, Keepalive { last_ping: None });
}

#[test]
fn two_segments_of_one_recording() {
    let mut s = session();
    let (first_flag, first) = deliver(&mut s, segment(100, 0, 900), b"one");
    assert!(first_flag);
    assert_eq!(header_value(&first, "X-Recording-Id"), "3.100");
    assert_eq!(header_value(&first, "X-Media-Time-Range"), "0-900");
    assert!(first.ends_with(b"\r\n\r\none"));
    assert!(!s.start_at_key());

    let (second_flag, second) = deliver(&mut s, segment(100, 900, 1800), b"two");
    assert!(!second_flag);
    assert_eq!(header_value(&second, "X-Recording-Id"), "3.100");
    assert_eq!(header_value(&second, "X-Media-Time-Range"), "900-1800");
    assert!(second.ends_with(b"\r\n\r\ntwo"));
    assert!(!s.start_at_key());
}

#[test]
fn fragment_message_carries_every_header() {
    let mut s = session();
    let (_, message) = deliver(&mut s, segment(100, 0, 900), &[1, 2, 3]);
    let expected_head = "Content-Type: video/mp4\r\n\
        X-Recording-Start: 147060894000000\r\n\
        X-Recording-Id: 3.100\r\n\
        X-Media-Time-Range: 0-900\r\n\
        X-Prev-Media-Duration: 5400000\r\n\
        X-Runs: 5\r\n\
        X-Video-Sample-Entry-Id: 12\r\n\r\n";
    let mut expected = expected_head.as_bytes().to_vec();
    expected.extend_from_slice(&[1, 2, 3]);
    assert_eq!(message, expected);
}

#[test]
fn queue_closed_before_any_segment_is_a_normal_end() {
    let mut s = session();
    assert_eq!(s.step(Event::QueueClosed), Action::Stop(Outcome::Normal));
    assert_eq!(s.phase(), Phase::Closed(Outcome::Normal));
    assert_eq!(s.outcome(), Some(Outcome::Normal));
    assert_eq!(s.next_ping_due(), None);
}

#[test]
fn queue_closed_after_pings_only_is_a_normal_end() {
    let mut s = session();
    assert_eq!(s.step(Event::Tick(0)), Action::SendPing);
    assert_eq!(s.step(Event::Written), Action::Wait);
    assert_eq!(s.step(Event::Tick(30)), Action::SendPing);
    assert_eq!(s.step(Event::Written), Action::Wait);
    assert!(s.start_at_key());
    assert_eq!(s.step(Event::QueueClosed), Action::Stop(Outcome::Normal));
    assert_eq!(s.outcome(), Some(Outcome::Normal));
}

#[test]
fn n_segments_give_n_fragments_in_order() {
    let mut s = session();
    let mut sent = Vec::new();
    let mut flags = Vec::new();
    let mut now = 0u64;
    for i in 0..20i32 {
        if i % 3 == 0 {
            if s.step(Event::Tick(now)) == Action::SendPing {
                assert_eq!(s.step(Event::Written), Action::Wait);
            }
        }
        now += 11;
        let (flag, message) = deliver(&mut s, segment(100 + i / 4, (i % 4) * 900, (i % 4 + 1) * 900), &[i as u8]);
        flags.push(flag);
        sent.push(message);
    }
    assert_eq!(s.step(Event::QueueClosed), Action::Stop(Outcome::Normal));
    assert_eq!(sent.len(), 20);
    for (i, message) in sent.iter().enumerate() {
        let i = i as i32;
        assert_eq!(header_value(message, "X-Recording-Id"), format!("3.{}", 100 + i / 4));
        assert_eq!(
            header_value(message, "X-Media-Time-Range"),
            format!("{}-{}", (i % 4) * 900, (i % 4 + 1) * 900)
        );
        assert_eq!(*message.last().unwrap(), i as u8);
        assert_eq!(flags[i as usize], i == 0);
    }
}

#[test]
fn no_row_ends_the_session_as_internal() {
    let mut s = session();
    s.step(Event::Segment(notice(100, 0, 900)));
    let failed = Outcome::Failed(Failure::RowCount);
    assert_eq!(s.step(Event::Rows(0)), Action::Stop(failed));
    assert_eq!(s.phase(), Phase::Closed(failed));
    assert_eq!(Failure::RowCount.kind(), Some(ErrorKind::Internal));
}

#[test]
fn two_rows_end_the_session_as_internal() {
    let mut s = session();
    s.step(Event::Segment(notice(100, 0, 900)));
    let failed = Outcome::Failed(Failure::RowCount);
    assert_eq!(s.step(Event::Rows(2)), Action::Stop(failed));
    let mut many = session();
    many.step(Event::Segment(notice(100, 0, 900)));
    assert_eq!(many.step(Event::Rows(usize::MAX)), Action::Stop(failed));
    assert_eq!(s.outcome(), Some(failed));
}

#[test]
fn closed_session_sends_nothing_more() {
    let mut s = session();
    s.step(Event::Segment(notice(100, 0, 900)));
    let failed = Outcome::Failed(Failure::RowCount);
    s.step(Event::Rows(0));
    let later = vec![
        Event::Segment(notice(100, 900, 1800)),
        Event::Tick(1000),
        Event::Rows(1),
        built(b"x"),
        Event::Written,
        Event::WriteFailed,
        Event::QueryFailed,
        Event::BuildFailed,
        Event::QueueClosed,
    ];
    for event in later {
        assert_eq!(s.step(event), Action::Stop(failed));
        assert_eq!(s.phase(), Phase::Closed(failed));
    }
}

#[test]
fn query_failure_ends_the_session() {
    let mut s = session();
    s.step(Event::Segment(notice(100, 0, 900)));
    let failed = Outcome::Failed(Failure::Query);
    assert_eq!(s.step(Event::QueryFailed), Action::Stop(failed));
    assert_eq!(s.outcome(), Some(failed));
    assert_eq!(Failure::Query.kind(), None);
}

#[test]
fn build_failure_ends_the_session_with_nothing_written() {
    let mut s = session();
    s.step(Event::Segment(notice(100, 0, 900)));
    s.step(Event::Rows(1));
    assert_eq!(s.phase(), Phase::Sending(Stage::Build(segment(100, 0, 900))));
    let failed = Outcome::Failed(Failure::Build);
    assert_eq!(s.step(Event::BuildFailed), Action::Stop(failed));
    assert_eq!(s.outcome(), Some(failed));
    assert_eq!(Failure::Build.kind(), None);
}

#[test]
fn fragment_write_failure_ends_the_session() {
    let mut s = session();
    s.step(Event::Segment(notice(100, 0, 900)));
    s.step(Event::Rows(1));
    s.step(built(b"x"));
    let failed = Outcome::Failed(Failure::Write);
    assert_eq!(s.step(Event::WriteFailed), Action::Stop(failed));
    assert_eq!(s.outcome(), Some(failed));
    assert!(s.start_at_key());
    assert_eq!(Failure::Write.kind(), None);
}

#[test]
fn ping_write_failure_ends_the_session() {
    let mut s = session();
    assert_eq!(s.step(Event::Tick(5)), Action::SendPing);
    assert_eq!(s.phase(), Phase::Sending(Stage::WritePing));
    let failed = Outcome::Failed(Failure::Write);
    assert_eq!(s.step(Event::WriteFailed), Action::Stop(failed));
    assert_eq!(s.outcome(), Some(failed));
}

#[test]
fn ping_leaves_the_key_frame_flag_alone() {
    let mut s = session();
    assert_eq!(s.step(Event::Tick(0)), Action::SendPing);
    assert_eq!(s.step(Event::Written), Action::Wait);
    assert!(s.start_at_key());
    assert_eq!(s.phase(), Phase::AwaitingEvent);
    let (flag, _) = deliver(&mut s, segment(1, 0, 1), b"");
    assert!(flag);
    assert_eq!(s.step(Event::Tick(30)), Action::SendPing);
    assert_eq!(s.step(Event::Written), Action::Wait);
    assert!(!s.start_at_key());
}

#[test]
fn pings_keep_their_distance() {
    let mut s = session();
    let mut pings = Vec::new();
    for now in [3u64, 4, 32, 33, 40, 62, 63, 64, 93, 1000, 1029, 1030] {
        if s.step(Event::Tick(now)) == Action::SendPing {
            pings.push(now);
            assert_eq!(s.step(Event::Written), Action::Wait);
        } else {
            assert_eq!(s.phase(), Phase::AwaitingEvent);
        }
    }
    assert_eq!(pings, vec![3, 33, 63, 93, 1000, 1030]);
    for pair in pings.windows(2) {
        assert!(pair[1] - pair[0] >= KEEPALIVE_PERIOD);
    }
}

#[test]
fn tick_from_a_clock_that_went_back_is_no_ping() {
    let mut s = session();
    assert_eq!(s.step(Event::Tick(100)), Action::SendPing);
    assert_eq!(s.step(Event::Written), Action::Wait);
    assert_eq!(s.step(Event::Tick(50)), Action::Wait);
    assert_eq!(s.step(Event::Tick(129)), Action::Wait);
    assert_eq!(s.next_ping_due(), Some(130));
    assert_eq!(s.step(Event::Tick(130)), Action::SendPing);
}

#[test]
fn events_that_are_not_awaited_change_nothing() {
    let mut s = session();
    for event in [
        Event::Rows(1),
        Event::QueryFailed,
        built(b"x"),
        Event::BuildFailed,
        Event::Written,
        Event::WriteFailed,
    ] {
        assert_eq!(s.step(event), Action::Wait);
        assert_eq!(s.state(), session().state());
    }
    s.step(Event::Segment(notice(100, 0, 900)));
    let querying = s.state();
    for event in [
        Event::Segment(notice(100, 900, 1800)),
        Event::Tick(0),
        Event::QueueClosed,
        built(b"x"),
        Event::BuildFailed,
        Event::Written,
        Event::WriteFailed,
    ] {
        assert_eq!(s.step(event), Action::Wait);
        assert_eq!(s.state(), querying);
    }
    s.step(Event::Rows(1));
    let building = s.state();
    for event in [Event::Tick(0), Event::QueueClosed, Event::Rows(0), Event::Written] {
        assert_eq!(s.step(event), Action::Wait);
        assert_eq!(s.state(), building);
    }
    s.step(built(b"x"));
    let writing = s.state();
    for event in [Event::Tick(0), Event::QueueClosed, Event::Rows(0), built(b"y")] {
        assert_eq!(s.step(event), Action::Wait);
        assert_eq!(s.state(), writing);
    }
}

#[test]
fn query_names_the_sessions_stream() {
    let mut s = Session::new(Admission { stream_id: -2, open_id: u32::MAX });
    assert_eq!(
        s.step(Event::Segment(notice(i32::MAX, 0, 1))),
        Action::Query { stream_id: -2, recording_id: i32::MAX }
    );
    assert_eq!(
        s.phase(),
        Phase::Sending(Stage::Query(LiveSegment {
            stream_id: -2,
            recording_id: i32::MAX,
            media_offset_range: MediaRange::new(0, 1).unwrap(),
        }))
    );
}

#[test]
fn segment_without_a_range_ends_the_session_as_internal() {
    let failed = Outcome::Failed(Failure::Range);
    for (start, end) in [(900, 900), (901, 900), (i32::MAX, i32::MIN), (0, 0)] {
        let mut s = session();
        assert_eq!(s.step(Event::Segment(notice(100, start, end))), Action::Stop(failed));
        assert_eq!(s.outcome(), Some(failed));
        assert_eq!(s.step(Event::Rows(1)), Action::Stop(failed));
    }
    assert_eq!(Failure::Range.kind(), Some(ErrorKind::Internal));
}

#[test]
fn header_is_made_of_the_row_that_comes_with_the_fragment() {
    let mut s = session();
    s.step(Event::Segment(notice(100, 0, 900)));
    s.step(Event::Rows(1));
    let other = RecordingRow { start: 5, run_offset: 2, prev_media_duration: 6, prev_runs: 7, video_sample_entry_id: 8 };
    let message = match s.step(Event::Built { row: other, content_type: b"a/b".to_vec(), body: vec![] }) {
        Action::SendFragment(m) => m,
        other => panic!("unexpected {:?}", other),
    };
    assert_eq!(header_value(&message, "Content-Type"), "a/b");
    assert_eq!(header_value(&message, "X-Recording-Start"), "5");
    assert_eq!(header_value(&message, "X-Prev-Media-Duration"), "6");
    assert_eq!(header_value(&message, "X-Runs"), "7");
    assert_eq!(header_value(&message, "X-Video-Sample-Entry-Id"), "8");
}

#[test]
fn keepalive_schedule() {
    let mut k = Keepalive::new();
    assert_eq!(k.last_ping, None);
    assert!(k.due(0));
    assert!(k.due(u64::MAX));
    assert_eq!(k.next_due(), Some(0));
    assert!(k.tick(10));
    assert_eq!(k.last_ping, Some(10));
    assert!(!k.due(10));
    assert!(!k.due(39));
    assert!(k.due(40));
    assert!(!k.due(9));
    assert_eq!(k.next_due(), Some(40));
    assert!(!k.tick(39));
    assert_eq!(k.last_ping, Some(10));
    assert!(k.tick(40));
    assert_eq!(k.last_ping, Some(40));
}

#[test]
fn keepalive_at_the_end_of_time() {
    let mut k = Keepalive::new();
    assert!(k.tick(u64::MAX - 29));
    assert_eq!(k.next_due(), None);
    assert!(!k.due(u64::MAX));
    let mut k = Keepalive::new();
    assert!(k.tick(u64::MAX - 30));
    assert_eq!(k.next_due(), Some(u64::MAX));
    assert!(k.due(u64::MAX));
    assert_eq!(KEEPALIVE_PERIOD, 30);
}
