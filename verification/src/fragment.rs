//! The message that carries one live segment to a viewer: a header block of
//! `Name: value` lines, a blank line, and the serialized media fragment.

use crate::ascii::{ascii, crlf, push_ascii, push_crlf};
use crate::decimal::{decimal, push_decimal_i64};
use crate::model::{LiveSegment, MediaRange, RecordingRow, SegmentNotice};
use crate::recording_id::{composite_id, push_composite_id};
use vstd::prelude::*;
use vstd::string::*;

verus! {

pub const COLON: u8 = 58;

pub const SPACE: u8 = 32;

pub const HYPHEN: u8 = 45;

/// One line of a header block: the name, a colon and a space, the value, and
/// the line end.
pub open spec fn header_line(name: Seq<char>, value: Seq<u8>) -> Seq<u8> {
    ascii(name) + seq![COLON, SPACE] + value + crlf()
}

/// The text of a media range: its first tick, a hyphen, and the tick after
/// its last.
pub open spec fn media_time_range(segment: LiveSegment) -> Seq<u8> {
    decimal(segment.media_offset_range.start() as int) + seq![HYPHEN] + decimal(
        segment.media_offset_range.end() as int,
    )
}

/// The header block of the fragment that carries `segment` of the recording
/// described by `row`, sent in a session of generation `open_id`.
pub open spec fn header_block(
    content_type: Seq<u8>,
    open_id: u32,
    segment: LiveSegment,
    row: RecordingRow,
) -> Seq<u8> {
    header_line("Content-Type"@, content_type)
        + header_line("X-Recording-Start"@, decimal(row.start as int))
        + header_line("X-Recording-Id"@, composite_id(open_id, segment.recording_id))
        + header_line("X-Media-Time-Range"@, media_time_range(segment))
        + header_line("X-Prev-Media-Duration"@, decimal(row.prev_media_duration as int))
        + header_line("X-Runs"@, decimal(row.spec_runs()))
        + header_line("X-Video-Sample-Entry-Id"@, decimal(row.video_sample_entry_id as int))
        + crlf()
}

/// The whole message: the header block, then the fragment's bytes.
pub open spec fn fragment_message(
    content_type: Seq<u8>,
    open_id: u32,
    segment: LiveSegment,
    row: RecordingRow,
    body: Seq<u8>,
) -> Seq<u8> {
    header_block(content_type, open_id, segment, row) + body
}

/// The range line of a fragment names the bounds of the notice that
/// announced its segment.
pub proof fn lemma_range_of_notice(stream_id: i32, notice: SegmentNotice)
    ensures
        media_time_range(LiveSegment::spec_of_notice(stream_id, notice)) == decimal(
            notice.start as int,
        ) + seq![HYPHEN] + decimal(notice.end as int),
{
    MediaRange::lemma_bounds(notice.start, notice.end);
}

/// Appends a header name and the separator that follows it.
fn push_name(buf: &mut Vec<u8>, name: &str)
    requires
        is_ascii(name),
    ensures
        final(buf)@ == old(buf)@ + ascii(name@) + seq![COLON, SPACE],
{
    push_ascii(buf, name);
    buf.push(COLON);
    buf.push(SPACE);
    assert(buf@ =~= old(buf)@ + ascii(name@) + seq![COLON, SPACE]);
}

/// Appends a header line whose value is a number.
fn push_number_line(buf: &mut Vec<u8>, name: &str, value: i64)
    requires
        is_ascii(name),
    ensures
        final(buf)@ == old(buf)@ + header_line(name@, decimal(value as int)),
{
    push_name(buf, name);
    push_decimal_i64(buf, value);
    push_crlf(buf);
    assert(buf@ =~= old(buf)@ + header_line(name@, decimal(value as int)));
}

/// Builds the header block of one fragment. The range that it names is
/// never empty: no segment holds an empty one.
pub fn fragment_header(
    content_type: &[u8],
    open_id: u32,
    segment: &LiveSegment,
    row: &RecordingRow,
) -> (header: Vec<u8>)
    ensures
        header@ == header_block(content_type@, open_id, *segment, *row),
        segment.media_offset_range.start() < segment.media_offset_range.end(),
{
    proof {
        reveal_strlit("Content-Type");
        reveal_strlit("X-Recording-Start");
        reveal_strlit("X-Recording-Id");
        reveal_strlit("X-Media-Time-Range");
        reveal_strlit("X-Prev-Media-Duration");
        reveal_strlit("X-Runs");
        reveal_strlit("X-Video-Sample-Entry-Id");
    }
    let mut buf: Vec<u8> = Vec::new();
    push_name(&mut buf, "Content-Type");
    buf.extend_from_slice(content_type);
    push_crlf(&mut buf);
    let ghost line1 = header_line("Content-Type"@, content_type@);
    assert(buf@ =~= line1);

    push_number_line(&mut buf, "X-Recording-Start", row.start);
    let ghost line2 = header_line("X-Recording-Start"@, decimal(row.start as int));
    assert(buf@ == line1 + line2);

    push_name(&mut buf, "X-Recording-Id");
    push_composite_id(&mut buf, open_id, segment.recording_id);
    push_crlf(&mut buf);
    let ghost line3 = header_line("X-Recording-Id"@, composite_id(open_id, segment.recording_id));
    assert(buf@ =~= line1 + line2 + line3);

    push_name(&mut buf, "X-Media-Time-Range");
    push_decimal_i64(&mut buf, segment.media_offset_range.start() as i64);
    buf.push(HYPHEN);
    push_decimal_i64(&mut buf, segment.media_offset_range.end() as i64);
    push_crlf(&mut buf);
    let ghost line4 = header_line("X-Media-Time-Range"@, media_time_range(*segment));
    assert(buf@ =~= line1 + line2 + line3 + line4);

    push_number_line(&mut buf, "X-Prev-Media-Duration", row.prev_media_duration);
    push_number_line(&mut buf, "X-Runs", row.runs());
    push_number_line(&mut buf, "X-Video-Sample-Entry-Id", row.video_sample_entry_id as i64);
    push_crlf(&mut buf);
    buf
}

/// Builds the message of one fragment: the header block followed by the
/// serialized fragment, in one buffer, so that it is written whole or not at
/// all.
pub fn build_fragment_message(
    content_type: &[u8],
    open_id: u32,
    segment: &LiveSegment,
    row: &RecordingRow,
    body: &[u8],
) -> (message: Vec<u8>)
    ensures
        message@ == fragment_message(content_type@, open_id, *segment, *row, body@),
        segment.media_offset_range.start() < segment.media_offset_range.end(),
{
    let mut message = fragment_header(content_type, open_id, segment, row);
    message.extend_from_slice(body);
    message
}

} // verus!
