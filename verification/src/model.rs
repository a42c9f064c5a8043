//! The values that the live-view subsystem exchanges with the storage engine.

use vstd::prelude::*;

verus! {

/// The two streams a camera can offer.
#[derive(Clone, Copy, Debug, PartialEq, Eq, Structural)]
pub enum StreamType {
    Main,
    Sub,
}

/// How many stream types there are, and so how many slots a camera has.
pub const NUM_STREAM_TYPES: usize = 2;

impl StreamType {
    /// The slot of this stream type in a camera's list of streams.
    pub open spec fn spec_index(self) -> usize {
        match self {
            StreamType::Main => 0,
            StreamType::Sub => 1,
        }
    }

    /// The slot of this stream type in a camera's list of streams.
    #[verifier::when_used_as_spec(spec_index)]
    pub fn index(self) -> (i: usize)
        ensures
            i == self.spec_index(),
            i < NUM_STREAM_TYPES,
    {
        match self {
            StreamType::Main => 0,
            StreamType::Sub => 1,
        }
    }

    /// The name of the stream type, as it is written in addresses and labels.
    pub fn as_str(self) -> (name: &'static str)
        ensures
            name@ == (match self {
                StreamType::Main => "main"@,
                StreamType::Sub => "sub"@,
            }),
    {
        match self {
            StreamType::Main => "main",
            StreamType::Sub => "sub",
        }
    }

    /// The stream type of a slot, if the slot exists.
    pub fn from_index(i: usize) -> (t: Option<StreamType>)
        ensures
            t == (if i == 0 {
                Some(StreamType::Main)
            } else if i == 1 {
                Some(StreamType::Sub)
            } else {
                None
            }),
            t matches Some(s) ==> s.spec_index() == i,
    {
        if i == 0 {
            Some(StreamType::Main)
        } else if i == 1 {
            Some(StreamType::Sub)
        } else {
            None
        }
    }
}

/// What a caller is allowed to do.
#[derive(Clone, Copy, Debug, PartialEq, Eq, Structural)]
pub struct Permissions {
    pub view_video: bool,
    pub read_camera_configs: bool,
    pub update_signals: bool,
}

/// What admission needs to know of a camera: the stream configured for each
/// stream type, if any.
#[derive(Clone, Copy, Debug, PartialEq, Eq)]
pub struct Camera {
    pub streams: [Option<i32>; 2],
}

/// A half-open interval of timeline ticks, never empty.
#[derive(Clone, Copy, Debug, PartialEq, Eq)]
pub struct MediaRange {
    start: i32,
    end: i32,
}

impl MediaRange {
    /// Every range that executable code holds has its start before its end.
    #[verifier::type_invariant]
    pub closed spec fn wf(self) -> bool {
        self.start < self.end
    }

    pub closed spec fn spec_start(&self) -> i32 {
        self.start
    }

    pub closed spec fn spec_end(&self) -> i32 {
        self.end
    }

    /// The range `start..end`; it is one that executable code can hold
    /// where `start < end`.
    pub closed spec fn spec_new(start: i32, end: i32) -> MediaRange {
        MediaRange { start, end }
    }

    /// The range `start..end`, or `None` where it would be empty or inverted.
    pub fn new(start: i32, end: i32) -> (r: Option<MediaRange>)
        ensures
            r == (if start < end {
                Some(MediaRange::spec_new(start, end))
            } else {
                None
            }),
            r matches Some(range) ==> range.start() == start && range.end() == end,
    {
        if start < end {
            Some(MediaRange { start, end })
        } else {
            None
        }
    }

    /// The first tick of the range.
    #[verifier::when_used_as_spec(spec_start)]
    pub fn start(&self) -> (r: i32)
        ensures
            r == self.start(),
            self.start() < self.end(),
    {
        proof {
            use_type_invariant(self);
        }
        self.start
    }

    /// The tick after the last one of the range.
    #[verifier::when_used_as_spec(spec_end)]
    pub fn end(&self) -> (r: i32)
        ensures
            r == self.end(),
            self.start() < self.end(),
    {
        proof {
            use_type_invariant(self);
        }
        self.end
    }
}

impl MediaRange {
    /// A range starts and ends where it was made to.
    pub proof fn lemma_bounds(start: i32, end: i32)
        ensures
            MediaRange::spec_new(start, end).start() == start,
            MediaRange::spec_new(start, end).end() == end,
    {
    }
}

/// What the live-event hub announces to a subscriber of a stream: a stretch
/// of a recording in progress, by its bounds as they came.
#[derive(Clone, Copy, Debug, PartialEq, Eq, Structural)]
pub struct SegmentNotice {
    pub recording_id: i32,
    pub start: i32,
    pub end: i32,
}

/// A stretch of a recording in progress that can now be played.
#[derive(Clone, Copy, Debug, PartialEq, Eq)]
pub struct LiveSegment {
    pub stream_id: i32,
    pub recording_id: i32,
    pub media_offset_range: MediaRange,
}

impl LiveSegment {
    /// The segment that a notice announces to a subscriber of `stream_id`.
    /// It is one only where the notice's range is not empty.
    pub open spec fn spec_of_notice(stream_id: i32, notice: SegmentNotice) -> LiveSegment {
        LiveSegment {
            stream_id,
            recording_id: notice.recording_id,
            media_offset_range: MediaRange::spec_new(notice.start, notice.end),
        }
    }

    /// The segment that a notice announces to a subscriber of `stream_id`,
    /// or `None` where the notice's range is empty or inverted.
    pub fn of_notice(stream_id: i32, notice: SegmentNotice) -> (r: Option<LiveSegment>)
        ensures
            r == (if notice.start < notice.end {
                Some(LiveSegment::spec_of_notice(stream_id, notice))
            } else {
                None
            }),
    {
        match MediaRange::new(notice.start, notice.end) {
            Some(range) => Some(
                LiveSegment {
                    stream_id,
                    recording_id: notice.recording_id,
                    media_offset_range: range,
                },
            ),
            None => None,
        }
    }
}

/// The metadata of one recording, as the storage engine reports it.
#[derive(Clone, Copy, Debug, PartialEq, Eq, Structural)]
pub struct RecordingRow {
    /// When the recording starts, in timeline ticks since the epoch.
    pub start: i64,
    /// The position of the recording in its run; zero starts a new run.
    pub run_offset: i32,
    /// The media duration of all earlier recordings of the stream, in ticks.
    pub prev_media_duration: i64,
    /// The number of runs that ended before this recording's run.
    pub prev_runs: i32,
    pub video_sample_entry_id: i32,
}

impl RecordingRow {
    /// The number of runs up to and including this recording: one more than
    /// `prev_runs` exactly when the recording starts a run.
    pub open spec fn spec_runs(self) -> int {
        if self.run_offset == 0 {
            self.prev_runs + 1
        } else {
            self.prev_runs as int
        }
    }

    /// The number of runs up to and including this recording.
    pub fn runs(&self) -> (r: i64)
        ensures
            r == self.spec_runs(),
    {
        if self.run_offset == 0 {
            self.prev_runs as i64 + 1
        } else {
            self.prev_runs as i64
        }
    }
}

} // verus!
