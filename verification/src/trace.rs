//! What holds of whole runs of a session: of every sequence of events, and
//! of the runs of a driver whose collaborators all succeed.

use crate::error::ErrorKind;
use crate::fragment::fragment_message;
use crate::keepalive::KEEPALIVE_PERIOD;
use crate::model::{LiveSegment, RecordingRow, SegmentNotice};
use crate::session::{ActionView, EventView, Failure, Outcome, Phase, SessionState, Stage};
use vstd::prelude::*;

verus! {

/// The session after a sequence of events, and the actions that it called
/// for, one for each event.
pub open spec fn feed(s: SessionState, events: Seq<EventView>) -> (SessionState, Seq<ActionView>)
    decreases events.len(),
{
    if events.len() == 0 {
        (s, Seq::empty())
    } else {
        let (mid, actions) = feed(s, events.drop_last());
        let (next, action) = mid.step(events.last());
        (next, actions.push(action))
    }
}

/// The messages of the fragments among `actions`, in order.
pub open spec fn fragments_sent(actions: Seq<ActionView>) -> Seq<Seq<u8>>
    decreases actions.len(),
{
    if actions.len() == 0 {
        Seq::empty()
    } else {
        let before = fragments_sent(actions.drop_last());
        match actions.last() {
            ActionView::SendFragment(message) => before.push(message),
            _ => before,
        }
    }
}

/// The key-frame flags of the builds among `actions`, in order.
pub open spec fn build_flags(actions: Seq<ActionView>) -> Seq<bool>
    decreases actions.len(),
{
    if actions.len() == 0 {
        Seq::empty()
    } else {
        let before = build_flags(actions.drop_last());
        match actions.last() {
            ActionView::Build { start_at_key, .. } => before.push(start_at_key),
            _ => before,
        }
    }
}

/// The segments of the builds among `actions`, in order.
pub open spec fn segments_built(actions: Seq<ActionView>) -> Seq<LiveSegment>
    decreases actions.len(),
{
    if actions.len() == 0 {
        Seq::empty()
    } else {
        let before = segments_built(actions.drop_last());
        match actions.last() {
            ActionView::Build { segment, .. } => before.push(segment),
            _ => before,
        }
    }
}

/// Whether the segments come by ascending recording and, within a
/// recording, by ascending start, equals allowed.
pub open spec fn in_timeline_order(segments: Seq<LiveSegment>) -> bool {
    forall|i: int, j: int|
        0 <= i < j < segments.len() ==> {
            let a = #[trigger] segments[i];
            let b = #[trigger] segments[j];
            a.recording_id < b.recording_id || (a.recording_id == b.recording_id
                && a.media_offset_range.start() <= b.media_offset_range.start())
        }
}

/// Whether an action writes to the connection.
pub open spec fn is_send(action: ActionView) -> bool {
    action is SendFragment || action is SendPing
}

/// One more event adds one step.
pub proof fn lemma_feed_push(s: SessionState, events: Seq<EventView>, event: EventView)
    ensures
        feed(s, events.push(event)).0 == feed(s, events).0.step(event).0,
        feed(s, events.push(event)).1 == feed(s, events).1.push(feed(s, events).0.step(event).1),
        feed(s, events).1.len() == events.len(),
    decreases events.len(),
{
    assert(events.push(event).drop_last() =~= events);
    if events.len() > 0 {
        lemma_feed_push(s, events.drop_last(), events.last());
        assert(events.drop_last().push(events.last()) =~= events);
    }
}

/// Feeding two sequences one after the other is feeding them joined.
pub proof fn lemma_feed_concat(s: SessionState, first: Seq<EventView>, second: Seq<EventView>)
    ensures
        feed(s, first + second).0 == feed(feed(s, first).0, second).0,
        feed(s, first + second).1 == feed(s, first).1 + feed(feed(s, first).0, second).1,
    decreases second.len(),
{
    if second.len() == 0 {
        assert(first + second =~= first);
        assert(feed(s, first).1 + Seq::<ActionView>::empty() =~= feed(s, first).1);
    } else {
        let head = second.drop_last();
        lemma_feed_concat(s, first, head);
        assert((first + second).drop_last() =~= first + head);
        let mid = feed(s, first).0;
        let step = feed(mid, head).0.step(second.last());
        assert(feed(s, first).1 + feed(mid, head).1.push(step.1) =~= (feed(s, first).1 + feed(
            mid,
            head,
        ).1).push(step.1));
    }
}

/// What has to hold between a session and the actions it has called for
/// since it started, for the key-frame flags to come out right.
spec fn flags_in_step(s: SessionState, actions: Seq<ActionView>) -> bool {
    let builds = build_flags(actions);
    let sent = fragments_sent(actions).len();
    &&& forall|k: int| 0 <= k < builds.len() ==> builds[k] == (k == 0)
    &&& match s.phase {
        Phase::Sending(Stage::Build(_)) => builds.len() == sent + 1 && (s.start_at_key <==> sent
            == 0),
        Phase::Sending(Stage::WriteFragment) => builds.len() == sent && sent >= 1,
        Phase::Closed(_) => builds.len() == sent || builds.len() == sent + 1,
        _ => builds.len() == sent && (s.start_at_key <==> sent == 0),
    }
}

proof fn lemma_flags_in_step(stream_id: i32, open_id: u32, events: Seq<EventView>)
    ensures
        flags_in_step(
            feed(SessionState::fresh(stream_id, open_id), events).0,
            feed(SessionState::fresh(stream_id, open_id), events).1,
        ),
    decreases events.len(),
{
    let s0 = SessionState::fresh(stream_id, open_id);
    if events.len() > 0 {
        lemma_flags_in_step(stream_id, open_id, events.drop_last());
        let (mid, before) = feed(s0, events.drop_last());
        let (next, action) = mid.step(events.last());
        let actions = before.push(action);
        assert(actions.drop_last() =~= before);
    }
}

/// In every run of a session from its start, the first build is asked to
/// start at a key frame and no later build is. A fragment is handed out only
/// for a build, so the first fragment starts at a key frame and no later
/// fragment does.
pub proof fn lemma_only_first_fragment_starts_at_key(
    stream_id: i32,
    open_id: u32,
    events: Seq<EventView>,
)
    ensures
        ({
            let actions = feed(SessionState::fresh(stream_id, open_id), events).1;
            let builds = build_flags(actions);
            let sent = fragments_sent(actions).len();
            &&& forall|k: int| 0 <= k < builds.len() ==> builds[k] == (k == 0)
            &&& sent <= builds.len() <= sent + 1
        }),
{
    lemma_flags_in_step(stream_id, open_id, events);
}

/// A closed session stays as it is and answers every event with `Stop`.
pub proof fn lemma_closed_is_final(s: SessionState, outcome: Outcome, events: Seq<EventView>)
    requires
        s.phase == Phase::Closed(outcome),
    ensures
        feed(s, events).0 == s,
        feed(s, events).1.len() == events.len(),
        forall|i: int|
            0 <= i < events.len() ==> #[trigger] feed(s, events).1[i] == ActionView::Stop(outcome),
    decreases events.len(),
{
    if events.len() > 0 {
        lemma_closed_is_final(s, outcome, events.drop_last());
    }
}

/// Where the engine reports no row, or more than one, for the segment that
/// a session asked about, the session closes as failed with an internal
/// error, and nothing is written to the connection from then on, whatever
/// happens.
pub proof fn lemma_wrong_row_count_ends_session(
    s: SessionState,
    segment: LiveSegment,
    count: usize,
    later: Seq<EventView>,
)
    requires
        s.phase == Phase::Sending(Stage::Query(segment)),
        count != 1,
    ensures
        ({
            let (closed, action) = s.step(EventView::Rows(count));
            let failed = Outcome::Failed(Failure::RowCount);
            &&& closed.phase == Phase::Closed(failed)
            &&& action == ActionView::Stop(failed)
            &&& Failure::RowCount.spec_kind() == Some(ErrorKind::Internal)
            &&& feed(closed, later).0 == closed
            &&& forall|i: int|
                0 <= i < later.len() ==> !is_send(#[trigger] feed(closed, later).1[i])
        }),
{
    let closed = s.step(EventView::Rows(count)).0;
    let failed = Outcome::Failed(Failure::RowCount);
    lemma_closed_is_final(closed, failed, later);
    assert forall|i: int| 0 <= i < later.len() implies !is_send(
        #[trigger] feed(closed, later).1[i],
    ) by {
        assert(feed(closed, later).1[i] == ActionView::Stop(failed));
    }
}

/// A tick of the timer never ends a session and never touches the key-frame
/// flag: all it can do is make a session that awaits an event ping.
pub proof fn lemma_tick_never_closes(s: SessionState, now: u64)
    ensures
        ({
            let (next, action) = s.step(EventView::Tick(now));
            &&& next.start_at_key == s.start_at_key
            &&& next.phase is Closed ==> next == s
            &&& action is SendPing <==> s.phase == Phase::AwaitingEvent && s.keepalive.spec_due(now)
            &&& !(action is SendPing) ==> next == s
        }),
{
}

/// A segment whose range is empty or inverted is never built: the session
/// that is handed one closes as failed with an internal error, and asks for
/// nothing.
pub proof fn lemma_empty_range_ends_session(s: SessionState, notice: SegmentNotice)
    requires
        s.phase == Phase::AwaitingEvent,
        notice.start >= notice.end,
    ensures
        s.step(EventView::Segment(notice)).0.phase == Phase::Closed(
            Outcome::Failed(Failure::Range),
        ),
        s.step(EventView::Segment(notice)).1 == ActionView::Stop(Outcome::Failed(Failure::Range)),
        Failure::Range.spec_kind() == Some(ErrorKind::Internal),
{
}

/// A failure of a collaborator, or the end of the queue, is never answered
/// with a write: where a fragment cannot be had whole, nothing of it is sent.
pub proof fn lemma_failure_writes_nothing(s: SessionState, event: EventView)
    requires
        event is QueryFailed || event is BuildFailed || event is WriteFailed || event is QueueClosed,
    ensures
        !is_send(s.step(event).1),
{
}

/// What has to hold of the pings so far, for the next one to keep its
/// distance: each is a tick, and the last ping that the schedule remembers
/// is at least one period after every ping before it.
spec fn pings_in_step(s: SessionState, events: Seq<EventView>, actions: Seq<ActionView>) -> bool {
    &&& actions.len() == events.len()
    &&& forall|i: int|
        0 <= i < events.len() && #[trigger] actions[i] is SendPing ==> {
            &&& events[i] is Tick
            &&& s.keepalive.last_ping matches Some(last)
            &&& events[i]->Tick_0 <= last
        }
    &&& forall|i: int, j: int|
        0 <= i < j < events.len() && #[trigger] actions[i] is SendPing
            && #[trigger] actions[j] is SendPing ==> events[j]->Tick_0 - events[i]->Tick_0
            >= KEEPALIVE_PERIOD
}

proof fn lemma_pings_in_step(stream_id: i32, open_id: u32, events: Seq<EventView>)
    ensures
        pings_in_step(
            feed(SessionState::fresh(stream_id, open_id), events).0,
            events,
            feed(SessionState::fresh(stream_id, open_id), events).1,
        ),
    decreases events.len(),
{
    let s0 = SessionState::fresh(stream_id, open_id);
    if events.len() > 0 {
        let head = events.drop_last();
        lemma_pings_in_step(stream_id, open_id, head);
        let (mid, before) = feed(s0, head);
        let (next, action) = mid.step(events.last());
        let actions = before.push(action);
        let n = head.len() as int;
        assert forall|i: int| 0 <= i < events.len() && #[trigger] actions[i] is SendPing implies {
            &&& events[i] is Tick
            &&& next.keepalive.last_ping matches Some(last)
            &&& events[i]->Tick_0 <= last
        } by {
            if i < n {
                assert(actions[i] == before[i]);
                assert(events[i] == head[i]);
            }
        }
        assert forall|i: int, j: int|
            0 <= i < j < events.len() && #[trigger] actions[i] is SendPing
                && #[trigger] actions[j] is SendPing implies events[j]->Tick_0
            - events[i]->Tick_0 >= KEEPALIVE_PERIOD by {
            assert(actions[i] == before[i]);
            assert(events[i] == head[i]);
            if j < n {
                assert(actions[j] == before[j]);
                assert(events[j] == head[j]);
            }
        }
    }
}

/// In every run of a session from its start, a ping is the answer to a tick
/// of the timer, and of two pings the later one comes at least one period
/// after the earlier one, by the times of their ticks.
pub proof fn lemma_pings_spaced(
    stream_id: i32,
    open_id: u32,
    events: Seq<EventView>,
    i: int,
    j: int,
)
    requires
        0 <= i < j < events.len(),
        feed(SessionState::fresh(stream_id, open_id), events).1[i] is SendPing,
        feed(SessionState::fresh(stream_id, open_id), events).1[j] is SendPing,
    ensures
        events[i] is Tick,
        events[j] is Tick,
        events[j]->Tick_0 - events[i]->Tick_0 >= KEEPALIVE_PERIOD,
{
    lemma_pings_in_step(stream_id, open_id, events);
}

/// A segment as the queue delivers it, with what the collaborators answer
/// when asked about it: the one row of its recording, and the content type
/// and bytes of the fragment built from it.
pub ghost struct Delivery {
    pub notice: SegmentNotice,
    pub row: RecordingRow,
    pub content_type: Seq<u8>,
    pub body: Seq<u8>,
}

/// What reaches a session whose collaborators all succeed: a segment, or a
/// tick of the timer at some time.
pub ghost enum Input {
    Segment(Delivery),
    Tick(u64),
}

/// The events that a driver reports for one input to a session that awaits
/// an event, when every request succeeds: for a segment the segment, the
/// count of its one row, its row and fragment, and the end of the write; for
/// a tick the tick and, if the session pings, the end of the write.
pub open spec fn input_events(s: SessionState, input: Input) -> Seq<EventView> {
    match input {
        Input::Segment(d) => seq![
            EventView::Segment(d.notice),
            EventView::Rows(1),
            EventView::Built { row: d.row, content_type: d.content_type, body: d.body },
            EventView::Written,
        ],
        Input::Tick(now) => if s.keepalive.spec_due(now) {
            seq![EventView::Tick(now), EventView::Written]
        } else {
            seq![EventView::Tick(now)]
        },
    }
}

/// The events that such a driver reports for a sequence of inputs.
pub open spec fn run_events(s: SessionState, inputs: Seq<Input>) -> Seq<EventView>
    decreases inputs.len(),
{
    if inputs.len() == 0 {
        Seq::empty()
    } else {
        let before = run_events(s, inputs.drop_last());
        before + input_events(feed(s, before).0, inputs.last())
    }
}

/// Whether every segment among the inputs has a range that is not empty.
pub open spec fn ranges_not_empty(inputs: Seq<Input>) -> bool {
    forall|i: int|
        0 <= i < inputs.len() ==> (#[trigger] inputs[i] matches Input::Segment(d) ==> d.notice.start
            < d.notice.end)
}

/// The message that is owed for one delivery in a session.
pub open spec fn expected_fragment(stream_id: i32, open_id: u32, d: Delivery) -> Seq<u8> {
    fragment_message(
        d.content_type,
        open_id,
        LiveSegment::spec_of_notice(stream_id, d.notice),
        d.row,
        d.body,
    )
}

/// The messages that are owed for a sequence of inputs: one for each
/// segment, in the order of the segments.
pub open spec fn expected_fragments(stream_id: i32, open_id: u32, inputs: Seq<Input>) -> Seq<
    Seq<u8>,
>
    decreases inputs.len(),
{
    if inputs.len() == 0 {
        Seq::empty()
    } else {
        let before = expected_fragments(stream_id, open_id, inputs.drop_last());
        match inputs.last() {
            Input::Segment(d) => before.push(expected_fragment(stream_id, open_id, d)),
            Input::Tick(_) => before,
        }
    }
}

/// The segments among the inputs, in order, as a subscriber of `stream_id`
/// takes them.
pub open spec fn input_segments(stream_id: i32, inputs: Seq<Input>) -> Seq<LiveSegment>
    decreases inputs.len(),
{
    if inputs.len() == 0 {
        Seq::empty()
    } else {
        let before = input_segments(stream_id, inputs.drop_last());
        match inputs.last() {
            Input::Segment(d) => before.push(LiveSegment::spec_of_notice(stream_id, d.notice)),
            Input::Tick(_) => before,
        }
    }
}

/// The builds of two sequences of actions in a row are those of the first,
/// then those of the second.
proof fn lemma_builds_concat(first: Seq<ActionView>, second: Seq<ActionView>)
    ensures
        segments_built(first + second) == segments_built(first) + segments_built(second),
    decreases second.len(),
{
    if second.len() == 0 {
        assert(first + second =~= first);
        assert(segments_built(first) + segments_built(second) =~= segments_built(first));
    } else {
        lemma_builds_concat(first, second.drop_last());
        assert((first + second).drop_last() =~= first + second.drop_last());
        let head = segments_built(first) + segments_built(second.drop_last());
        match second.last() {
            ActionView::Build { segment, .. } => {
                assert(head.push(segment) =~= segments_built(first) + segments_built(
                    second.drop_last(),
                ).push(segment));
            },
            _ => {},
        }
    }
}

/// The fragments of two sequences of actions in a row are those of the
/// first, then those of the second.
proof fn lemma_fragments_concat(first: Seq<ActionView>, second: Seq<ActionView>)
    ensures
        fragments_sent(first + second) == fragments_sent(first) + fragments_sent(second),
    decreases second.len(),
{
    if second.len() == 0 {
        assert(first + second =~= first);
        assert(fragments_sent(first) + fragments_sent(second) =~= fragments_sent(first));
    } else {
        lemma_fragments_concat(first, second.drop_last());
        assert((first + second).drop_last() =~= first + second.drop_last());
        let head = fragments_sent(first) + fragments_sent(second.drop_last());
        match second.last() {
            ActionView::SendFragment(message) => {
                assert(head.push(message) =~= fragments_sent(first) + fragments_sent(
                    second.drop_last(),
                ).push(message));
            },
            _ => {},
        }
    }
}

/// What a segment and the answers to the session's requests do to a
/// session that awaits an event.
proof fn lemma_feed_delivery(s: SessionState, d: Delivery)
    requires
        s.phase == Phase::AwaitingEvent,
        d.notice.start < d.notice.end,
    ensures
        ({
            let (next, actions) = feed(s, input_events(s, Input::Segment(d)));
            &&& next == SessionState { start_at_key: false, ..s }
            &&& fragments_sent(actions) == seq![expected_fragment(s.stream_id, s.open_id, d)]
            &&& segments_built(actions) == seq![LiveSegment::spec_of_notice(s.stream_id, d.notice)]
        }),
{
    let none = Seq::<EventView>::empty();
    let segment = LiveSegment::spec_of_notice(s.stream_id, d.notice);
    let message = expected_fragment(s.stream_id, s.open_id, d);
    let e1 = EventView::Segment(d.notice);
    let e2 = EventView::Rows(1);
    let e3 = EventView::Built { row: d.row, content_type: d.content_type, body: d.body };
    let e4 = EventView::Written;
    let s1 = s.with_phase(Phase::Sending(Stage::Query(segment)));
    let s2 = s.with_phase(Phase::Sending(Stage::Build(segment)));
    let s3 = s.with_phase(Phase::Sending(Stage::WriteFragment));
    let s4 = SessionState { start_at_key: false, ..s };
    let a1 = ActionView::Query { stream_id: s.stream_id, recording_id: d.notice.recording_id };
    let a2 = ActionView::Build { segment, start_at_key: s.start_at_key };
    let a3 = ActionView::SendFragment(message);
    let a4 = ActionView::Wait;
    assert(s.step(e1) == (s1, a1));
    assert(s1.step(e2) == (s2, a2));
    assert(s2.step(e3) == (s3, a3));
    assert(s3.step(e4) == (s4, a4));
    let events = input_events(s, Input::Segment(d));
    assert(events =~= none.push(e1).push(e2).push(e3).push(e4));
    lemma_feed_push(s, none, e1);
    lemma_feed_push(s, none.push(e1), e2);
    lemma_feed_push(s, none.push(e1).push(e2), e3);
    lemma_feed_push(s, none.push(e1).push(e2).push(e3), e4);
    let done = Seq::<ActionView>::empty();
    let actions = feed(s, events).1;
    assert(actions =~= done.push(a1).push(a2).push(a3).push(a4));
    lemma_actions_push(done, a1);
    lemma_actions_push(done.push(a1), a2);
    lemma_actions_push(done.push(a1).push(a2), a3);
    lemma_actions_push(done.push(a1).push(a2).push(a3), a4);
    assert(fragments_sent(actions) =~= seq![message]);
    assert(segments_built(actions) =~= seq![segment]);
}

/// What a tick does to a session that awaits an event, when the write of
/// the ping succeeds.
proof fn lemma_feed_tick(s: SessionState, now: u64)
    requires
        s.phase == Phase::AwaitingEvent,
    ensures
        ({
            let (next, actions) = feed(s, input_events(s, Input::Tick(now)));
            &&& next == SessionState { keepalive: s.keepalive.after_tick(now), ..s }
            &&& fragments_sent(actions) == Seq::<Seq<u8>>::empty()
            &&& segments_built(actions) == Seq::<LiveSegment>::empty()
        }),
{
    let none = Seq::<EventView>::empty();
    let done = Seq::<ActionView>::empty();
    let e1 = EventView::Tick(now);
    let events = input_events(s, Input::Tick(now));
    lemma_feed_push(s, none, e1);
    if s.keepalive.spec_due(now) {
        assert(events =~= none.push(e1).push(EventView::Written));
        lemma_feed_push(s, none.push(e1), EventView::Written);
        let actions = feed(s, events).1;
        assert(actions =~= done.push(ActionView::SendPing).push(ActionView::Wait));
        lemma_actions_push(done, ActionView::SendPing);
        lemma_actions_push(done.push(ActionView::SendPing), ActionView::Wait);
    } else {
        assert(events =~= none.push(e1));
        let actions = feed(s, events).1;
        assert(actions =~= done.push(ActionView::Wait));
        lemma_actions_push(done, ActionView::Wait);
    }
}

/// What one more action adds to the fragments and the builds.
proof fn lemma_actions_push(actions: Seq<ActionView>, action: ActionView)
    ensures
        fragments_sent(actions.push(action)) == (match action {
            ActionView::SendFragment(message) => fragments_sent(actions).push(message),
            _ => fragments_sent(actions),
        }),
        segments_built(actions.push(action)) == (match action {
            ActionView::Build { segment, .. } => segments_built(actions).push(segment),
            _ => segments_built(actions),
        }),
{
    assert(actions.push(action).drop_last() =~= actions);
}

/// What one input does to a session that awaits an event.
proof fn lemma_feed_input(s: SessionState, input: Input)
    requires
        s.phase == Phase::AwaitingEvent,
        input matches Input::Segment(d) ==> d.notice.start < d.notice.end,
    ensures
        ({
            let (next, actions) = feed(s, input_events(s, input));
            &&& next.phase == Phase::AwaitingEvent
            &&& next.open_id == s.open_id
            &&& next.stream_id == s.stream_id
            &&& match input {
                Input::Segment(d) => {
                    &&& fragments_sent(actions) == seq![
                        expected_fragment(s.stream_id, s.open_id, d),
                    ]
                    &&& segments_built(actions) == seq![
                        LiveSegment::spec_of_notice(s.stream_id, d.notice),
                    ]
                },
                Input::Tick(_) => {
                    &&& fragments_sent(actions) == Seq::<Seq<u8>>::empty()
                    &&& segments_built(actions) == Seq::<LiveSegment>::empty()
                },
            }
        }),
{
    match input {
        Input::Segment(d) => lemma_feed_delivery(s, d),
        Input::Tick(now) => lemma_feed_tick(s, now),
    }
}

/// The number of segments among the inputs.
pub open spec fn count_segments(inputs: Seq<Input>) -> nat
    decreases inputs.len(),
{
    if inputs.len() == 0 {
        0
    } else {
        count_segments(inputs.drop_last()) + if inputs.last() is Segment {
            1nat
        } else {
            0nat
        }
    }
}

/// One message is owed for each segment: no more, no fewer.
pub proof fn lemma_one_fragment_for_each_segment(stream_id: i32, open_id: u32, inputs: Seq<Input>)
    ensures
        expected_fragments(stream_id, open_id, inputs).len() == count_segments(inputs),
    decreases inputs.len(),
{
    if inputs.len() > 0 {
        lemma_one_fragment_for_each_segment(stream_id, open_id, inputs.drop_last());
    }
}

/// For any sequence of segments with ranges that are not empty and of ticks,
/// and a driver whose collaborators
/// all succeed: the session hands out one fragment message for each segment,
/// as many as there are segments, in the order of the segments, each made of
/// that segment, its row and its fragment; the segments are built in the
/// order they came in, so in timeline order where they came in timeline
/// order; the session is then awaiting an event again; and the end of the
/// queue closes it as a normal end.
pub proof fn lemma_segments_delivered_in_order(stream_id: i32, open_id: u32, inputs: Seq<Input>)
    requires
        ranges_not_empty(inputs),
    ensures
        ({
            let start = SessionState::fresh(stream_id, open_id);
            let (s, actions) = feed(start, run_events(start, inputs));
            let (end, last) = s.step(EventView::QueueClosed);
            &&& s.phase == Phase::AwaitingEvent
            &&& s.open_id == open_id
            &&& s.stream_id == stream_id
            &&& fragments_sent(actions) == expected_fragments(stream_id, open_id, inputs)
            &&& fragments_sent(actions).len() == count_segments(inputs)
            &&& segments_built(actions) == input_segments(stream_id, inputs)
            &&& in_timeline_order(input_segments(stream_id, inputs)) ==> in_timeline_order(
                segments_built(actions),
            )
            &&& end.phase == Phase::Closed(Outcome::Normal)
            &&& last == ActionView::Stop(Outcome::Normal)
        }),
    decreases inputs.len(),
{
    let start = SessionState::fresh(stream_id, open_id);
    lemma_one_fragment_for_each_segment(stream_id, open_id, inputs);
    if inputs.len() > 0 {
        assert(ranges_not_empty(inputs.drop_last())) by {
            assert forall|i: int| 0 <= i < inputs.drop_last().len() implies (
            #[trigger] inputs.drop_last()[i] matches Input::Segment(d) ==> d.notice.start
                < d.notice.end) by {
                assert(inputs.drop_last()[i] == inputs[i]);
            }
        }
        assert(inputs[inputs.len() - 1] == inputs.last());
        lemma_segments_delivered_in_order(stream_id, open_id, inputs.drop_last());
        let before = run_events(start, inputs.drop_last());
        let mid = feed(start, before).0;
        let more = input_events(mid, inputs.last());
        lemma_feed_concat(start, before, more);
        lemma_feed_input(mid, inputs.last());
        lemma_fragments_concat(feed(start, before).1, feed(mid, more).1);
        lemma_builds_concat(feed(start, before).1, feed(mid, more).1);
        let sent = fragments_sent(feed(start, before).1);
        let built = segments_built(feed(start, before).1);
        match inputs.last() {
            Input::Segment(d) => {
                let message = expected_fragment(stream_id, open_id, d);
                let segment = LiveSegment::spec_of_notice(stream_id, d.notice);
                assert(sent + seq![message] =~= sent.push(message));
                assert(built + seq![segment] =~= built.push(segment));
            },
            Input::Tick(_) => {
                assert(sent + Seq::<Seq<u8>>::empty() =~= sent);
                assert(built + Seq::<LiveSegment>::empty() =~= built);
            },
        }
    }
}

} // verus!
