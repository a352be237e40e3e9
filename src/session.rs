//! The session controller: lifecycle, sequence tracking, heartbeat interval
//! and the routing of decoded events.
use vstd::prelude::*;
use crate::json::{JsonValue, parse_json, parsed_json, json_text, field, u64_of, str_of};
use crate::error::GatewayError;
use crate::events::{GatewayRecieveEvent, receive_of, sequence_of, sequence, lemma_unknown_tag_is_unwanted};
use crate::dispatched_event::tag_kind;
use crate::heartbeat::{HeartbeatPhase, HeartbeatAction, heartbeat_step};
use crate::dispatched_event::DispatchedEvent;
use crate::outbound::{GatewaySendEventRaw, is_send_envelope};
use crate::queue::{EventQueue, QueueItem};

verus! {

/// Where a session stands in its lifecycle.
#[derive(Debug, Clone, Copy, PartialEq, Eq, Structural)]
pub enum SessionState {
    Connecting,
    Authenticating,
    Steady,
    Closing,
    Closed,
}

/// What became of one inbound frame.
#[derive(Debug)]
pub enum FrameOutcome {
    /// An empty frame, or a frame that reached a closing session.
    Ignored,
    /// The frame is not JSON; it was dropped.
    Malformed,
    /// The frame could not be decoded (see the error); it was dropped.
    Rejected { error: GatewayError },
    /// The frame carried nothing this client acts on.
    Unwanted,
    /// The server set the heartbeat interval.
    HelloReceived { heartbeat_interval: u64 },
    /// The server acknowledged a heartbeat.
    HeartbeatAcknowledged,
    /// A dispatched event was queued for the application.
    Queued,
}

/// One logical connection: the last sequence number seen, the heartbeat
/// interval (0 while unknown), the lifecycle state, and the events waiting
/// for the application.
#[derive(Debug)]
pub struct Session {
    sequence: u64,
    heartbeat_interval_ms: u64,
    state: SessionState,
    acks: u64,
    queue: EventQueue,
}

/// The sequence number after an envelope that carries `s`: the greatest seen.
pub open spec fn next_sequence(current: u64, s: Option<u64>) -> u64 {
    match s {
        Some(x) => if x > current {
            x
        } else {
            current
        },
        None => current,
    }
}

/// Whether a session in state `st` still takes frames.
pub open spec fn is_live(st: SessionState) -> bool {
    !(st == SessionState::Closing || st == SessionState::Closed)
}

impl Session {
    pub closed spec fn sequence_spec(&self) -> u64 {
        self.sequence
    }

    pub closed spec fn interval_spec(&self) -> u64 {
        self.heartbeat_interval_ms
    }

    pub closed spec fn state_spec(&self) -> SessionState {
        self.state
    }

    /// How many heartbeat acknowledgements were received (saturating).
    pub closed spec fn acks_spec(&self) -> u64 {
        self.acks
    }

    /// The events waiting for the application, oldest first.
    pub closed spec fn events_spec(&self) -> Seq<DispatchedEvent> {
        self.queue@
    }

    /// The queue ends exactly when the session is closing or closed.
    pub closed spec fn wf(&self) -> bool {
        self.queue.is_closed() == !is_live(self.state)
    }

    /// How `after` follows from `before` when the decoded result `r` is
    /// routed, leaving the sequence number aside.
    pub open spec fn routes(
        before: Session,
        after: Session,
        r: Result<GatewayRecieveEvent, GatewayError>,
        out: FrameOutcome,
    ) -> bool {
        &&& after.state_spec() == before.state_spec()
        &&& match r {
            Ok(GatewayRecieveEvent::GeneralEvent { dispatched_event }) => {
                &&& after.events_spec() == before.events_spec().push(dispatched_event)
                &&& after.interval_spec() == before.interval_spec()
                &&& after.acks_spec() == before.acks_spec()
                &&& out == FrameOutcome::Queued
            },
            Ok(GatewayRecieveEvent::Hello { heartbeat_info }) => {
                &&& after.events_spec() == before.events_spec()
                &&& after.interval_spec() == heartbeat_info.heartbeat_interval
                &&& after.acks_spec() == before.acks_spec()
                &&& out == FrameOutcome::HelloReceived {
                    heartbeat_interval: heartbeat_info.heartbeat_interval,
                }
            },
            Ok(GatewayRecieveEvent::HeartbeatAck {}) => {
                &&& after.events_spec() == before.events_spec()
                &&& after.interval_spec() == before.interval_spec()
                &&& after.acks_spec() == if before.acks_spec() < u64::MAX {
                    (before.acks_spec() + 1) as u64
                } else {
                    before.acks_spec()
                }
                &&& out == FrameOutcome::HeartbeatAcknowledged
            },
            Ok(GatewayRecieveEvent::UnwantedEvent {}) => {
                &&& after.events_spec() == before.events_spec()
                &&& after.interval_spec() == before.interval_spec()
                &&& after.acks_spec() == before.acks_spec()
                &&& out == FrameOutcome::Unwanted
            },
            Err(e) => {
                &&& after.events_spec() == before.events_spec()
                &&& after.interval_spec() == before.interval_spec()
                &&& after.acks_spec() == before.acks_spec()
                &&& out == FrameOutcome::Rejected { error: e }
            },
        }
    }

    /// How `after` follows from `before` when the envelope `v` arrives.
    pub open spec fn takes_envelope(before: Session, after: Session, v: JsonValue, out: FrameOutcome) -> bool {
        if is_live(before.state_spec()) {
            &&& after.sequence_spec() == next_sequence(before.sequence_spec(), sequence_of(v))
            &&& exists|r: Result<GatewayRecieveEvent, GatewayError>|
                receive_of(v, r) && #[trigger] Session::routes(before, after, r, out)
        } else {
            after == before && out == FrameOutcome::Ignored
        }
    }

    /// A session that is about to connect.
    pub fn new() -> (r: Session)
        ensures
            r.wf(),
            r.sequence_spec() == 0,
            r.interval_spec() == 0,
            r.acks_spec() == 0,
            r.state_spec() == SessionState::Connecting,
            r.events_spec() == Seq::<DispatchedEvent>::empty(),
    {
        Session {
            sequence: 0,
            heartbeat_interval_ms: 0,
            state: SessionState::Connecting,
            acks: 0,
            queue: EventQueue::new(),
        }
    }

    /// The last sequence number seen.
    pub fn sequence(&self) -> (r: u64)
        ensures
            r == self.sequence_spec(),
    {
        self.sequence
    }

    /// The heartbeat interval in milliseconds; 0 while unknown.
    pub fn heartbeat_interval(&self) -> (r: u64)
        ensures
            r == self.interval_spec(),
    {
        self.heartbeat_interval_ms
    }

    pub fn state(&self) -> (r: SessionState)
        ensures
            r == self.state_spec(),
    {
        self.state
    }

    /// Whether the session still takes frames and sends heartbeats.
    pub fn is_open(&self) -> (r: bool)
        ensures
            r == is_live(self.state_spec()),
    {
        !(self.state == SessionState::Closing || self.state == SessionState::Closed)
    }

    /// The login was sent: the session authenticates.
    pub fn login_sent(&mut self) -> (r: bool)
        requires
            old(self).wf(),
        ensures
            final(self).wf(),
            r == (old(self).state_spec() == SessionState::Connecting),
            final(self).state_spec() == if r {
                SessionState::Authenticating
            } else {
                old(self).state_spec()
            },
            final(self).sequence_spec() == old(self).sequence_spec(),
            final(self).interval_spec() == old(self).interval_spec(),
            final(self).acks_spec() == old(self).acks_spec(),
            final(self).events_spec() == old(self).events_spec(),
    {
        if self.state == SessionState::Connecting {
            self.state = SessionState::Authenticating;
            true
        } else {
            false
        }
    }

    /// The read and heartbeat loops run: the session is steady.
    pub fn loops_started(&mut self) -> (r: bool)
        requires
            old(self).wf(),
        ensures
            final(self).wf(),
            r == (old(self).state_spec() == SessionState::Authenticating),
            final(self).state_spec() == if r {
                SessionState::Steady
            } else {
                old(self).state_spec()
            },
            final(self).sequence_spec() == old(self).sequence_spec(),
            final(self).interval_spec() == old(self).interval_spec(),
            final(self).acks_spec() == old(self).acks_spec(),
            final(self).events_spec() == old(self).events_spec(),
    {
        if self.state == SessionState::Authenticating {
            self.state = SessionState::Steady;
            true
        } else {
            false
        }
    }

    /// The transport closed or the application asked to close: both loops
    /// must stop, and the queue ends once drained.
    pub fn begin_close(&mut self)
        requires
            old(self).wf(),
        ensures
            final(self).wf(),
            final(self).state_spec() == if old(self).state_spec() == SessionState::Closed {
                SessionState::Closed
            } else {
                SessionState::Closing
            },
            final(self).sequence_spec() == old(self).sequence_spec(),
            final(self).interval_spec() == old(self).interval_spec(),
            final(self).acks_spec() == old(self).acks_spec(),
            final(self).events_spec() == old(self).events_spec(),
    {
        if self.state != SessionState::Closed {
            self.state = SessionState::Closing;
        }
        self.queue.close();
    }

    /// Both loops have stopped.
    pub fn finish_close(&mut self)
        requires
            old(self).wf(),
        ensures
            final(self).wf(),
            final(self).state_spec() == SessionState::Closed,
            final(self).sequence_spec() == old(self).sequence_spec(),
            final(self).interval_spec() == old(self).interval_spec(),
            final(self).acks_spec() == old(self).acks_spec(),
            final(self).events_spec() == old(self).events_spec(),
    {
        self.state = SessionState::Closed;
        self.queue.close();
    }

    /// Routes a decoded event: Hello sets the heartbeat interval, an
    /// acknowledgement is counted, a dispatched event is queued for the
    /// application, anything else is dropped.
    pub fn route(&mut self, r: Result<GatewayRecieveEvent, GatewayError>) -> (out: FrameOutcome)
        requires
            old(self).wf(),
            is_live(old(self).state_spec()),
        ensures
            final(self).wf(),
            final(self).sequence_spec() == old(self).sequence_spec(),
            Session::routes(*old(self), *final(self), r, out),
    {
        match r {
            Ok(GatewayRecieveEvent::GeneralEvent { dispatched_event }) => {
                self.queue.push(dispatched_event);
                FrameOutcome::Queued
            },
            Ok(GatewayRecieveEvent::Hello { heartbeat_info }) => {
                self.heartbeat_interval_ms = heartbeat_info.heartbeat_interval;
                FrameOutcome::HelloReceived { heartbeat_interval: heartbeat_info.heartbeat_interval }
            },
            Ok(GatewayRecieveEvent::HeartbeatAck {}) => {
                if self.acks < u64::MAX {
                    self.acks = self.acks + 1;
                }
                FrameOutcome::HeartbeatAcknowledged
            },
            Ok(GatewayRecieveEvent::UnwantedEvent {}) => FrameOutcome::Unwanted,
            Err(error) => FrameOutcome::Rejected { error },
        }
    }

    /// Takes one parsed envelope: records its sequence number, decodes it
    /// and routes the result. A closing session ignores it.
    pub fn handle_envelope(&mut self, v: &JsonValue) -> (out: FrameOutcome)
        requires
            old(self).wf(),
        ensures
            final(self).wf(),
            Session::takes_envelope(*old(self), *final(self), *v, out),
    {
        if !self.is_open() {
            return FrameOutcome::Ignored;
        }
        match sequence(v) {
            Some(s) => if s > self.sequence {
                self.sequence = s;
            },
            None => {},
        }
        let ghost mid = *self;
        let r = GatewayRecieveEvent::from_json(v);
        let ghost decoded = r;
        let out = self.route(r);
        assert(Session::routes(mid, *self, decoded, out));
        assert(Session::routes(*old(self), *self, decoded, out));
        assert(receive_of(*v, decoded));
        out
    }

    /// Takes one inbound text frame. An empty frame is a no-op; a frame that
    /// is not JSON is dropped as malformed; otherwise as `handle_envelope`.
    pub fn handle_frame(&mut self, text: &str) -> (out: FrameOutcome)
        requires
            old(self).wf(),
        ensures
            final(self).wf(),
            text@.len() == 0 ==> *final(self) == *old(self) && out == FrameOutcome::Ignored,
            text@.len() > 0 ==> match parsed_json(text@) {
                Some(v) => Session::takes_envelope(*old(self), *final(self), v, out),
                None => *final(self) == *old(self) && out == FrameOutcome::Malformed,
            },
    {
        if text.is_empty() {
            return FrameOutcome::Ignored;
        }
        match parse_json(text) {
            Some(v) => self.handle_envelope(&v),
            None => FrameOutcome::Malformed,
        }
    }

    /// The next event for the application, oldest first; `End` once the
    /// session is closing and every queued event was handed out.
    pub fn next_event(&mut self) -> (r: QueueItem)
        requires
            old(self).wf(),
        ensures
            final(self).wf(),
            final(self).state_spec() == old(self).state_spec(),
            final(self).sequence_spec() == old(self).sequence_spec(),
            final(self).interval_spec() == old(self).interval_spec(),
            old(self).events_spec().len() > 0 ==> r == QueueItem::Event(old(self).events_spec()[0])
                && final(self).events_spec() == old(self).events_spec().drop_first(),
            old(self).events_spec().len() == 0 ==> final(self).events_spec() == old(self).events_spec()
                && r == (if is_live(old(self).state_spec()) {
                QueueItem::Pending
            } else {
                QueueItem::End
            }),
    {
        self.queue.pop()
    }

    /// The heartbeat frame to send now: it carries the last sequence number seen.
    pub fn heartbeat_frame(&self) -> (r: String)
        ensures
            exists|v: JsonValue| is_send_envelope(v, 1, JsonValue::UInt(self.sequence_spec())) && r@ == json_text(v),
    {
        GatewaySendEventRaw::heartbeat(self.sequence).into_text()
    }
}

/// The sequence number after the envelopes `frames`, in order, starting from `start`.
pub open spec fn sequence_after(start: u64, frames: Seq<JsonValue>) -> u64
    decreases frames.len(),
{
    if frames.len() == 0 {
        start
    } else {
        sequence_after(next_sequence(start, sequence_of(frames[0])), frames.drop_first())
    }
}

/// A dispatched frame with an unknown type tag leaves an open session open,
/// queues nothing and is reported as unwanted.
pub proof fn lemma_unknown_event_keeps_session_open(before: Session, after: Session, v: JsonValue, out: FrameOutcome)
    requires
        Session::takes_envelope(before, after, v, out),
        is_live(before.state_spec()),
        u64_of(field(v, "op"@)) == Some(0u64),
        str_of(field(v, "t"@)) matches Some(t) && tag_kind(t@) is None,
    ensures
        after.state_spec() == before.state_spec(),
        is_live(after.state_spec()),
        after.events_spec() == before.events_spec(),
        out == FrameOutcome::Unwanted,
{
    let r = choose|r: Result<GatewayRecieveEvent, GatewayError>|
        receive_of(v, r) && #[trigger] Session::routes(before, after, r, out);
    lemma_unknown_tag_is_unwanted(v, r);
}

/// Whatever the frames were (dispatched events, Hello or acknowledgements),
/// after a session has taken them in order its sequence number, which the
/// next heartbeat carries, is the greatest sequence number they held (or the
/// starting one, if none was greater).
pub proof fn lemma_heartbeat_carries_greatest_sequence(
    states: Seq<Session>,
    frames: Seq<JsonValue>,
    outs: Seq<FrameOutcome>,
)
    requires
        states.len() == frames.len() + 1,
        outs.len() == frames.len(),
        is_live(states[0].state_spec()),
        forall|i: int|
            0 <= i < frames.len() ==> Session::takes_envelope(states[i], states[i + 1], frames[i], #[trigger] outs[i]),
    ensures
        states.last().sequence_spec() == sequence_after(states[0].sequence_spec(), frames),
        states.last().sequence_spec() >= states[0].sequence_spec(),
        forall|i: int| 0 <= i < frames.len() && #[trigger] sequence_of(frames[i]) is Some
            ==> sequence_of(frames[i])->Some_0 <= states.last().sequence_spec(),
        states.last().sequence_spec() == states[0].sequence_spec() || exists|i: int|
            0 <= i < frames.len() && #[trigger] sequence_of(frames[i]) == Some(states.last().sequence_spec()),
    decreases frames.len(),
{
    if frames.len() > 0 {
        assert(Session::takes_envelope(states[0], states[1], frames[0], outs[0]));
        let r = choose|r: Result<GatewayRecieveEvent, GatewayError>|
            receive_of(frames[0], r) && #[trigger] Session::routes(states[0], states[1], r, outs[0]);
        assert(is_live(states[1].state_spec()));
        let rest_states = states.drop_first();
        let rest_frames = frames.drop_first();
        let rest_outs = outs.drop_first();
        assert forall|i: int| 0 <= i < rest_frames.len() implies Session::takes_envelope(
            rest_states[i],
            rest_states[i + 1],
            rest_frames[i],
            #[trigger] rest_outs[i],
        ) by {
            assert(Session::takes_envelope(states[i + 1], states[i + 2], frames[i + 1], outs[i + 1]));
        }
        lemma_heartbeat_carries_greatest_sequence(rest_states, rest_frames, rest_outs);
        assert(rest_states.last() == states.last());
        assert forall|i: int| 0 <= i < frames.len() && #[trigger] sequence_of(frames[i]) is Some
            implies sequence_of(frames[i])->Some_0 <= states.last().sequence_spec() by {
            if i > 0 {
                assert(sequence_of(rest_frames[i - 1]) is Some);
            }
        }
        if states.last().sequence_spec() != states[0].sequence_spec() {
            if states.last().sequence_spec() == states[1].sequence_spec() {
                assert(sequence_of(frames[0]) == Some(states.last().sequence_spec()));
            } else {
                let j = choose|j: int|
                    0 <= j < rest_frames.len() && #[trigger] sequence_of(rest_frames[j]) == Some(
                        states.last().sequence_spec(),
                    );
                assert(sequence_of(frames[j + 1]) == Some(states.last().sequence_spec()));
            }
        }
    }
}

/// No heartbeat goes out before the Hello: while the interval is unknown the
/// scheduler only waits, and only a Hello sets the interval. Once a Hello
/// sets an interval `i > 0`, the scheduler's next turn sleeps `i` and sends,
/// so the first heartbeat leaves within one interval.
pub proof fn lemma_heartbeat_starts_with_hello(
    before: Session,
    after: Session,
    v: JsonValue,
    out: FrameOutcome,
    phase: HeartbeatPhase,
)
    requires
        Session::takes_envelope(before, after, v, out),
        is_live(before.state_spec()),
        phase != HeartbeatPhase::Stopped,
    ensures
        heartbeat_step(phase, 0, true).1 == (HeartbeatAction::Wait { millis: crate::heartbeat::IDLE_POLL_MS }),
        !(out is HelloReceived) ==> after.interval_spec() == before.interval_spec(),
        out matches FrameOutcome::HelloReceived { heartbeat_interval: i } ==> after.interval_spec() == i && (
        i > 0 ==> heartbeat_step(phase, after.interval_spec(), is_live(after.state_spec())) == (
            HeartbeatPhase::Active,
            HeartbeatAction::SleepThenSend { millis: i },
        )),
{
    let r = choose|r: Result<GatewayRecieveEvent, GatewayError>|
        receive_of(v, r) && #[trigger] Session::routes(before, after, r, out);
}

} // verus!
