use vstd::prelude::*;
use vstd::string::StringExecFns;
use crate::counters::{
    CounterView, IntervalSnapshot, SnapshotView, WebSocketState, after_decoded, after_message,
    after_snapshot, snapshot_of, tick_opt_view, zeroed,
};
use crate::tick::{TickMessage, TickView, binary_tick_of, decode_binary_tick};

verus! {

/// Only every this many-th inbound message is decoded and timed.
pub const SAMPLE_EVERY: u64 = 1000;

/// Where a session stands in its lifecycle.
#[derive(Debug, Clone, Copy, PartialEq, Eq, Structural)]
pub enum Phase {
    Idle,
    Connecting,
    Connected,
    Disconnected,
    Errored,
}

/// The kind of an inbound transport frame.
#[derive(Debug, Clone, Copy, PartialEq, Eq, Structural)]
pub enum FrameKind {
    Text,
    Binary,
    Other,
}

/// What the reader does with a frame after it was counted.
#[derive(Debug, Clone, Copy, PartialEq, Eq, Structural)]
pub enum FrameOutcome {
    /// The frame is not decoded.
    Skip,
    /// The frame falls on a sampling boundary: decode it and report the
    /// result with `Session::on_decoded`.
    Decode,
}

/// Work that the session asks of its driver, in the order given.
#[derive(Debug, Clone, Copy, PartialEq, Eq, Structural)]
pub enum SessionAction {
    /// Tell the observer that the handshake succeeded.
    EmitConnected,
    /// Tell the observer that the handshake failed, with its reason.
    EmitError,
    /// Send `identify_message()` to the peer.
    SendIdentify,
    /// Start the once-a-second reporter, which calls `Session::reporter_tick`.
    StartReporter,
    /// Cancel the reporter.
    StopReporter,
    /// Tell the observer that the session ended.
    EmitDisconnected,
}

/// Why a session could not start.
#[derive(Debug, Clone, Copy, PartialEq, Eq, Structural)]
pub enum StartError {
    AlreadyConnected,
}

impl StartError {
    /// A human-readable reason.
    pub fn message(&self) -> (r: String)
        ensures
            r@ == "Already connected"@,
    {
        String::from_str("Already connected")
    }
}

/// A status message for the peer. The average latency of `Stats` is
/// `latency_sum_ms / latency_count`, or zero when `latency_count` is zero;
/// tail latency is not tracked and goes out as zero.
pub enum OutgoingMessage {
    Identify { client_id: String },
    Stats {
        client_id: String,
        messages_per_sec: u64,
        total_messages: u64,
        latency_sum_ms: u64,
        latency_count: u64,
    },
}

/// The metrics of one reporting interval, for the observer.
pub struct RustMetrics {
    pub messages_per_sec: u64,
    pub total_messages: u64,
    pub latency_sum_ms: u64,
    pub latency_count: u64,
    pub last_tick: Option<TickMessage>,
}

/// What the reporter publishes for one interval: the metrics for the observer
/// and the status message for the peer.
pub struct Report {
    pub metrics: RustMetrics,
    pub stats: OutgoingMessage,
}

/// The client id that this client announces to the peer.
pub open spec fn client_id_spec() -> Seq<char> {
    "tauri-rust"@
}

/// The client id that this client announces to the peer.
pub fn client_id() -> (r: String)
    ensures
        r@ == client_id_spec(),
{
    String::from_str("tauri-rust")
}

/// The message sent once right after the handshake.
pub fn identify_message() -> (r: OutgoingMessage)
    ensures
        r matches OutgoingMessage::Identify { client_id } && client_id@ == client_id_spec(),
{
    OutgoingMessage::Identify { client_id: client_id() }
}

/// The metrics that a snapshot yields.
pub open spec fn metrics_match(m: RustMetrics, s: SnapshotView) -> bool {
    &&& m.messages_per_sec == s.messages_this_interval
    &&& m.total_messages == s.total_messages
    &&& m.latency_sum_ms == s.latency_sum_ms
    &&& m.latency_count == s.latency_count
    &&& tick_opt_view(m.last_tick) == s.last_tick
}

/// The status message that a snapshot yields.
pub open spec fn stats_match(o: OutgoingMessage, s: SnapshotView) -> bool {
    match o {
        OutgoingMessage::Stats {
            client_id,
            messages_per_sec,
            total_messages,
            latency_sum_ms,
            latency_count,
        } => {
            &&& client_id@ == client_id_spec()
            &&& messages_per_sec == s.messages_this_interval
            &&& total_messages == s.total_messages
            &&& latency_sum_ms == s.latency_sum_ms
            &&& latency_count == s.latency_count
        },
        _ => false,
    }
}

/// Builds the interval's report from a snapshot.
pub fn report_of(snap: IntervalSnapshot) -> (r: Report)
    ensures
        metrics_match(r.metrics, snap@),
        stats_match(r.stats, snap@),
{
    let stats = OutgoingMessage::Stats {
        client_id: client_id(),
        messages_per_sec: snap.messages_this_interval,
        total_messages: snap.total_messages,
        latency_sum_ms: snap.latency_sum_ms,
        latency_count: snap.latency_count,
    };
    let metrics = RustMetrics {
        messages_per_sec: snap.messages_this_interval,
        total_messages: snap.total_messages,
        latency_sum_ms: snap.latency_sum_ms,
        latency_count: snap.latency_count,
        last_tick: snap.last_tick,
    };
    Report { metrics, stats }
}

/// One connection session: its lifecycle phase and its counter bank.
pub struct Session {
    pub phase: Phase,
    pub state: WebSocketState,
}

/// Mathematical value of a `Session`.
pub struct SessionView {
    pub phase: Phase,
    pub counters: CounterView,
}

impl View for Session {
    type V = SessionView;

    open spec fn view(&self) -> SessionView {
        SessionView { phase: self.phase, counters: self.state@ }
    }
}

/// Whether the reader takes frames: the handshake is done and the session is
/// running.
pub open spec fn reading(s: SessionView) -> bool {
    s.phase == Phase::Connected && s.counters.running
}

/// Whether a frame kind carries an application message.
pub open spec fn is_data(kind: FrameKind) -> bool {
    kind != FrameKind::Other
}

/// Whether the message that comes after `count` earlier ones is sampled.
pub open spec fn on_boundary(count: u64) -> bool {
    count % SAMPLE_EVERY == 0
}

/// The session after an inbound frame: a data frame is counted while reading.
pub open spec fn frame_step(s: SessionView, kind: FrameKind) -> SessionView {
    if reading(s) && is_data(kind) {
        SessionView { counters: after_message(s.counters), ..s }
    } else {
        s
    }
}

/// Whether an inbound frame is decoded.
pub open spec fn frame_outcome(s: SessionView, kind: FrameKind) -> FrameOutcome {
    if reading(s) && is_data(kind) && on_boundary(s.counters.total_messages) {
        FrameOutcome::Decode
    } else {
        FrameOutcome::Skip
    }
}

/// The session after a decode result at `now_ms`: a tick is recorded while
/// reading; a failed decode changes nothing.
pub open spec fn decoded_step(s: SessionView, t: Option<TickView>, now_ms: u64) -> SessionView {
    match t {
        Some(tick) => if reading(s) {
            SessionView { counters: after_decoded(s.counters, tick, now_ms), ..s }
        } else {
            s
        },
        None => s,
    }
}

/// The session after a binary frame at `now_ms`, decoded when it is sampled.
pub open spec fn binary_frame_step(s: SessionView, data: Seq<u8>, now_ms: u64) -> SessionView {
    if frame_outcome(s, FrameKind::Binary) == FrameOutcome::Decode {
        decoded_step(frame_step(s, FrameKind::Binary), binary_tick_of(data), now_ms)
    } else {
        frame_step(s, FrameKind::Binary)
    }
}

/// The actions that a handshake result asks for.
pub open spec fn handshake_actions(s: SessionView, ok: bool) -> Seq<SessionAction> {
    if s.phase != Phase::Connecting {
        seq![]
    } else if ok {
        seq![SessionAction::EmitConnected, SessionAction::SendIdentify, SessionAction::StartReporter]
    } else {
        seq![SessionAction::EmitError]
    }
}

/// The session after a handshake result.
pub open spec fn handshake_step(s: SessionView, ok: bool) -> SessionView {
    if s.phase != Phase::Connecting {
        s
    } else if ok {
        SessionView { phase: Phase::Connected, ..s }
    } else {
        SessionView {
            phase: Phase::Errored,
            counters: CounterView { running: false, ..s.counters },
        }
    }
}

/// The actions that ending the session asks for.
pub open spec fn finish_actions(s: SessionView) -> Seq<SessionAction> {
    if s.phase == Phase::Connected {
        seq![SessionAction::StopReporter, SessionAction::EmitDisconnected]
    } else if s.phase == Phase::Connecting {
        seq![SessionAction::EmitDisconnected]
    } else {
        seq![]
    }
}

/// The session after it ends: not running, and disconnected unless it had not
/// started or had already ended.
pub open spec fn finish_step(s: SessionView) -> SessionView {
    SessionView {
        phase: if s.phase == Phase::Connected || s.phase == Phase::Connecting {
            Phase::Disconnected
        } else {
            s.phase
        },
        counters: CounterView { running: false, ..s.counters },
    }
}

impl Session {
    /// A session that has not started, with a zeroed bank.
    pub fn new() -> (r: Session)
        ensures
            r@ == (SessionView { phase: Phase::Idle, counters: zeroed(false) }),
    {
        Session { phase: Phase::Idle, state: WebSocketState::new() }
    }

    /// Whether the session is running.
    pub fn is_connected(&self) -> (r: bool)
        ensures
            r == self.state.running,
    {
        self.state.running
    }

    /// Begins a connection attempt: the session runs, its bank is zeroed and
    /// the handshake is to be made. Fails while the session is running.
    pub fn start(&mut self) -> (r: Result<(), StartError>)
        ensures
            old(self).state.running ==> r == Err::<(), StartError>(StartError::AlreadyConnected)
                && final(self)@ == old(self)@,
            !old(self).state.running ==> r is Ok && final(self)@ == (SessionView {
                phase: Phase::Connecting,
                counters: zeroed(true),
            }),
    {
        if self.state.running {
            return Err(StartError::AlreadyConnected);
        }
        self.state.running = true;
        self.state.reset();
        self.phase = Phase::Connecting;
        Ok(())
    }

    /// Takes the result of the handshake and says what to do next.
    pub fn on_handshake(&mut self, ok: bool) -> (r: Vec<SessionAction>)
        ensures
            final(self)@ == handshake_step(old(self)@, ok),
            r@ == handshake_actions(old(self)@, ok),
    {
        if self.phase != Phase::Connecting {
            return Vec::new();
        }
        if ok {
            self.phase = Phase::Connected;
            vec![SessionAction::EmitConnected, SessionAction::SendIdentify, SessionAction::StartReporter]
        } else {
            self.state.running = false;
            self.phase = Phase::Errored;
            vec![SessionAction::EmitError]
        }
    }

    /// Counts an inbound frame and says whether it is to be decoded.
    pub fn on_frame(&mut self, kind: FrameKind) -> (r: FrameOutcome)
        ensures
            final(self)@ == frame_step(old(self)@, kind),
            r == frame_outcome(old(self)@, kind),
    {
        if self.phase == Phase::Connected && self.state.running && kind != FrameKind::Other {
            let before = self.state.record_message();
            if before % SAMPLE_EVERY == 0 {
                FrameOutcome::Decode
            } else {
                FrameOutcome::Skip
            }
        } else {
            FrameOutcome::Skip
        }
    }

    /// Takes the result of decoding a sampled frame, at clock `now_ms`.
    pub fn on_decoded(&mut self, tick: Option<TickMessage>, now_ms: u64)
        ensures
            final(self)@ == decoded_step(old(self)@, tick_opt_view(tick), now_ms),
    {
        if let Some(t) = tick {
            if self.phase == Phase::Connected && self.state.running {
                self.state.record_decoded(t, now_ms);
            }
        }
    }

    /// Counts a binary frame and, when it is sampled, decodes and records it.
    pub fn on_binary_frame(&mut self, data: &[u8], now_ms: u64) -> (r: FrameOutcome)
        ensures
            final(self)@ == binary_frame_step(old(self)@, data@, now_ms),
            r == frame_outcome(old(self)@, FrameKind::Binary),
    {
        let outcome = self.on_frame(FrameKind::Binary);
        if outcome == FrameOutcome::Decode {
            let tick = decode_binary_tick(data);
            self.on_decoded(tick, now_ms);
        }
        outcome
    }

    /// Asks the session to stop: it no longer runs.
    pub fn stop(&mut self)
        ensures
            final(self)@ == (SessionView {
                counters: CounterView { running: false, ..old(self)@.counters },
                ..old(self)@
            }),
    {
        self.state.running = false;
    }

    /// Ends the session, as often as it is called, and says what to do.
    pub fn finish(&mut self) -> (r: Vec<SessionAction>)
        ensures
            final(self)@ == finish_step(old(self)@),
            r@ == finish_actions(old(self)@),
    {
        self.state.running = false;
        if self.phase == Phase::Connected {
            self.phase = Phase::Disconnected;
            vec![SessionAction::StopReporter, SessionAction::EmitDisconnected]
        } else if self.phase == Phase::Connecting {
            self.phase = Phase::Disconnected;
            vec![SessionAction::EmitDisconnected]
        } else {
            Vec::new()
        }
    }

    /// One reporter interval: while reading, takes a snapshot of the bank and
    /// builds its report; else does nothing.
    pub fn reporter_tick(&mut self) -> (r: Option<Report>)
        ensures
            reading(old(self)@) ==> r.is_some() && metrics_match(
                r.unwrap().metrics,
                snapshot_of(old(self)@.counters),
            ) && stats_match(r.unwrap().stats, snapshot_of(old(self)@.counters)) && final(self)@
                == (SessionView { counters: after_snapshot(old(self)@.counters), ..old(self)@ }),
            !reading(old(self)@) ==> r.is_none() && final(self)@ == old(self)@,
    {
        if self.phase == Phase::Connected && self.state.running {
            let snap = self.state.snapshot_and_reset_interval();
            Some(report_of(snap))
        } else {
            None
        }
    }

    /// Zeroes the bank; the phase and `running` are kept and nothing is
    /// emitted.
    pub fn reset_metrics(&mut self)
        ensures
            final(self)@ == (SessionView {
                phase: old(self).phase,
                counters: zeroed(old(self).state.running),
            }),
    {
        self.state.reset();
    }
}

/// One input to the reader path: an inbound frame, or the result of decoding
/// a sampled frame at a clock reading.
pub enum ReaderEvent {
    Frame(FrameKind),
    Decoded(Option<TickView>, u64),
}

/// Whether an event is a frame that carries an application message.
pub open spec fn is_data_event(e: ReaderEvent) -> bool {
    match e {
        ReaderEvent::Frame(k) => is_data(k),
        ReaderEvent::Decoded(..) => false,
    }
}

/// The frame kind of a frame event.
pub open spec fn event_kind(e: ReaderEvent) -> FrameKind {
    match e {
        ReaderEvent::Frame(k) => k,
        ReaderEvent::Decoded(..) => FrameKind::Other,
    }
}

/// The session after one reader event.
pub open spec fn reader_step(s: SessionView, e: ReaderEvent) -> SessionView {
    match e {
        ReaderEvent::Frame(k) => frame_step(s, k),
        ReaderEvent::Decoded(t, now_ms) => decoded_step(s, t, now_ms),
    }
}

/// The session after a sequence of reader events, in order.
pub open spec fn run_reader(s: SessionView, evs: Seq<ReaderEvent>) -> SessionView
    decreases evs.len(),
{
    if evs.len() == 0 {
        s
    } else {
        reader_step(run_reader(s, evs.drop_last()), evs.last())
    }
}

/// How many of the events are frames that carry an application message.
pub open spec fn data_frames(evs: Seq<ReaderEvent>) -> nat
    decreases evs.len(),
{
    if evs.len() == 0 {
        0
    } else {
        data_frames(evs.drop_last()) + if is_data_event(evs.last()) {
            1nat
        } else {
            0nat
        }
    }
}

proof fn data_frames_of_prefix(evs: Seq<ReaderEvent>, i: int)
    requires
        0 <= i <= evs.len(),
    ensures
        data_frames(evs.take(i)) <= data_frames(evs),
    decreases evs.len() - i,
{
    if i < evs.len() {
        assert(evs.take(i + 1).drop_last() =~= evs.take(i));
        data_frames_of_prefix(evs, i + 1);
    } else {
        assert(evs.take(i) =~= evs);
    }
}

/// Starting from a zero count, a running session counts every data frame
/// once, whatever the decode results in between: the total is the number of
/// data frames, and the session is still reading.
pub proof fn messages_are_counted(s: SessionView, evs: Seq<ReaderEvent>)
    requires
        reading(s),
        s.counters.total_messages == 0,
        data_frames(evs) <= u64::MAX,
    ensures
        reading(run_reader(s, evs)),
        run_reader(s, evs).counters.total_messages == data_frames(evs),
    decreases evs.len(),
{
    if evs.len() > 0 {
        messages_are_counted(s, evs.drop_last());
    }
}

/// Starting from a zero count, a data frame is decoded exactly when the
/// number of data frames before it is a multiple of `SAMPLE_EVERY`.
pub proof fn sampled_exactly_on_boundaries(s: SessionView, evs: Seq<ReaderEvent>)
    requires
        reading(s),
        s.counters.total_messages == 0,
        data_frames(evs) <= u64::MAX,
    ensures
        forall|i: int|
            0 <= i < evs.len() && is_data_event(#[trigger] evs[i]) ==> (frame_outcome(
                run_reader(s, evs.take(i)),
                event_kind(evs[i]),
            ) == FrameOutcome::Decode <==> data_frames(evs.take(i)) % (SAMPLE_EVERY as nat)
                == 0),
{
    assert forall|i: int| 0 <= i < evs.len() && is_data_event(#[trigger] evs[i]) implies (
    frame_outcome(run_reader(s, evs.take(i)), event_kind(evs[i])) == FrameOutcome::Decode
        <==> data_frames(evs.take(i)) % (SAMPLE_EVERY as nat) == 0) by {
        data_frames_of_prefix(evs, i);
        messages_are_counted(s, evs.take(i));
    }
}

/// Once a session no longer runs, no reader event changes it: no counter
/// moves and no tick is recorded.
pub proof fn stopped_session_is_inert(s: SessionView, evs: Seq<ReaderEvent>)
    requires
        !s.counters.running,
    ensures
        run_reader(s, evs) == s,
    decreases evs.len(),
{
    if evs.len() > 0 {
        stopped_session_is_inert(s, evs.drop_last());
    }
}

} // verus!
