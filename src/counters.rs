use vstd::prelude::*;
use crate::tick::{TickMessage, TickView};

verus! {

/// `a + b` on 64-bit counters, wrapping past `u64::MAX` as an atomic
/// `fetch_add` does.
pub open spec fn add_wrapping(a: u64, b: u64) -> u64 {
    if a + b > u64::MAX {
        (a + b - (u64::MAX + 1)) as u64
    } else {
        (a + b) as u64
    }
}

/// Latency of a tick stamped `ts` seen at `now_ms`: the difference, or zero
/// when the stamp lies ahead of the clock.
pub open spec fn latency_spec(now_ms: u64, ts: u64) -> u64 {
    if now_ms >= ts {
        (now_ms - ts) as u64
    } else {
        0
    }
}

/// The latency of a tick stamped `ts` seen at `now_ms`; never below zero.
pub fn latency_ms(now_ms: u64, ts: u64) -> (r: u64)
    ensures
        r == latency_spec(now_ms, ts),
{
    now_ms.saturating_sub(ts)
}

/// The liveness flag of a session and its counter bank.
///
/// `running` says whether the session's loops should go on. The counters are
/// written by the reader path and read and reset once per interval by the
/// reporter path.
pub struct WebSocketState {
    pub running: bool,
    pub total_messages: u64,
    pub messages_this_second: u64,
    pub latency_sum_ms: u64,
    pub latency_count: u64,
    pub last_tick: Option<TickMessage>,
}

/// Mathematical value of a `WebSocketState`.
pub struct CounterView {
    pub running: bool,
    pub total_messages: u64,
    pub messages_this_second: u64,
    pub latency_sum_ms: u64,
    pub latency_count: u64,
    pub last_tick: Option<TickView>,
}

/// What the reporter reads from the counter bank in one interval.
pub struct IntervalSnapshot {
    pub messages_this_interval: u64,
    pub total_messages: u64,
    pub latency_sum_ms: u64,
    pub latency_count: u64,
    pub last_tick: Option<TickMessage>,
}

/// Mathematical value of an `IntervalSnapshot`.
pub struct SnapshotView {
    pub messages_this_interval: u64,
    pub total_messages: u64,
    pub latency_sum_ms: u64,
    pub latency_count: u64,
    pub last_tick: Option<TickView>,
}

/// The view of an optional tick.
pub open spec fn tick_opt_view(t: Option<TickMessage>) -> Option<TickView> {
    match t {
        Some(x) => Some(x@),
        None => None,
    }
}

impl View for WebSocketState {
    type V = CounterView;

    open spec fn view(&self) -> CounterView {
        CounterView {
            running: self.running,
            total_messages: self.total_messages,
            messages_this_second: self.messages_this_second,
            latency_sum_ms: self.latency_sum_ms,
            latency_count: self.latency_count,
            last_tick: tick_opt_view(self.last_tick),
        }
    }
}

impl View for IntervalSnapshot {
    type V = SnapshotView;

    open spec fn view(&self) -> SnapshotView {
        SnapshotView {
            messages_this_interval: self.messages_this_interval,
            total_messages: self.total_messages,
            latency_sum_ms: self.latency_sum_ms,
            latency_count: self.latency_count,
            last_tick: tick_opt_view(self.last_tick),
        }
    }
}

/// A bank with every counter at zero and no tick, with the given liveness.
pub open spec fn zeroed(running: bool) -> CounterView {
    CounterView {
        running,
        total_messages: 0,
        messages_this_second: 0,
        latency_sum_ms: 0,
        latency_count: 0,
        last_tick: None,
    }
}

/// The bank after one more inbound message.
pub open spec fn after_message(c: CounterView) -> CounterView {
    CounterView {
        total_messages: add_wrapping(c.total_messages, 1),
        messages_this_second: add_wrapping(c.messages_this_second, 1),
        ..c
    }
}

/// The bank after a decoded tick seen at `now_ms`.
pub open spec fn after_decoded(c: CounterView, t: TickView, now_ms: u64) -> CounterView {
    CounterView {
        latency_sum_ms: add_wrapping(c.latency_sum_ms, latency_spec(now_ms, t.ts)),
        latency_count: add_wrapping(c.latency_count, 1),
        last_tick: Some(t),
        ..c
    }
}

/// What a snapshot of the bank reads.
pub open spec fn snapshot_of(c: CounterView) -> SnapshotView {
    SnapshotView {
        messages_this_interval: c.messages_this_second,
        total_messages: c.total_messages,
        latency_sum_ms: c.latency_sum_ms,
        latency_count: c.latency_count,
        last_tick: c.last_tick,
    }
}

/// The bank after a snapshot: the interval's counters are zero again.
pub open spec fn after_snapshot(c: CounterView) -> CounterView {
    CounterView { messages_this_second: 0, latency_sum_ms: 0, latency_count: 0, ..c }
}

impl WebSocketState {
    /// A state with every counter at zero, no tick and `running` false.
    pub fn new() -> (r: WebSocketState)
        ensures
            r@ == zeroed(false),
    {
        WebSocketState {
            running: false,
            total_messages: 0,
            messages_this_second: 0,
            latency_sum_ms: 0,
            latency_count: 0,
            last_tick: None,
        }
    }

    /// Zeroes every counter and drops the held tick; `running` is kept.
    pub fn reset(&mut self)
        ensures
            final(self)@ == zeroed(old(self).running),
    {
        self.total_messages = 0;
        self.messages_this_second = 0;
        self.latency_sum_ms = 0;
        self.latency_count = 0;
        self.last_tick = None;
    }

    /// Counts one inbound message, and returns the count of messages before it.
    pub fn record_message(&mut self) -> (before: u64)
        ensures
            before == old(self).total_messages,
            final(self)@ == after_message(old(self)@),
    {
        let before = self.total_messages;
        self.total_messages = self.total_messages.wrapping_add(1);
        self.messages_this_second = self.messages_this_second.wrapping_add(1);
        before
    }

    /// Records the latency of a decoded tick seen at `now_ms` and holds the
    /// tick as the latest one.
    pub fn record_decoded(&mut self, tick: TickMessage, now_ms: u64)
        ensures
            final(self)@ == after_decoded(old(self)@, tick@, now_ms),
    {
        let latency = latency_ms(now_ms, tick.ts);
        self.latency_sum_ms = self.latency_sum_ms.wrapping_add(latency);
        self.latency_count = self.latency_count.wrapping_add(1);
        self.last_tick = Some(tick);
    }

    /// Reads the interval's counters and zeroes them; the total and the held
    /// tick are read and kept.
    pub fn snapshot_and_reset_interval(&mut self) -> (r: IntervalSnapshot)
        ensures
            r@ == snapshot_of(old(self)@),
            final(self)@ == after_snapshot(old(self)@),
    {
        let last_tick = match &self.last_tick {
            Some(t) => Some(t.duplicate()),
            None => None,
        };
        let r = IntervalSnapshot {
            messages_this_interval: self.messages_this_second,
            total_messages: self.total_messages,
            latency_sum_ms: self.latency_sum_ms,
            latency_count: self.latency_count,
            last_tick,
        };
        self.messages_this_second = 0;
        self.latency_sum_ms = 0;
        self.latency_count = 0;
        r
    }
}

/// A second snapshot taken right after a first, with no message in between,
/// reports an empty interval, with the same total and held tick.
pub proof fn second_snapshot_is_empty(c: CounterView)
    ensures
        snapshot_of(after_snapshot(c)).messages_this_interval == 0,
        snapshot_of(after_snapshot(c)).latency_sum_ms == 0,
        snapshot_of(after_snapshot(c)).latency_count == 0,
        snapshot_of(after_snapshot(c)).total_messages == c.total_messages,
        snapshot_of(after_snapshot(c)).last_tick == c.last_tick,
{
}

/// A tick stamped ahead of the clock is recorded with latency zero.
pub proof fn future_tick_has_zero_latency(c: CounterView, t: TickView, now_ms: u64)
    requires
        t.ts > now_ms,
    ensures
        latency_spec(now_ms, t.ts) == 0,
        after_decoded(c, t, now_ms).latency_sum_ms == c.latency_sum_ms,
{
}

} // verus!
