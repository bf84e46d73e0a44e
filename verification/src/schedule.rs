//! Cadence and sequence numbering of the telemetry loop.
//!
//! The daemon samples its signal source every 50 ms, publishes a signal
//! update whenever the vehicle state or the set of stale signals changed,
//! falls back to a periodic full snapshot when nothing changed, and sends a
//! heartbeat every second. Every message carries the next sequence number.
//! Times are nanoseconds on the caller's monotonic clock; the caller reads the
//! clock, performs the sends, and reports back here.

use vstd::prelude::*;

verus! {

/// Sampling period of the signal source, in nanoseconds.
pub const SAMPLE_PERIOD_NS: u128 = 50_000_000;

/// Heartbeat period, in nanoseconds.
pub const HEARTBEAT_PERIOD_NS: u128 = 1_000_000_000;

/// Nanoseconds in a millisecond.
pub const NS_PER_MS: u128 = 1_000_000;

/// Time from `since` to `now`, saturating at zero for a clock reading taken
/// before `since`.
pub open spec fn elapsed(since: u128, now: u128) -> int {
    if now >= since {
        now - since
    } else {
        0
    }
}

/// Elapsed time is the clock difference, and zero for a reading taken
/// before `since`.
pub proof fn lemma_elapsed(since: u128, now: u128)
    ensures
        now >= since ==> elapsed(since, now) == now - since,
        now < since ==> elapsed(since, now) == 0,
{
}

/// Saturating time from `since` to `now`.
pub fn elapsed_ns(since: u128, now: u128) -> (e: u128)
    ensures
        e == elapsed(since, now),
{
    if now >= since {
        now - since
    } else {
        0
    }
}

/// What a sample publishes.
#[derive(Clone, Copy, Debug, PartialEq, Eq, Structural)]
pub enum Publish {
    /// A signal update (state patch plus availability) with this sequence number.
    Update(u64),
    /// A periodic full snapshot with this sequence number.
    Snapshot(u64),
    /// Nothing this time.
    Quiet,
}

/// A heartbeat: its sequence number and the daemon's uptime in milliseconds.
#[derive(Clone, Copy, Debug, PartialEq, Eq, Structural)]
pub struct Heartbeat {
    pub seq: u64,
    pub uptime_ms: u64,
}

/// The stages of one pass of the telemetry loop, in the order they run.
#[derive(Clone, Copy, Debug, PartialEq, Eq, Structural)]
pub enum Stage {
    /// Accept pending client connections and greet each with a snapshot.
    Accept,
    /// Sample the source, publish, and report anomaly events.
    Sample,
    /// Send the heartbeat and the silence watchdog's events.
    Heartbeat,
    /// Sleep before the next pass.
    Sleep,
}

/// The stage that follows `stage` when the clock reads `now`: a pass
/// accepts clients, samples if a sampling period has passed, sends a
/// heartbeat if a heartbeat period has passed, then sleeps.
pub open spec fn spec_next_stage(s: ScheduleView, stage: Stage, now: u128) -> Stage {
    match stage {
        Stage::Accept => if elapsed(s.sample_at, now) >= SAMPLE_PERIOD_NS {
            Stage::Sample
        } else if elapsed(s.heartbeat_at, now) >= HEARTBEAT_PERIOD_NS {
            Stage::Heartbeat
        } else {
            Stage::Sleep
        },
        Stage::Sample => if elapsed(s.heartbeat_at, now) >= HEARTBEAT_PERIOD_NS {
            Stage::Heartbeat
        } else {
            Stage::Sleep
        },
        Stage::Heartbeat => Stage::Sleep,
        Stage::Sleep => Stage::Accept,
    }
}

/// The loop's timers and the last sequence number handed out.
pub struct Schedule {
    seq: u64,
    started: u128,
    sample_at: u128,
    snapshot_at: u128,
    heartbeat_at: u128,
}

/// Abstract state of a [`Schedule`].
pub struct ScheduleView {
    pub seq: u64,
    pub started: u128,
    pub sample_at: u128,
    pub snapshot_at: u128,
    pub heartbeat_at: u128,
}

impl View for Schedule {
    type V = ScheduleView;

    closed spec fn view(&self) -> ScheduleView {
        ScheduleView {
            seq: self.seq,
            started: self.started,
            sample_at: self.sample_at,
            snapshot_at: self.snapshot_at,
            heartbeat_at: self.heartbeat_at,
        }
    }
}

/// The decision a sample takes: an update when the state or the availability
/// changed, else a snapshot once `interval_ms` passed since the last
/// publication, else nothing.
pub open spec fn spec_publish(
    s: ScheduleView,
    patch_empty: bool,
    avail_changed: bool,
    now: u128,
    interval_ms: u64,
) -> (ScheduleView, Publish) {
    if !patch_empty || avail_changed {
        (ScheduleView { seq: (s.seq + 1) as u64, ..s }, Publish::Update((s.seq + 1) as u64))
    } else if elapsed(s.snapshot_at, now) >= interval_ms * NS_PER_MS {
        (ScheduleView { seq: (s.seq + 1) as u64, ..s }, Publish::Snapshot((s.seq + 1) as u64))
    } else {
        (s, Publish::Quiet)
    }
}

impl Schedule {
    /// A schedule started at `now`: every timer starts at `now`, no sequence
    /// number handed out yet.
    pub fn new(now: u128) -> (s: Self)
        ensures
            s@ == (ScheduleView {
                seq: 0,
                started: now,
                sample_at: now,
                snapshot_at: now,
                heartbeat_at: now,
            }),
    {
        Schedule { seq: 0, started: now, sample_at: now, snapshot_at: now, heartbeat_at: now }
    }

    /// The last sequence number handed out.
    pub fn seq(&self) -> (seq: u64)
        ensures
            seq == self@.seq,
    {
        self.seq
    }

    /// Hand out the sequence number of the next message.
    pub fn next_seq(&mut self) -> (seq: u64)
        requires
            old(self)@.seq < u64::MAX,
        ensures
            seq == old(self)@.seq + 1,
            final(self)@ == (ScheduleView { seq, ..old(self)@ }),
    {
        self.seq = self.seq + 1;
        self.seq
    }

    /// The stage of the loop that runs after `stage`, the clock reading
    /// `now`.
    pub fn next_stage(&self, stage: Stage, now: u128) -> (next: Stage)
        ensures
            next == spec_next_stage(self@, stage, now),
            next == Stage::Heartbeat ==> now >= self@.heartbeat_at && now - self@.heartbeat_at
                >= HEARTBEAT_PERIOD_NS,
            next == Stage::Sample ==> stage == Stage::Accept && now >= self@.sample_at && now
                - self@.sample_at >= SAMPLE_PERIOD_NS,
    {
        match stage {
            Stage::Accept => {
                if self.sample_due(now) {
                    Stage::Sample
                } else if self.heartbeat_due(now) {
                    Stage::Heartbeat
                } else {
                    Stage::Sleep
                }
            },
            Stage::Sample => {
                if self.heartbeat_due(now) {
                    Stage::Heartbeat
                } else {
                    Stage::Sleep
                }
            },
            Stage::Heartbeat => Stage::Sleep,
            Stage::Sleep => Stage::Accept,
        }
    }

    /// Whether a sampling period has passed since the last sample.
    pub fn sample_due(&self, now: u128) -> (due: bool)
        ensures
            due == (elapsed(self@.sample_at, now) >= SAMPLE_PERIOD_NS),
    {
        elapsed_ns(self.sample_at, now) >= SAMPLE_PERIOD_NS
    }

    /// Record that a sample finished at `now`.
    pub fn sampled(&mut self, now: u128)
        ensures
            final(self)@ == (ScheduleView { sample_at: now, ..old(self)@ }),
    {
        self.sample_at = now;
    }

    /// Decide what a sample taken at `now` publishes; `patch_empty` says the
    /// state did not change, `avail_changed` that the set of stale signals
    /// did, `interval_ms` is the snapshot interval.
    pub fn publish(&mut self, patch_empty: bool, avail_changed: bool, now: u128, interval_ms: u64) -> (p: Publish)
        requires
            old(self)@.seq < u64::MAX,
        ensures
            (final(self)@, p) == spec_publish(old(self)@, patch_empty, avail_changed, now, interval_ms),
            (!patch_empty || avail_changed) ==> p == Publish::Update((old(self)@.seq + 1) as u64),
            (patch_empty && !avail_changed) ==> !(p is Update),
    {
        if !patch_empty || avail_changed {
            let seq = self.next_seq();
            Publish::Update(seq)
        } else if elapsed_ns(self.snapshot_at, now) >= (interval_ms as u128) * NS_PER_MS {
            let seq = self.next_seq();
            Publish::Snapshot(seq)
        } else {
            Publish::Quiet
        }
    }

    /// Restart the snapshot interval at `now` after an update or a snapshot
    /// went out; a quiet sample leaves it running.
    pub fn published(&mut self, p: Publish, now: u128)
        ensures
            final(self)@ == if p == Publish::Quiet {
                old(self)@
            } else {
                ScheduleView { snapshot_at: now, ..old(self)@ }
            },
    {
        match p {
            Publish::Quiet => {},
            _ => {
                self.snapshot_at = now;
            },
        }
    }

    /// Whether a heartbeat period has passed since the last heartbeat.
    pub fn heartbeat_due(&self, now: u128) -> (due: bool)
        ensures
            due == (elapsed(self@.heartbeat_at, now) >= HEARTBEAT_PERIOD_NS),
    {
        elapsed_ns(self.heartbeat_at, now) >= HEARTBEAT_PERIOD_NS
    }

    /// The heartbeat sent at `now`: the next sequence number and the whole
    /// milliseconds since the schedule started (wrapped to 64 bits).
    pub fn heartbeat(&mut self, now: u128) -> (beat: Heartbeat)
        requires
            old(self)@.seq < u64::MAX,
        ensures
            beat.seq == old(self)@.seq + 1,
            beat.uptime_ms == (elapsed(old(self)@.started, now) / NS_PER_MS as int) as u64,
            now >= old(self)@.started ==> beat.uptime_ms == ((now - old(self)@.started) / 1_000_000) as u64,
            final(self)@ == (ScheduleView { seq: beat.seq, ..old(self)@ }),
    {
        let seq = self.next_seq();
        let uptime = elapsed_ns(self.started, now) / NS_PER_MS;
        Heartbeat { seq, uptime_ms: uptime as u64 }
    }

    /// Record that the heartbeat round finished at `now`.
    pub fn heartbeat_sent(&mut self, now: u128)
        ensures
            final(self)@ == (ScheduleView { heartbeat_at: now, ..old(self)@ }),
    {
        self.heartbeat_at = now;
    }
}

/// Sequence numbers only grow: every message handed a number by
/// [`Schedule::next_seq`], [`Schedule::publish`] or [`Schedule::heartbeat`]
/// gets one above every number handed out before it.
pub proof fn lemma_seq_strictly_increases(before: ScheduleView, after: ScheduleView, p: Publish, patch_empty: bool, avail_changed: bool, now: u128, interval_ms: u64)
    requires
        before.seq < u64::MAX,
        (after, p) == spec_publish(before, patch_empty, avail_changed, now, interval_ms),
    ensures
        after.seq >= before.seq,
        p matches Publish::Update(s) ==> s > before.seq && s == after.seq,
        p matches Publish::Snapshot(s) ==> s > before.seq && s == after.seq,
        p == Publish::Quiet ==> after == before,
{
}

/// What a sample publishes, for every state of the schedule: a changed
/// state or a changed availability always publishes an update numbered one
/// past the last message; only a sample with neither change may publish a
/// snapshot — exactly when the snapshot interval has passed since the last
/// publication, numbered one past the last message — and otherwise
/// publishes nothing and changes nothing. No timer moves.
pub proof fn lemma_publish_decision(s: ScheduleView, patch_empty: bool, avail_changed: bool, now: u128, interval_ms: u64)
    requires
        s.seq < u64::MAX,
    ensures
        ({
            let (t, p) = spec_publish(s, patch_empty, avail_changed, now, interval_ms);
            let interval_passed = (now >= s.snapshot_at && now - s.snapshot_at >= interval_ms
                * 1_000_000) || (now < s.snapshot_at && interval_ms == 0);
            &&& t.started == s.started && t.sample_at == s.sample_at && t.snapshot_at
                == s.snapshot_at && t.heartbeat_at == s.heartbeat_at
            &&& (!patch_empty || avail_changed) ==> p == Publish::Update((s.seq + 1) as u64) && t.seq
                == s.seq + 1
            &&& (patch_empty && !avail_changed && interval_passed) ==> p == Publish::Snapshot(
                (s.seq + 1) as u64,
            ) && t.seq == s.seq + 1
            &&& (patch_empty && !avail_changed && !interval_passed) ==> p == Publish::Quiet && t
                == s
            &&& p is Update <==> (!patch_empty || avail_changed)
        }),
{
}

/// Which stage follows which, for every state and clock reading: sampling
/// happens only right after accepting clients and only once a sampling
/// period has passed since the last sample; a heartbeat happens only right
/// after accepting or sampling, and exactly when a heartbeat period has
/// passed since the last heartbeat, so after the heartbeat round recorded
/// at `t` no heartbeat stage comes before `t` plus one second.
pub proof fn lemma_stage_cadence(s: ScheduleView, stage: Stage, now: u128)
    ensures
        ({
            let next = spec_next_stage(s, stage, now);
            let sample_due = now >= s.sample_at && now - s.sample_at >= 50_000_000;
            let beat_due = now >= s.heartbeat_at && now - s.heartbeat_at >= 1_000_000_000;
            &&& next == Stage::Sample <==> (stage == Stage::Accept && sample_due)
            &&& next == Stage::Heartbeat <==> ((stage == Stage::Accept && !sample_due) || stage
                == Stage::Sample) && beat_due
            &&& next == Stage::Heartbeat ==> beat_due
            &&& now < s.heartbeat_at + 1_000_000_000 ==> next != Stage::Heartbeat
            &&& next == Stage::Accept <==> stage == Stage::Sleep
        }),
{
}

/// Position of a stage within a pass.
pub open spec fn stage_rank(stage: Stage) -> int {
    match stage {
        Stage::Accept => 0,
        Stage::Sample => 1,
        Stage::Heartbeat => 2,
        Stage::Sleep => 3,
    }
}

/// Within a pass the stages only move forward — clients are accepted
/// before sampling, sampling comes before the heartbeat, and every pass
/// ends in a sleep — and a new pass starts with accepting clients.
pub proof fn lemma_stages_in_order(s: ScheduleView, stage: Stage, now: u128)
    ensures
        stage != Stage::Sleep ==> stage_rank(spec_next_stage(s, stage, now)) > stage_rank(stage),
        stage == Stage::Sleep ==> spec_next_stage(s, stage, now) == Stage::Accept,
        stage == Stage::Heartbeat ==> spec_next_stage(s, stage, now) == Stage::Sleep,
{
}

/// Whether every step of `trace` either hands out the next sequence number
/// or none, as each [`Schedule`] operation does.
pub open spec fn numbering_steps(trace: Seq<ScheduleView>) -> bool {
    forall|i: int|
        0 < i < trace.len() ==> (#[trigger] trace[i]).seq == trace[i - 1].seq || trace[i].seq == trace[i
            - 1].seq + 1
}

/// The sequence numbers handed out along `trace`, in order.
pub open spec fn handed_out(trace: Seq<ScheduleView>) -> Seq<u64>
    decreases trace.len(),
{
    if trace.len() <= 1 {
        Seq::empty()
    } else {
        let before = handed_out(trace.drop_last());
        if trace.last().seq == trace[trace.len() - 2].seq + 1 {
            before.push(trace.last().seq)
        } else {
            before
        }
    }
}

/// Over a whole run, messages are numbered 1, 2, 3, … in the order they
/// are numbered: starting from a fresh schedule, the numbers handed out are
/// exactly `1..=n` for the last number `n`, none repeated and none skipped.
pub proof fn lemma_run_numbering(trace: Seq<ScheduleView>)
    requires
        trace.len() > 0,
        trace[0].seq == 0,
        numbering_steps(trace),
    ensures
        handed_out(trace) == Seq::new(trace.last().seq as nat, |j: int| (j + 1) as u64),
    decreases trace.len(),
{
    if trace.len() == 1 {
        assert(handed_out(trace) =~= Seq::new(trace.last().seq as nat, |j: int| (j + 1) as u64));
    } else {
        let d = trace.drop_last();
        assert forall|i: int| 0 < i < d.len() implies (#[trigger] d[i]).seq == d[i - 1].seq || d[i].seq
            == d[i - 1].seq + 1 by {
            assert(d[i] == trace[i]);
            assert(d[i - 1] == trace[i - 1]);
        }
        lemma_run_numbering(d);
        assert(d.last() == trace[trace.len() - 2]);
        let k = trace.len() - 1;
        assert(trace[k].seq == trace[k - 1].seq || trace[k].seq == trace[k - 1].seq + 1);
        assert(handed_out(trace) =~= Seq::new(trace.last().seq as nat, |j: int| (j + 1) as u64));
    }
}

} // verus!
