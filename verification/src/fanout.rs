//! Line framing and the per-client outbound backlog of the telemetry fan-out.
//!
//! Every client is written in non-blocking mode. Bytes the kernel does not
//! take at once wait in the client's backlog; a client whose backlog grows
//! past [`MAX_CLIENT_BACKLOG`] while the kernel refuses more is dropped, so a
//! stalled consumer never blocks the telemetry loop. The socket writes belong
//! to the caller: it asks [`Backlog::next_step`] what to do, performs the
//! write of [`Backlog::head`], and reports the outcome to [`Backlog::on_write`].

use std::collections::VecDeque;
use vstd::prelude::*;

verus! {

/// Maximum number of bytes buffered for a single slow client before giving up
/// on it.
pub const MAX_CLIENT_BACKLOG: usize = 262144;

/// Terminate a message with the protocol's line delimiter.
pub fn with_newline(line: String) -> (framed: String)
    ensures
        framed@ == line@.push('\n'),
{
    let mut line = line;
    proof {
        reveal_strlit("\n");
    }
    line.append("\n");
    line
}

/// What one non-blocking write of the backlog's head came back with.
#[derive(Clone, Copy, Debug, PartialEq, Eq, Structural)]
pub enum WriteOutcome {
    /// The kernel accepted this many bytes.
    Wrote(usize),
    /// The kernel buffer is full.
    WouldBlock,
    /// The write was interrupted before anything was written.
    Interrupted,
    /// Any other error.
    Failed,
}

/// What the flush loop does next.
#[derive(Clone, Copy, Debug, PartialEq, Eq, Structural)]
pub enum FlushStep {
    /// Write [`Backlog::head`] and report the outcome.
    Write,
    /// Stop flushing; the client stays connected.
    Keep,
    /// Stop flushing; the client is to be dropped.
    Drop,
}

/// The step that follows once the backlog holds `pending`.
pub open spec fn step_for(pending: Seq<u8>) -> FlushStep {
    if pending.len() == 0 {
        FlushStep::Keep
    } else {
        FlushStep::Write
    }
}

/// How the backlog changes, and what follows, when a write reports `outcome`.
pub open spec fn spec_on_write(pending: Seq<u8>, outcome: WriteOutcome) -> (Seq<u8>, FlushStep) {
    match outcome {
        WriteOutcome::Wrote(n) => if n == 0 {
            (pending, FlushStep::Drop)
        } else {
            (pending.skip(n as int), step_for(pending.skip(n as int)))
        },
        WriteOutcome::WouldBlock => if pending.len() <= MAX_CLIENT_BACKLOG {
            (pending, FlushStep::Keep)
        } else {
            (pending, FlushStep::Drop)
        },
        WriteOutcome::Interrupted => (pending, step_for(pending)),
        WriteOutcome::Failed => (pending, FlushStep::Drop),
    }
}

/// The two slices that together hold a deque's contents.
///
/// Trusted: `VecDeque::as_slices` returns a pair of slices which contain, in
/// order, the contents of the deque; the contract says that their
/// concatenation is the deque.
#[verifier::external_body]
fn both_slices(deque: &VecDeque<u8>) -> (slices: (&[u8], &[u8]))
    ensures
        slices.0@ + slices.1@ == deque@,
{
    deque.as_slices()
}

/// Bytes queued for one client and not yet accepted by the kernel.
pub struct Backlog {
    pending: VecDeque<u8>,
}

impl View for Backlog {
    type V = Seq<u8>;

    closed spec fn view(&self) -> Seq<u8> {
        self.pending@
    }
}

impl Backlog {
    /// An empty backlog.
    pub fn new() -> (backlog: Self)
        ensures
            backlog@ == Seq::<u8>::empty(),
    {
        Backlog { pending: VecDeque::new() }
    }

    /// Number of bytes waiting.
    pub fn len(&self) -> (n: usize)
        ensures
            n == self@.len(),
    {
        self.pending.len()
    }

    /// Queue `bytes` behind whatever is already waiting.
    pub fn enqueue(&mut self, bytes: &[u8])
        requires
            old(self)@.len() + bytes@.len() <= usize::MAX,
        ensures
            final(self)@ == old(self)@ + bytes@,
    {
        let mut i: usize = 0;
        while i < bytes.len()
            invariant
                i <= bytes@.len(),
                self@ == old(self)@ + bytes@.take(i as int),
            decreases bytes@.len() - i,
        {
            self.pending.push_back(bytes[i]);
            assert(bytes@.take(i + 1) =~= bytes@.take(i as int).push(bytes@[i as int]));
            i = i + 1;
        }
        assert(bytes@.take(bytes@.len() as int) =~= bytes@);
    }

    /// The bytes to hand to the next write: the deque's first contiguous
    /// slice, or its second one when the first is empty. It is a prefix of
    /// the backlog, and non-empty whenever the backlog is.
    pub fn head(&self) -> (head: &[u8])
        ensures
            head@.len() <= self@.len(),
            head@ == self@.take(head@.len() as int),
            self@.len() > 0 ==> head@.len() > 0,
    {
        let (front, back) = both_slices(&self.pending);
        if front.len() > 0 {
            assert(self@.take(front@.len() as int) =~= front@);
            front
        } else {
            assert(front@ + back@ =~= back@);
            assert(self@.take(back@.len() as int) =~= back@);
            back
        }
    }

    /// Whether the flush loop writes (something is waiting) or stops with the
    /// client kept (nothing is waiting).
    pub fn next_step(&self) -> (step: FlushStep)
        ensures
            step == step_for(self@),
            step != FlushStep::Drop,
            step == FlushStep::Write <==> self@.len() > 0,
    {
        if self.pending.len() == 0 {
            FlushStep::Keep
        } else {
            FlushStep::Write
        }
    }

    /// Account for one write of the head and decide what follows: a write of
    /// zero bytes or a hard error drops the client; accepted bytes leave the
    /// front of the backlog; a full kernel buffer keeps the client only while
    /// its backlog is within [`MAX_CLIENT_BACKLOG`]; an interrupted write is
    /// retried.
    pub fn on_write(&mut self, outcome: WriteOutcome) -> (step: FlushStep)
        requires
            outcome matches WriteOutcome::Wrote(n) ==> n <= old(self)@.len(),
        ensures
            (final(self)@, step) == spec_on_write(old(self)@, outcome),
            step == FlushStep::Keep ==> final(self)@.len() <= MAX_CLIENT_BACKLOG,
            outcome == WriteOutcome::WouldBlock ==> final(self)@ == old(self)@ && step != FlushStep::Write
                && (step == FlushStep::Keep <==> old(self)@.len() <= MAX_CLIENT_BACKLOG),
    {
        match outcome {
            WriteOutcome::Wrote(n) => {
                if n == 0 {
                    return FlushStep::Drop;
                }
                let mut i: usize = 0;
                while i < n
                    invariant
                        i <= n,
                        n <= old(self)@.len(),
                        self@ == old(self)@.skip(i as int),
                    decreases n - i,
                {
                    let _ = self.pending.pop_front();
                    assert(old(self)@.skip(i + 1) =~= old(self)@.skip(i as int).subrange(
                        1,
                        old(self)@.skip(i as int).len() as int,
                    ));
                    i = i + 1;
                }
                self.next_step()
            },
            WriteOutcome::WouldBlock => {
                if self.pending.len() <= MAX_CLIENT_BACKLOG {
                    FlushStep::Keep
                } else {
                    FlushStep::Drop
                }
            },
            WriteOutcome::Interrupted => self.next_step(),
            WriteOutcome::Failed => FlushStep::Drop,
        }
    }
}

/// Writing from the front of a backlog never disturbs bytes queued behind
/// it: dropping `n` accepted bytes from `pending + later` leaves the rest of
/// `pending` followed by all of `later`, in order.
pub proof fn lemma_queue_order(pending: Seq<u8>, later: Seq<u8>, n: int)
    requires
        0 <= n <= pending.len(),
    ensures
        (pending + later).skip(n) == pending.skip(n) + later,
{
    assert((pending + later).skip(n) =~= pending.skip(n) + later);
}

/// What each write outcome does to a backlog, for every backlog: a full
/// kernel buffer ends the flush — the client is kept exactly while its
/// backlog is within [`MAX_CLIENT_BACKLOG`] and dropped otherwise, and the
/// flush never writes again at once; a write of zero bytes or a hard error
/// drops the client with its backlog untouched; accepted bytes leave the
/// front and the flush goes on exactly while bytes remain; an interrupted
/// write is retried exactly while bytes wait. Nothing else ever drops a
/// client, and no outcome grows the backlog.
pub proof fn lemma_write_outcomes(pending: Seq<u8>, outcome: WriteOutcome)
    requires
        outcome matches WriteOutcome::Wrote(n) ==> n <= pending.len(),
    ensures
        ({
            let (rest, step) = spec_on_write(pending, outcome);
            &&& rest.len() <= pending.len()
            &&& outcome == WriteOutcome::WouldBlock ==> ({
                &&& rest == pending
                &&& step != FlushStep::Write
                &&& (step == FlushStep::Keep <==> pending.len() <= 262144)
                &&& (step == FlushStep::Drop <==> pending.len() > 262144)
            })
            &&& (outcome == WriteOutcome::Failed || outcome == WriteOutcome::Wrote(0)) ==> rest
                == pending && step == FlushStep::Drop
            &&& (match outcome {
                WriteOutcome::Wrote(n) => n > 0 ==> ({
                    &&& pending.take(n as int) + rest == pending
                    &&& rest.len() == pending.len() - n
                    &&& (step == FlushStep::Write <==> n < pending.len())
                    &&& (step == FlushStep::Keep <==> n == pending.len())
                }),
                _ => true,
            })
            &&& outcome == WriteOutcome::Interrupted ==> ({
                &&& rest == pending
                &&& (step == FlushStep::Write <==> pending.len() > 0)
                &&& (step == FlushStep::Keep <==> pending.len() == 0)
            })
            &&& step == FlushStep::Drop ==> (outcome == WriteOutcome::Failed || outcome
                == WriteOutcome::Wrote(0) || (outcome == WriteOutcome::WouldBlock && pending.len()
                > 262144))
        }),
{
    if let WriteOutcome::Wrote(n) = outcome {
        if n > 0 {
            assert(pending.take(n as int) + pending.skip(n as int) =~= pending);
        }
    }
}

/// Whether each write in `writes` accepts no more bytes than are waiting
/// when it happens.
pub open spec fn writes_fit(pending: Seq<u8>, writes: Seq<nat>) -> bool
    decreases writes.len(),
{
    writes.len() == 0 || (writes[0] <= pending.len() && writes_fit(
        pending.skip(writes[0] as int),
        writes.drop_first(),
    ))
}

/// What is left waiting after the kernel accepted `writes` bytes, in turn.
pub open spec fn left_after(pending: Seq<u8>, writes: Seq<nat>) -> Seq<u8>
    decreases writes.len(),
{
    if writes.len() == 0 {
        pending
    } else {
        left_after(pending.skip(writes[0] as int), writes.drop_first())
    }
}

/// The bytes handed to the kernel by `writes`, in the order they went out.
pub open spec fn sent_by(pending: Seq<u8>, writes: Seq<nat>) -> Seq<u8>
    decreases writes.len(),
{
    if writes.len() == 0 {
        Seq::empty()
    } else {
        pending.take(writes[0] as int) + sent_by(pending.skip(writes[0] as int), writes.drop_first())
    }
}

/// Nothing is lost or reordered: whatever sequence of accepted writes a
/// backlog goes through, the bytes sent followed by the bytes still waiting
/// are exactly the bytes that were waiting at the start.
pub proof fn lemma_nothing_lost(pending: Seq<u8>, writes: Seq<nat>)
    requires
        writes_fit(pending, writes),
    ensures
        sent_by(pending, writes) + left_after(pending, writes) == pending,
    decreases writes.len(),
{
    if writes.len() > 0 {
        let n = writes[0] as int;
        lemma_nothing_lost(pending.skip(n), writes.drop_first());
        assert(pending.take(n) + pending.skip(n) =~= pending);
        assert(sent_by(pending, writes) + left_after(pending, writes) =~= pending.take(n) + (sent_by(
            pending.skip(n),
            writes.drop_first(),
        ) + left_after(pending.skip(n), writes.drop_first())));
    } else {
        assert(Seq::<u8>::empty() + pending =~= pending);
    }
}

/// The bytes a write that reports `outcome` handed to the kernel.
pub open spec fn accepted_by(pending: Seq<u8>, outcome: WriteOutcome) -> Seq<u8> {
    match outcome {
        WriteOutcome::Wrote(n) => if n == 0 {
            Seq::empty()
        } else {
            pending.take(n as int)
        },
        _ => Seq::empty(),
    }
}

/// A flush loop from `step` over the write outcomes `outcomes`, in turn: each
/// outcome is applied while the step is [`FlushStep::Write`]. The result is
/// the backlog left, the step the loop ends on, and the bytes the kernel
/// accepted, in order.
pub open spec fn flush_run(pending: Seq<u8>, step: FlushStep, outcomes: Seq<WriteOutcome>) -> (Seq<u8>, FlushStep, Seq<u8>)
    decreases outcomes.len(),
{
    if step != FlushStep::Write || outcomes.len() == 0 {
        (pending, step, Seq::empty())
    } else {
        let (rest, next) = spec_on_write(pending, outcomes[0]);
        let r = flush_run(rest, next, outcomes.drop_first());
        (r.0, r.1, accepted_by(pending, outcomes[0]) + r.2)
    }
}

/// Whether every write in a flush loop accepts no more bytes than are
/// waiting when it happens.
pub open spec fn flush_fits(pending: Seq<u8>, step: FlushStep, outcomes: Seq<WriteOutcome>) -> bool
    decreases outcomes.len(),
{
    if step != FlushStep::Write || outcomes.len() == 0 {
        true
    } else {
        let (rest, next) = spec_on_write(pending, outcomes[0]);
        &&& (outcomes[0] matches WriteOutcome::Wrote(n) ==> n <= pending.len())
        &&& flush_fits(rest, next, outcomes.drop_first())
    }
}

proof fn lemma_flush_run_from(pending: Seq<u8>, step: FlushStep, outcomes: Seq<WriteOutcome>)
    requires
        flush_fits(pending, step, outcomes),
        step == FlushStep::Keep ==> pending.len() <= MAX_CLIENT_BACKLOG,
    ensures
        flush_run(pending, step, outcomes).2 + flush_run(pending, step, outcomes).0 == pending,
        flush_run(pending, step, outcomes).1 == FlushStep::Keep ==> flush_run(pending, step, outcomes).0.len()
            <= MAX_CLIENT_BACKLOG,
    decreases outcomes.len(),
{
    if step != FlushStep::Write || outcomes.len() == 0 {
        assert(Seq::<u8>::empty() + pending =~= pending);
    } else {
        let (rest, next) = spec_on_write(pending, outcomes[0]);
        lemma_flush_run_from(rest, next, outcomes.drop_first());
        let r = flush_run(rest, next, outcomes.drop_first());
        let acc = accepted_by(pending, outcomes[0]);
        assert(acc + rest =~= pending);
        assert((acc + r.2) + r.0 =~= acc + (r.2 + r.0));
    }
}

/// One complete flush of a client keeps every byte in order and keeps the
/// client only within the cap: whatever the writes report, the bytes the
/// kernel accepted followed by the backlog left are exactly the backlog the
/// flush started with, and a flush that ends keeping the client leaves at
/// most [`MAX_CLIENT_BACKLOG`] bytes waiting.
pub proof fn lemma_flush_keeps_order_and_cap(pending: Seq<u8>, outcomes: Seq<WriteOutcome>)
    requires
        flush_fits(pending, step_for(pending), outcomes),
    ensures
        ({
            let r = flush_run(pending, step_for(pending), outcomes);
            &&& r.2 + r.0 == pending
            &&& r.1 == FlushStep::Keep ==> r.0.len() <= MAX_CLIENT_BACKLOG
        }),
{
    lemma_flush_run_from(pending, step_for(pending), outcomes);
}

} // verus!
