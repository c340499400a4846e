//! The two synthetic chunk sources. Both emit the `n`-line payload of
//! [`crate::lines`], one chunk per line, and both are driven by a
//! poll-style step function: the caller asks for the next chunk and is
//! told either the chunk, or that the source is not ready yet, or that
//! the payload is complete. The wake plumbing that re-polls a source
//! lives outside this crate; here each step says exactly what wake the
//! source asked for, so the caller can provide it.

use vstd::prelude::*;

use crate::lines::{chunk_bytes, line_chunk, lines_prefix, payload_bytes};

verus! {

/// What one poll of [`SimpleBody`] yields.
pub enum PollOutcome {
    /// The next chunk of the payload.
    Chunk(Vec<u8>),
    /// Not ready; the source asked for an immediate re-poll
    /// (the caller's wake handle is to be invoked at once).
    Pending,
    /// The payload is complete; every later poll says so again.
    Done,
}

/// A streaming body of `n` numbered greeting lines that yields to the
/// scheduler once before each line: the first poll for a new line
/// reports [`PollOutcome::Pending`] with an immediate self-wake, and
/// the poll that follows emits the line.
pub struct SimpleBody {
    n: usize,
    current: usize,
    is_pending: bool,
}

impl SimpleBody {
    /// Lines this source emits in total.
    pub closed spec fn total(self) -> nat {
        self.n as nat
    }

    /// Lines emitted so far.
    pub closed spec fn cursor(self) -> nat {
        self.current as nat
    }

    /// Whether the next poll for a line yields instead of emitting.
    pub closed spec fn yields_next(self) -> bool {
        self.is_pending
    }

    /// The cursor never passes the total.
    pub open spec fn wf(self) -> bool {
        self.cursor() <= self.total()
    }

    /// A fresh source for `n` lines; nothing emitted yet.
    pub fn new(n: usize) -> (s: Self)
        ensures
            s.wf(),
            s.total() == n,
            s.cursor() == 0,
            s.yields_next(),
    {
        Self { n, current: 0, is_pending: true }
    }

    /// One poll. A finished source stays finished and keeps answering
    /// [`PollOutcome::Done`]; otherwise the source alternates between
    /// yielding once and emitting the next line's chunk.
    pub fn poll_step(&mut self) -> (r: PollOutcome)
        requires
            old(self).wf(),
        ensures
            final(self).wf(),
            final(self).total() == old(self).total(),
            old(self).cursor() == old(self).total() ==> r is Done && *final(self) == *old(self),
            old(self).cursor() < old(self).total() && old(self).yields_next() ==> r is Pending
                && final(self).cursor() == old(self).cursor() && !final(self).yields_next(),
            old(self).cursor() < old(self).total() && !old(self).yields_next() ==> (
            r matches PollOutcome::Chunk(c)
                && c@ == chunk_bytes(old(self).cursor() + 1, old(self).total())
                && final(self).cursor() == old(self).cursor() + 1 && final(self).yields_next()),
    {
        if self.current == self.n {
            return PollOutcome::Done;
        }
        if !self.is_pending {
            let i = self.current + 1;
            self.is_pending = true;
            self.current = i;
            let c = line_chunk(i, self.n);
            return PollOutcome::Chunk(c);
        }
        self.is_pending = false;
        PollOutcome::Pending
    }
}

/// What one poll of [`DelayedBody`] yields.
pub enum DelayedPollOutcome {
    /// The next chunk of the payload.
    Chunk(Vec<u8>),
    /// Not ready; the source captured the caller's wake handle and a
    /// background timer is to be started that invokes it once after
    /// the configured delay.
    StartTimer,
    /// The payload is complete; every later poll says so again.
    Done,
}

/// A streaming body of `n` numbered greeting lines whose readiness for
/// each line is gated by an out-of-band delay: the first poll for a
/// new line captures the wake handle and asks for a background timer,
/// and the poll after the timer fires emits the line and releases the
/// handle. At most one timer is ever outstanding: a poll asks for one
/// only while no handle is captured, and emitting a line clears it.
pub struct DelayedBody {
    n: usize,
    current: usize,
    waker_captured: bool,
}

impl DelayedBody {
    /// Lines this source emits in total.
    pub closed spec fn total(self) -> nat {
        self.n as nat
    }

    /// Lines emitted so far.
    pub closed spec fn cursor(self) -> nat {
        self.current as nat
    }

    /// Whether a wake handle is captured, i.e. a timer is outstanding.
    pub closed spec fn timer_pending(self) -> bool {
        self.waker_captured
    }

    /// The cursor never passes the total.
    pub open spec fn wf(self) -> bool {
        self.cursor() <= self.total()
    }

    /// A fresh source for `n` lines; nothing emitted, no timer.
    pub fn new(n: usize) -> (s: Self)
        ensures
            s.wf(),
            s.total() == n,
            s.cursor() == 0,
            !s.timer_pending(),
    {
        Self { n, current: 0, waker_captured: false }
    }

    /// One poll. A finished source keeps answering
    /// [`DelayedPollOutcome::Done`]. While no timer is outstanding the
    /// source captures the handle and asks for one; once the timer has
    /// fired and the source is re-polled, it emits the next line's
    /// chunk and clears the handle, so a second timer is never started
    /// while one is pending.
    pub fn poll_step(&mut self) -> (r: DelayedPollOutcome)
        requires
            old(self).wf(),
        ensures
            final(self).wf(),
            final(self).total() == old(self).total(),
            old(self).cursor() == old(self).total() ==> r is Done && *final(self) == *old(self),
            old(self).cursor() < old(self).total() && !old(self).timer_pending() ==> r is StartTimer
                && final(self).cursor() == old(self).cursor() && final(self).timer_pending(),
            old(self).cursor() < old(self).total() && old(self).timer_pending() ==> (
            r matches DelayedPollOutcome::Chunk(c)
                && c@ == chunk_bytes(old(self).cursor() + 1, old(self).total())
                && final(self).cursor() == old(self).cursor() + 1 && !final(self).timer_pending()),
    {
        if self.current == self.n {
            return DelayedPollOutcome::Done;
        }
        if self.waker_captured {
            let i = self.current + 1;
            self.waker_captured = false;
            self.current = i;
            let c = line_chunk(i, self.n);
            return DelayedPollOutcome::Chunk(c);
        }
        self.waker_captured = true;
        DelayedPollOutcome::StartTimer
    }
}

/// Drive a fresh counted source to completion, granting every
/// requested immediate re-poll, and concatenate the chunks in emission
/// order: the adapter's view of one whole response.
pub fn collect_simple(body: &mut SimpleBody) -> (out: Vec<u8>)
    requires
        old(body).wf(),
        old(body).cursor() == 0,
    ensures
        out@ == payload_bytes(old(body).total()),
        final(body).cursor() == old(body).total(),
{
    let mut out: Vec<u8> = Vec::new();
    let mut done = false;
    while !done
        invariant
            body.wf(),
            body.total() == old(body).total(),
            out@ == lines_prefix(body.cursor(), body.total()),
            done ==> body.cursor() == body.total(),
        decreases
                2 * (body.total() - body.cursor()) + (if body.yields_next() {
                    1int
                } else {
                    0int
                }) + (if done {
                    0int
                } else {
                    1int
                }),
    {
        match body.poll_step() {
            PollOutcome::Done => {
                done = true;
            },
            PollOutcome::Pending => {},
            PollOutcome::Chunk(mut c) => {
                out.append(&mut c);
            },
        }
    }
    out
}

/// Drive a fresh timer-delayed source to completion, re-polling after
/// each requested timer as its firing would, and concatenate the
/// chunks in emission order.
pub fn collect_delayed(body: &mut DelayedBody) -> (out: Vec<u8>)
    requires
        old(body).wf(),
        old(body).cursor() == 0,
    ensures
        out@ == payload_bytes(old(body).total()),
        final(body).cursor() == old(body).total(),
{
    let mut out: Vec<u8> = Vec::new();
    let mut done = false;
    while !done
        invariant
            body.wf(),
            body.total() == old(body).total(),
            out@ == lines_prefix(body.cursor(), body.total()),
            done ==> body.cursor() == body.total(),
        decreases
                2 * (body.total() - body.cursor()) + (if body.timer_pending() {
                    0int
                } else {
                    1int
                }) + (if done {
                    0int
                } else {
                    1int
                }),
    {
        match body.poll_step() {
            DelayedPollOutcome::Done => {
                done = true;
            },
            DelayedPollOutcome::StartTimer => {},
            DelayedPollOutcome::Chunk(mut c) => {
                out.append(&mut c);
            },
        }
    }
    out
}

/// The two synthetic sources differ only in timing: for one and the
/// same `n`, the body the counted source delivers and the body the
/// timer-delayed source delivers are byte-identical.
pub proof fn lemma_sources_agree(counted: Seq<u8>, delayed: Seq<u8>, n: nat)
    requires
        counted == payload_bytes(n),
        delayed == payload_bytes(n),
    ensures
        counted == delayed,
{
}

/// Zero lines yield an empty payload, for either source.
pub proof fn lemma_zero_lines_empty()
    ensures
        payload_bytes(0) == Seq::<u8>::empty(),
{
    assert(payload_bytes(0) =~= Seq::<u8>::empty());
}

} // verus!
