use vstd::prelude::*;
use crate::session::Status;

verus! {

/// Safety cap on the clicks of one worker, whatever the session flag says.
pub const UPPER_BOUND: u64 = 200;

/// A click rate in clicks per second that the engine accepts.
pub open spec fn valid_rate(freq: int) -> bool {
    1 <= freq <= 100
}

/// Milliseconds slept after each click.
pub open spec fn period_of(freq: int) -> int {
    1000int / freq
}

/// The worker consults the session flag after every `poll_every(freq)` clicks.
pub open spec fn poll_every(freq: int) -> int {
    freq / 10 + 1
}

/// Click period in milliseconds for a rate: `floor(1000 / freq)`.
pub fn click_period_ms(freq: u64) -> (r: u64)
    requires
        valid_rate(freq as int),
    ensures
        r == period_of(freq as int),
{
    1000 / freq
}

/// Number of clicks between two polls of the session flag: `freq / 10 + 1`.
pub fn poll_interval(freq: u64) -> (r: u64)
    requires
        valid_rate(freq as int),
    ensures
        r == poll_every(freq as int),
{
    freq / 10 + 1
}

/// The schedule of one click worker: its rate captured at spawn time, the
/// clicks emitted so far, and whether it has seen the session go idle.
#[derive(Clone, Copy, Debug)]
pub struct ClickRun {
    pub freq: u64,
    pub emitted: u64,
    pub stopped: bool,
}

impl ClickRun {
    pub open spec fn wf(&self) -> bool {
        valid_rate(self.freq as int) && self.emitted <= UPPER_BOUND
    }

    /// The worker emits no more clicks.
    pub open spec fn finished(&self) -> bool {
        self.stopped || self.emitted >= UPPER_BOUND
    }

    /// One round of the loop: a click, the sleep, and, when a poll is due,
    /// a look at the session flag.
    pub open spec fn round(self, observed: Status) -> ClickRun {
        let e = self.emitted + 1;
        ClickRun {
            freq: self.freq,
            emitted: e as u64,
            stopped: self.stopped || ((e as int) % poll_every(self.freq as int) == 0 && observed
                == Status::Ready),
        }
    }

    /// Rounds left when every poll from now on finds the session idle.
    pub open spec fn rounds_to_stop(self) -> nat
        decreases UPPER_BOUND - self.emitted,
    {
        if self.finished() || !self.wf() {
            0
        } else {
            1 + self.round(Status::Ready).rounds_to_stop()
        }
    }

    /// A fresh worker schedule for the given rate.
    pub fn new(freq: u64) -> (r: ClickRun)
        requires
            valid_rate(freq as int),
        ensures
            r.wf(),
            r.freq == freq,
            r.emitted == 0,
            !r.stopped,
    {
        ClickRun { freq, emitted: 0, stopped: false }
    }

    /// Whether another click is owed.
    pub fn wants_click(&self) -> (r: bool)
        ensures
            r == !self.finished(),
    {
        !self.stopped && self.emitted < UPPER_BOUND
    }

    /// Milliseconds to sleep after each click of this worker.
    pub fn period_ms(&self) -> (r: u64)
        requires
            self.wf(),
        ensures
            r == period_of(self.freq as int),
    {
        click_period_ms(self.freq)
    }

    /// Records one emitted click; returns whether the session flag must now be
    /// polled (and handed to `observe`).
    pub fn clicked(&mut self) -> (poll: bool)
        requires
            old(self).wf(),
            !old(self).finished(),
        ensures
            final(self).wf(),
            final(self).freq == old(self).freq,
            final(self).emitted == old(self).emitted + 1,
            final(self).stopped == old(self).stopped,
            poll == ((final(self).emitted as int) % poll_every(old(self).freq as int) == 0),
    {
        self.emitted = self.emitted + 1;
        self.emitted % poll_interval(self.freq) == 0
    }

    /// Takes in the session flag read at a poll: an idle session stops the worker.
    pub fn observe(&mut self, session: Status)
        ensures
            final(self).freq == old(self).freq,
            final(self).emitted == old(self).emitted,
            final(self).stopped == (old(self).stopped || session == Status::Ready),
    {
        if session.should_stop() {
            self.stopped = true;
        }
    }
}

/// A click followed, when a poll is due, by a look at the session flag is
/// exactly one `round` of the schedule.
pub proof fn lemma_round_is_click_then_poll(r: ClickRun, observed: Status)
    requires
        r.wf(),
        !r.finished(),
    ensures
        ({
            let c = ClickRun { freq: r.freq, emitted: (r.emitted + 1) as u64, stopped: r.stopped };
            let polled = (c.emitted as int) % poll_every(r.freq as int) == 0;
            r.round(observed) == (if polled {
                ClickRun { stopped: c.stopped || observed == Status::Ready, ..c }
            } else {
                c
            })
        }),
{
}

proof fn lemma_rounds_within_window(r: ClickRun)
    requires
        r.wf(),
        !r.stopped,
    ensures
        r.rounds_to_stop() <= poll_every(r.freq as int) - (r.emitted as int) % poll_every(r.freq as int),
    decreases UPPER_BOUND - r.emitted,
{
    let m = poll_every(r.freq as int);
    let e = r.emitted as int;
    assert(m >= 1);
    assert(0 <= e % m < m) by (nonlinear_arith)
        requires
            m >= 1,
    ;
    if !r.finished() {
        let n = r.round(Status::Ready);
        if (e + 1) % m == 0 {
            assert(n.finished());
            assert(n.rounds_to_stop() == 0);
            assert(r.rounds_to_stop() == 1);
            assert(e % m == m - 1) by (nonlinear_arith)
                requires
                    m >= 1,
                    e >= 0,
                    (e + 1) % m == 0,
            ;
        } else {
            assert((e + 1) % m == e % m + 1) by (nonlinear_arith)
                requires
                    m >= 1,
                    e >= 0,
                    (e + 1) % m != 0,
            ;
            assert(n.wf() && !n.stopped);
            lemma_rounds_within_window(n);
            assert(r.rounds_to_stop() == 1 + n.rounds_to_stop());
        }
    }
}

/// After the session goes idle, a worker that has not yet stopped emits at
/// most `freq / 10 + 1` more clicks, so it ends within
/// `(freq / 10 + 1) * floor(1000 / freq)` milliseconds of sleep.
pub proof fn lemma_stop_latency(r: ClickRun)
    requires
        r.wf(),
        !r.stopped,
    ensures
        r.rounds_to_stop() <= poll_every(r.freq as int),
        r.rounds_to_stop() * period_of(r.freq as int) <= poll_every(r.freq as int)
            * period_of(r.freq as int),
{
    lemma_rounds_within_window(r);
    let k = r.rounds_to_stop() as int;
    let m = poll_every(r.freq as int);
    let p = period_of(r.freq as int);
    assert(p >= 0) by (nonlinear_arith)
        requires
            r.freq >= 1,
            p == 1000int / (r.freq as int),
    ;
    assert(k * p <= m * p) by (nonlinear_arith)
        requires
            k <= m,
            p >= 0,
    ;
}

} // verus!
