//! Pause/resume wall-clock accounting for a simulation session.
//!
//! The caller reads its clock and hands every timestamp in as a plain
//! integer (one unit per caller-chosen tick, e.g. a millisecond), in
//! non-decreasing order. Elapsed simulation time is the wall-clock time
//! since the session started minus the total time spent paused, so paused
//! intervals do not count towards convergence plots.

use vstd::prelude::*;

verus! {

/// Tracks the session start, an in-progress pause if any, and the sum of
/// all completed pause intervals of the current session.
pub struct PauseClock {
    pub started_at: Option<u64>,
    pub pause_started_at: Option<u64>,
    pub paused_total: u64,
    pub last_event: u64,
}

impl PauseClock {
    /// Every timestamp recorded so far is at most `last_event`, and the
    /// accumulated pause time fits inside the span of the session.
    pub open spec fn wf(self) -> bool {
        &&& (self.started_at matches Some(s) ==> {
            &&& s <= self.last_event
            &&& self.paused_total <= self.last_event - s
            &&& (self.pause_started_at matches Some(p) ==> s <= p && self.paused_total <= p - s)
        })
        &&& (self.pause_started_at matches Some(p) ==> p <= self.last_event)
        &&& (self.started_at is None ==> self.paused_total == 0)
    }

    pub open spec fn is_paused_spec(self) -> bool {
        self.pause_started_at is Some
    }

    pub open spec fn has_session(self) -> bool {
        self.started_at is Some
    }

    pub open spec fn spec_started_at(self) -> Option<u64> {
        self.started_at
    }

    pub open spec fn spec_pause_started_at(self) -> Option<u64> {
        self.pause_started_at
    }

    pub open spec fn spec_paused_total(self) -> u64 {
        self.paused_total
    }

    pub open spec fn spec_last_event(self) -> u64 {
        self.last_event
    }

    /// A fresh clock: no session yet, not paused, nothing accumulated.
    pub fn new() -> (c: Self)
        ensures
            c.wf(),
            !c.has_session(),
            !c.is_paused_spec(),
            c.spec_paused_total() == 0,
            c.spec_last_event() == 0,
    {
        PauseClock { started_at: None, pause_started_at: None, paused_total: 0, last_event: 0 }
    }

    /// Begin or restart a session at `now`: the accumulated pause time is
    /// cleared and the session start is set to `now`. A pause that is in
    /// progress stays in progress, but only its part after `now` will count.
    pub fn start_session(&mut self, now: u64)
        requires
            old(self).wf(),
            now >= old(self).spec_last_event(),
        ensures
            final(self).wf(),
            final(self).spec_started_at() == Some(now),
            final(self).spec_paused_total() == 0,
            final(self).is_paused_spec() == old(self).is_paused_spec(),
            final(self).is_paused_spec() ==> final(self).spec_pause_started_at() == Some(now),
            final(self).spec_last_event() == now,
    {
        self.started_at = Some(now);
        self.paused_total = 0;
        if self.pause_started_at.is_some() {
            self.pause_started_at = Some(now);
        }
        self.last_event = now;
    }

    /// The clock after one pause/resume toggle at `now`: entering a pause
    /// records its start; leaving one adds the completed interval to the
    /// accumulated pause time of the current session.
    pub open spec fn toggled(self, now: u64) -> Self {
        match self.pause_started_at {
            None => PauseClock { pause_started_at: Some(now), last_event: now, ..self },
            Some(p) => PauseClock {
                pause_started_at: None,
                paused_total: if self.started_at is Some {
                    (self.paused_total + (now - p)) as u64
                } else {
                    0u64
                },
                last_event: now,
                ..self
            },
        }
    }

    /// Flip the pause state at `now`.
    pub fn toggle_pause(&mut self, now: u64)
        requires
            old(self).wf(),
            now >= old(self).spec_last_event(),
        ensures
            *final(self) == old(self).toggled(now),
            final(self).wf(),
            final(self).is_paused_spec() == !old(self).is_paused_spec(),
    {
        match self.pause_started_at {
            None => {
                self.pause_started_at = Some(now);
            },
            Some(p) => {
                if self.started_at.is_some() {
                    self.paused_total = self.paused_total + (now - p);
                } else {
                    self.paused_total = 0;
                }
                self.pause_started_at = None;
            },
        }
        self.last_event = now;
    }

    pub fn is_paused(&self) -> (r: bool)
        ensures
            r == self.is_paused_spec(),
    {
        self.pause_started_at.is_some()
    }

    /// Elapsed simulation time at `now`: wall clock since the session
    /// started, minus the accumulated pause time. `None` before a session.
    pub open spec fn spec_elapsed(self, now: u64) -> Option<u64> {
        match self.started_at {
            None => None,
            Some(s) => Some((now - s - self.paused_total) as u64),
        }
    }

    /// Well-defined only while not paused: an in-progress pause interval is
    /// excluded from the accumulated pause time until the next resume.
    pub fn elapsed_simulation_time(&self, now: u64) -> (r: Option<u64>)
        requires
            self.wf(),
            !self.is_paused_spec(),
            now >= self.spec_last_event(),
        ensures
            r == self.spec_elapsed(now),
            r is Some <==> self.has_session(),
            (self.spec_started_at() matches Some(s) ==> r == Some(
                (now - s - self.spec_paused_total()) as u64,
            )),
    {
        match self.started_at {
            None => None,
            Some(s) => Some(now - s - self.paused_total),
        }
    }

    /// The clock after a whole sequence of toggles, earliest first.
    pub open spec fn toggled_all(self, times: Seq<u64>) -> Self
        decreases times.len(),
    {
        if times.len() == 0 {
            self
        } else {
            self.toggled(times[0]).toggled_all(times.skip(1))
        }
    }

    /// The timestamps are non-decreasing and start no earlier than the
    /// clock's latest recorded event.
    pub open spec fn events_ordered(self, times: Seq<u64>) -> bool {
        &&& (forall|i: int, j: int| 0 <= i < j < times.len() ==> times[i] <= times[j])
        &&& (times.len() > 0 ==> self.last_event <= times[0])
    }

    /// Sum of the intervals spanned by consecutive (pause, resume) pairs.
    pub open spec fn paused_intervals_sum(times: Seq<u64>) -> int
        decreases times.len(),
    {
        if times.len() < 2 {
            0
        } else {
            (times[1] - times[0]) + Self::paused_intervals_sum(times.skip(2))
        }
    }
}

/// Pause accounting: starting from a running session, any even-length,
/// time-ordered sequence of pause/resume toggles grows the accumulated
/// pause time by exactly the sum of the paused intervals, so the elapsed
/// simulation time at any later instant excludes exactly those intervals.
pub proof fn lemma_pause_accounting(c: PauseClock, times: Seq<u64>, now: u64)
    requires
        c.wf(),
        c.has_session(),
        !c.is_paused_spec(),
        c.events_ordered(times),
        times.len() % 2 == 0,
        now >= c.toggled_all(times).spec_last_event(),
    ensures
        c.toggled_all(times).wf(),
        !c.toggled_all(times).is_paused_spec(),
        c.toggled_all(times).spec_started_at() == c.spec_started_at(),
        c.toggled_all(times).spec_paused_total() == c.spec_paused_total()
            + PauseClock::paused_intervals_sum(times),
        c.toggled_all(times).spec_elapsed(now) == Some(
            (now - c.spec_started_at()->0 - c.spec_paused_total()
                - PauseClock::paused_intervals_sum(times)) as u64,
        ),
    decreases times.len(),
{
    if times.len() == 0 {
    } else {
        let p = times[0];
        let r = times[1];
        let c1 = c.toggled(p);
        let c2 = c1.toggled(r);
        assert(c.toggled_all(times) == c1.toggled_all(times.skip(1)));
        assert(times.skip(1)[0] == r);
        assert(c1.toggled_all(times.skip(1)) == c2.toggled_all(times.skip(1).skip(1)));
        assert(times.skip(1).skip(1) =~= times.skip(2));
        assert(c2.wf());
        assert(c2.events_ordered(times.skip(2))) by {
            assert(forall|i: int, j: int|
                0 <= i < j < times.skip(2).len() ==> times.skip(2)[i] <= times.skip(2)[j]);
        }
        lemma_pause_accounting(c2, times.skip(2), now);
    }
}

} // verus!
