//! The clipboard monitor: a flag that keeps the polling loop alive and the
//! pasteboard change count last seen. Each poll compares the count that the
//! pasteboard reports with the stored one and says whether the loop stops,
//! refreshes the display, or waits `POLL_INTERVAL_MS` for the next poll.

use vstd::prelude::*;

verus! {

/// Milliseconds between two polls of the pasteboard.
pub const POLL_INTERVAL_MS: u64 = 500;

/// The value of `should_check` that keeps the loop polling.
pub const CHECKING: u64 = 1;

/// The monitor's shared state.
#[derive(Clone, Copy, Debug, PartialEq, Eq, Structural)]
pub struct MonitorState {
    /// The loop keeps polling while this is `CHECKING`, and stops otherwise.
    pub should_check: u64,
    /// The pasteboard change count last seen.
    pub change_count: u64,
}

/// What the loop does after one poll.
#[derive(Clone, Copy, Debug, PartialEq, Eq, Structural)]
pub enum PollOutcome {
    /// Monitoring was switched off: leave the loop.
    Stop,
    /// The clipboard changed from `previous` to `current`: update the display.
    Refresh { previous: u64, current: u64 },
    /// Nothing changed: wait for the next poll.
    Wait,
}

/// A pasteboard change count (a signed integer) as the monitor stores it:
/// its bits read as an unsigned 64-bit number.
pub open spec fn stored_count(raw: isize) -> u64 {
    raw as u64
}

/// One poll, given the change count that the pasteboard reports.
pub open spec fn poll_step(s: MonitorState, observed: u64) -> (MonitorState, PollOutcome) {
    if s.should_check != CHECKING {
        (s, PollOutcome::Stop)
    } else if observed != s.change_count {
        (
            MonitorState { change_count: observed, ..s },
            PollOutcome::Refresh { previous: s.change_count, current: observed },
        )
    } else {
        (s, PollOutcome::Wait)
    }
}

impl MonitorState {
    /// A monitor that is not checking and has seen change count zero.
    pub fn new() -> (s: MonitorState)
        ensures
            s.should_check == 0,
            s.change_count == 0,
    {
        MonitorState { should_check: 0, change_count: 0 }
    }

    /// Stores the change count read from the pasteboard.
    pub fn record_change_count(&mut self, raw: isize)
        ensures
            final(self).change_count == stored_count(raw),
            final(self).should_check == old(self).should_check,
    {
        self.change_count = raw as u64;
    }

    /// Switches monitoring on.
    pub fn enable(&mut self)
        ensures
            final(self).should_check == CHECKING,
            final(self).change_count == old(self).change_count,
    {
        self.should_check = CHECKING;
    }

    /// Switches monitoring off, as when the window closes.
    pub fn disable(&mut self)
        ensures
            final(self).should_check == 0,
            final(self).change_count == old(self).change_count,
    {
        self.should_check = 0;
    }

    /// Whether the loop keeps polling.
    pub fn is_checking(&self) -> (r: bool)
        ensures
            r == (self.should_check == CHECKING),
    {
        self.should_check == CHECKING
    }

    /// One poll of the pasteboard, whose change count is `raw`.
    pub fn poll(&mut self, raw: isize) -> (outcome: PollOutcome)
        ensures
            (*final(self), outcome) == poll_step(*old(self), stored_count(raw)),
    {
        if self.should_check != CHECKING {
            return PollOutcome::Stop;
        }
        let observed = raw as u64;
        if observed != self.change_count {
            let previous = self.change_count;
            self.change_count = observed;
            PollOutcome::Refresh { previous, current: observed }
        } else {
            PollOutcome::Wait
        }
    }
}

/// The polling loop over the change counts that successive polls observe:
/// the state afterwards and the outcome of each poll made, up to and
/// including the first `Stop`.
pub open spec fn run(s: MonitorState, observed: Seq<u64>) -> (MonitorState, Seq<PollOutcome>)
    decreases observed.len(),
{
    if observed.len() == 0 {
        (s, Seq::empty())
    } else {
        let (next, outcome) = poll_step(s, observed[0]);
        if outcome is Stop {
            (next, seq![outcome])
        } else {
            let (last, rest) = run(next, observed.drop_first());
            (last, seq![outcome] + rest)
        }
    }
}

/// How many outcomes are refreshes.
pub open spec fn refresh_count(outcomes: Seq<PollOutcome>) -> nat
    decreases outcomes.len(),
{
    if outcomes.len() == 0 {
        0
    } else {
        (if outcomes[0] is Refresh { 1nat } else { 0nat }) + refresh_count(outcomes.drop_first())
    }
}

/// How many times the count changes along `observed`, starting from `start`.
pub open spec fn change_count_changes(start: u64, observed: Seq<u64>) -> nat
    decreases observed.len(),
{
    if observed.len() == 0 {
        0
    } else {
        (if observed[0] != start { 1nat } else { 0nat }) + change_count_changes(
            observed[0],
            observed.drop_first(),
        )
    }
}

/// While monitoring is on, a poll refreshes exactly when the observed count
/// differs from the stored one, and a refresh reports the stored count as
/// `previous` and the observed one as `current`, which it then stores.
pub proof fn law_refresh_reports_stored_and_observed(s: MonitorState, observed: u64)
    requires
        s.should_check == CHECKING,
    ensures
        (poll_step(s, observed).1 is Refresh) <==> observed != s.change_count,
        observed != s.change_count ==> poll_step(s, observed).1 == (PollOutcome::Refresh {
            previous: s.change_count,
            current: observed,
        }),
        observed == s.change_count ==> poll_step(s, observed).1 == PollOutcome::Wait,
        poll_step(s, observed).0 == (MonitorState { should_check: s.should_check, change_count: observed }),
{
}

/// A switched-off monitor stops the loop at once and stays as it is.
pub proof fn law_disabled_monitor_stops(s: MonitorState, observed: u64)
    requires
        s.should_check != CHECKING,
    ensures
        poll_step(s, observed) == (s, PollOutcome::Stop),
{
}

/// Once monitoring is switched off, the loop's next poll stops it, whatever
/// the pasteboard reports.
pub proof fn law_disabled_run_stops_at_once(s: MonitorState, observed: Seq<u64>)
    requires
        s.should_check != CHECKING,
        observed.len() > 0,
    ensures
        run(s, observed) == (s, seq![PollOutcome::Stop]),
{
}

/// A change is reported once: polling again with the same count waits and
/// changes nothing.
pub proof fn law_change_reported_once(s: MonitorState, observed: u64)
    requires
        s.should_check == CHECKING,
    ensures
        poll_step(poll_step(s, observed).0, observed) == (
            poll_step(s, observed).0,
            PollOutcome::Wait,
        ),
{
}

/// While monitoring is on, the loop never stops, refreshes exactly once for
/// each change of the count between successive polls, and ends holding the
/// count last observed.
pub proof fn law_refreshes_match_changes(s: MonitorState, observed: Seq<u64>)
    requires
        s.should_check == CHECKING,
    ensures
        run(s, observed).1.len() == observed.len(),
        forall|i: int| 0 <= i < observed.len() ==> !(#[trigger] run(s, observed).1[i] is Stop),
        refresh_count(run(s, observed).1) == change_count_changes(s.change_count, observed),
        run(s, observed).0.should_check == CHECKING,
        observed.len() > 0 ==> run(s, observed).0.change_count == observed.last(),
    decreases observed.len(),
{
    if observed.len() > 0 {
        let (next, outcome) = poll_step(s, observed[0]);
        let tail = observed.drop_first();
        law_refreshes_match_changes(next, tail);
        let (last, rest) = run(next, tail);
        let outs = seq![outcome] + rest;
        assert(outs.drop_first() =~= rest);
        assert(run(s, observed).1 == outs);
        assert forall|i: int| 0 <= i < observed.len() implies !(#[trigger] run(s, observed).1[i] is Stop) by {
            if i > 0 {
                assert(outs[i] == rest[i - 1]);
            }
        }
        if tail.len() > 0 {
            assert(tail.last() == observed.last());
        }
    }
}

} // verus!
