//! The liveness task: a heartbeat on a fixed period.
//!
//! Each round of the task waits for its period and then toggles the status
//! indicator. A task that also owns the refreshing of the watchdog refreshes
//! it at the end of every round, and is only made with a period that,
//! together with the delay that scheduling may add to a round, stays
//! strictly below the window of the watchdog. A round never asks for the
//! watchdog to be tripped: only the render task does that.

use vstd::prelude::*;

verus! {

/// What the driver of the liveness task is to do next. None of these can
/// fail.
#[derive(Clone, Copy, Debug, PartialEq, Eq, Structural)]
pub enum Beat {
    /// Let the given number of milliseconds pass.
    Wait { millis: u64 },
    /// Toggle the status indicator.
    Toggle,
    /// Set the countdown of the watchdog back to its full window.
    Refresh,
}

/// The place of the task within a round, named by the action that it hands
/// out next.
#[derive(Clone, Copy, Debug, PartialEq, Eq, Structural)]
pub enum Phase {
    Wait,
    Toggle,
    Refresh,
}

/// The liveness task: its timing and its place within the round.
#[derive(Clone, Copy, Debug, PartialEq, Eq, Structural)]
pub struct LivenessTask {
    period_ms: u64,
    margin_ms: u64,
    window_ms: Option<u64>,
    phase: Phase,
}

/// The phase that follows `phase` in a task that refreshes a watchdog
/// (`refreshes`) or not.
pub open spec fn next_phase(phase: Phase, refreshes: bool) -> Phase {
    match phase {
        Phase::Wait => Phase::Toggle,
        Phase::Toggle => if refreshes {
            Phase::Refresh
        } else {
            Phase::Wait
        },
        Phase::Refresh => Phase::Wait,
    }
}

/// The action that a task with a period of `period` milliseconds hands out
/// in `phase`.
pub open spec fn beat_of(phase: Phase, period: nat) -> Beat {
    match phase {
        Phase::Wait => Beat::Wait { millis: period as u64 },
        Phase::Toggle => Beat::Toggle,
        Phase::Refresh => Beat::Refresh,
    }
}

impl LivenessTask {
    /// The time that each round waits, in milliseconds.
    pub closed spec fn period(self) -> nat {
        self.period_ms as nat
    }

    /// The longest delay that scheduling may add to a round, in
    /// milliseconds.
    pub closed spec fn margin(self) -> nat {
        self.margin_ms as nat
    }

    /// The window of the watchdog that the task refreshes, in milliseconds,
    /// or `None` where it refreshes none.
    pub closed spec fn window(self) -> Option<nat> {
        match self.window_ms {
            Some(w) => Some(w as nat),
            None => None,
        }
    }

    /// The place of the task within its round.
    pub closed spec fn phase(self) -> Phase {
        self.phase
    }

    /// A round, with the longest delay, is strictly shorter than the window
    /// of the watchdog, and only a task with a watchdog comes to refresh.
    pub open spec fn wf(self) -> bool {
        &&& self.window() matches Some(w) ==> self.period() + self.margin() < w
        &&& self.phase() == Phase::Refresh ==> self.window().is_some()
    }

    /// A task that toggles the indicator every `period_ms` milliseconds and
    /// refreshes no watchdog. It stands at the start of a round.
    pub fn new(period_ms: u64) -> (task: Self)
        ensures
            task.wf(),
            task.period() == period_ms,
            task.margin() == 0,
            task.window().is_none(),
            task.phase() == Phase::Wait,
    {
        LivenessTask { period_ms, margin_ms: 0, window_ms: None, phase: Phase::Wait }
    }

    /// A task that also refreshes a watchdog with a window of `window_ms`
    /// milliseconds, where scheduling adds at most `margin_ms` to a round.
    /// It stands at the start of a round.
    ///
    /// `None` where a round could take as long as the window or longer.
    pub fn with_watchdog(period_ms: u64, margin_ms: u64, window_ms: u64) -> (r: Option<Self>)
        ensures
            r.is_some() <==> period_ms + margin_ms < window_ms,
            r matches Some(task) ==> {
                &&& task.wf()
                &&& task.period() == period_ms
                &&& task.margin() == margin_ms
                &&& task.window() == Some(window_ms as nat)
                &&& task.phase() == Phase::Wait
            },
    {
        match period_ms.checked_add(margin_ms) {
            Some(round_ms) => {
                if round_ms < window_ms {
                    Some(
                        LivenessTask {
                            period_ms,
                            margin_ms,
                            window_ms: Some(window_ms),
                            phase: Phase::Wait,
                        },
                    )
                } else {
                    None
                }
            },
            None => None,
        }
    }

    /// The time that each round waits, in milliseconds.
    pub fn period_ms(&self) -> (ms: u64)
        ensures
            ms == self.period(),
    {
        self.period_ms
    }

    /// Whether the task refreshes a watchdog.
    pub fn refreshes_watchdog(&self) -> (b: bool)
        ensures
            b == self.window().is_some(),
    {
        self.window_ms.is_some()
    }

    /// Hands out the next action, once the one before is done, and moves on
    /// within the round. The timing of the task stays as it is.
    pub fn next_beat(&mut self) -> (beat: Beat)
        requires
            old(self).wf(),
        ensures
            final(self).wf(),
            beat == beat_of(old(self).phase(), old(self).period()),
            final(self).phase() == next_phase(old(self).phase(), old(self).window().is_some()),
            final(self).period() == old(self).period(),
            final(self).margin() == old(self).margin(),
            final(self).window() == old(self).window(),
    {
        match self.phase {
            Phase::Wait => {
                self.phase = Phase::Toggle;
                Beat::Wait { millis: self.period_ms }
            },
            Phase::Toggle => {
                self.phase = if self.window_ms.is_some() {
                    Phase::Refresh
                } else {
                    Phase::Wait
                };
                Beat::Toggle
            },
            Phase::Refresh => {
                self.phase = Phase::Wait;
                Beat::Refresh
            },
        }
    }
}

/// A round of a task that refreshes a watchdog is a wait, a toggle and a
/// refresh, in that order; a round of a task that refreshes none is a wait
/// and a toggle. After it the task stands at the start of a round again.
pub proof fn lemma_round(refreshes: bool, period: nat)
    ensures
        beat_of(Phase::Wait, period) == (Beat::Wait { millis: period as u64 }),
        beat_of(next_phase(Phase::Wait, refreshes), period) == Beat::Toggle,
        refreshes ==> {
            &&& beat_of(next_phase(next_phase(Phase::Wait, refreshes), refreshes), period)
                == Beat::Refresh
            &&& next_phase(next_phase(next_phase(Phase::Wait, refreshes), refreshes), refreshes)
                == Phase::Wait
        },
        !refreshes ==> next_phase(next_phase(Phase::Wait, refreshes), refreshes) == Phase::Wait,
        forall|phase: Phase| beat_of(phase, period) == Beat::Refresh ==> phase == Phase::Refresh,
{
}

/// The time of refresh number `k`, in milliseconds since the watchdog was
/// started, where round `i` took `period + delays[i]`. The start counts as
/// refresh number zero.
pub open spec fn refresh_time(period: nat, delays: Seq<nat>, k: nat) -> nat
    decreases k,
{
    if k == 0 {
        0
    } else {
        refresh_time(period, delays, (k - 1) as nat) + period + delays[k - 1]
    }
}

/// At time `t` the watchdog has not run out: one of the refreshes up to
/// number `rounds` came at or before `t` and less than `window` before it.
pub open spec fn alive_at(period: nat, delays: Seq<nat>, rounds: nat, window: nat, t: nat) -> bool {
    exists|k: nat|
        k <= rounds && #[trigger] refresh_time(period, delays, k) <= t < refresh_time(
            period,
            delays,
            k,
        ) + window
}

/// No round is delayed by more than `margin`.
pub open spec fn delays_within(delays: Seq<nat>, margin: nat) -> bool {
    forall|i: int| 0 <= i < delays.len() ==> #[trigger] delays[i] <= margin
}

/// Two refreshes in a row are less than the window apart.
pub proof fn lemma_refresh_gap(task: LivenessTask, delays: Seq<nat>, k: nat)
    requires
        task.wf(),
        task.window().is_some(),
        delays_within(delays, task.margin()),
        k < delays.len(),
    ensures
        refresh_time(task.period(), delays, k + 1) - refresh_time(task.period(), delays, k)
            < task.window().unwrap(),
        refresh_time(task.period(), delays, k + 1) - refresh_time(task.period(), delays, k)
            >= task.period(),
{
}

/// The refreshes of the liveness task keep the watchdog from running out.
///
/// Whatever the delays of the rounds, as long as none is above the margin:
/// at every time up to the window after the last refresh, the watchdog was
/// refreshed less than its window ago.
pub proof fn lemma_watchdog_stays_fed(task: LivenessTask, delays: Seq<nat>, rounds: nat, t: nat)
    requires
        task.wf(),
        task.window().is_some(),
        delays_within(delays, task.margin()),
        rounds <= delays.len(),
        t < refresh_time(task.period(), delays, rounds) + task.window().unwrap(),
    ensures
        alive_at(task.period(), delays, rounds, task.window().unwrap(), t),
    decreases rounds,
{
    if refresh_time(task.period(), delays, rounds) > t {
        let earlier = (rounds - 1) as nat;
        lemma_refresh_gap(task, delays, earlier);
        lemma_watchdog_stays_fed(task, delays, earlier, t);
    }
}

} // verus!
