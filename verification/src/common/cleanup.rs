//! The background cleaner of backends that do not expire values by
//! themselves.
//!
//! The cleaner alternates between sleeping for the sweep period and sweeping
//! the backend with one full scan, which deletes every expired value it
//! meets. The sleeping and the scanning are done by whoever runs the
//! cleaner; this module decides what comes next.
use crate::common::time::duration_from_secs;
use std::time::Duration;
use vstd::prelude::*;

verus! {

/// How the cleaner of a connection is to run.
#[derive(Debug)]
pub struct CleanerOptions {
    /// The pause between two sweeps.
    pub sweep_every: Duration,
}

impl Default for CleanerOptions {
    /// A sweep every ten minutes.
    fn default() -> (options: Self)
        ensures
            options.sweep_every == duration_from_secs(600),
    {
        Self { sweep_every: Duration::from_secs(600) }
    }
}

impl CleanerOptions {
    /// The options with which the cleaner of a backend is to run, or `None`
    /// for a backend that needs no cleaner. A backend gets a cleaner if and
    /// only if it does not expire values by itself, and never more than one.
    pub fn for_backend(self, requires_cleaner: bool) -> (options: Option<Self>)
        ensures
            options == if requires_cleaner {
                Some(self)
            } else {
                None
            },
    {
        if requires_cleaner {
            Some(self)
        } else {
            None
        }
    }
}

/// Where the cleaner stands.
#[derive(Debug, Clone, Copy, PartialEq, Eq, Structural)]
pub enum CleanerState {
    /// Sleeping until the next sweep is due.
    Idle,
    /// A scan of the backend is under way.
    Sweeping,
}

/// What has happened since the cleaner last decided.
#[derive(Debug, Clone, Copy, PartialEq, Eq, Structural)]
pub enum CleanerEvent {
    /// The sleep is over.
    Woke,
    /// The scan has run to its end.
    Swept,
    /// The scan could not be started, or broke off.
    SweepFailed,
}

/// What the cleaner asks for next.
#[derive(Debug)]
pub enum CleanerAction {
    /// Sleep for this long, then report `Woke`.
    Sleep(Duration),
    /// Scan the backend and drop what it lists, then report `Swept` or
    /// `SweepFailed`.
    Scan,
    /// Report the failed sweep to the diagnostics, sleep for this long, then
    /// report `Woke`.
    ReportAndSleep(Duration),
}

/// The cleaner of one backend.
#[derive(Debug)]
pub struct Cleaner {
    sweep_every: Duration,
    state: CleanerState,
}

impl Cleaner {
    /// The pause between two sweeps.
    pub closed spec fn sweep_every(&self) -> Duration {
        self.sweep_every
    }

    /// Where the cleaner stands.
    pub closed spec fn state(&self) -> CleanerState {
        self.state
    }

    /// The state that follows `state` on `event`. A wake-up starts a sweep.
    /// The end of a sweep, good or bad, sends the cleaner back to sleep. An
    /// event that does not belong to the state changes nothing.
    pub open spec fn next_state(state: CleanerState, event: CleanerEvent) -> CleanerState {
        match (state, event) {
            (CleanerState::Idle, CleanerEvent::Woke) => CleanerState::Sweeping,
            (CleanerState::Sweeping, CleanerEvent::Swept) => CleanerState::Idle,
            (CleanerState::Sweeping, CleanerEvent::SweepFailed) => CleanerState::Idle,
            (state, _) => state,
        }
    }

    /// What is asked for on `event` in `state`, with a sweep period of
    /// `period`. A failed sweep is reported and given up for this round; the
    /// cleaner then waits for the next one. An event that does not belong to
    /// the state asks again for what the state is waiting for.
    pub open spec fn next_action(
        state: CleanerState,
        event: CleanerEvent,
        period: Duration,
    ) -> CleanerAction {
        match (state, event) {
            (CleanerState::Idle, CleanerEvent::Woke) => CleanerAction::Scan,
            (CleanerState::Sweeping, CleanerEvent::Swept) => CleanerAction::Sleep(period),
            (CleanerState::Sweeping, CleanerEvent::SweepFailed) => CleanerAction::ReportAndSleep(
                period,
            ),
            (CleanerState::Idle, _) => CleanerAction::Sleep(period),
            (CleanerState::Sweeping, _) => CleanerAction::Scan,
        }
    }

    /// Starts a cleaner. It begins idle: the first thing to do is to sleep
    /// for the sweep period.
    pub fn new(options: CleanerOptions) -> (started: (Self, CleanerAction))
        ensures
            started.0.state() == CleanerState::Idle,
            started.0.sweep_every() == options.sweep_every,
            started.1 == CleanerAction::Sleep(options.sweep_every),
    {
        (
            Cleaner { sweep_every: options.sweep_every, state: CleanerState::Idle },
            CleanerAction::Sleep(options.sweep_every),
        )
    }

    /// Takes note of `event` and says what to do next.
    pub fn on(&mut self, event: CleanerEvent) -> (action: CleanerAction)
        ensures
            final(self).sweep_every() == old(self).sweep_every(),
            final(self).state() == Self::next_state(old(self).state(), event),
            action == Self::next_action(old(self).state(), event, old(self).sweep_every()),
    {
        match (self.state, event) {
            (CleanerState::Idle, CleanerEvent::Woke) => {
                self.state = CleanerState::Sweeping;
                CleanerAction::Scan
            },
            (CleanerState::Sweeping, CleanerEvent::Swept) => {
                self.state = CleanerState::Idle;
                CleanerAction::Sleep(self.sweep_every)
            },
            (CleanerState::Sweeping, CleanerEvent::SweepFailed) => {
                self.state = CleanerState::Idle;
                CleanerAction::ReportAndSleep(self.sweep_every)
            },
            (CleanerState::Idle, _) => CleanerAction::Sleep(self.sweep_every),
            (CleanerState::Sweeping, _) => CleanerAction::Scan,
        }
    }
}

/// The cleaner never stops: whatever happens, it asks either for a sleep of
/// the sweep period or for a scan, and it never asks for a scan while one is
/// under way nor lets the end of a scan pass without a sleep.
pub proof fn law_cleaner_runs_forever(state: CleanerState, event: CleanerEvent, period: Duration)
    ensures
        match Cleaner::next_action(state, event, period) {
            CleanerAction::Scan => Cleaner::next_state(state, event) == CleanerState::Sweeping,
            CleanerAction::Sleep(pause) => pause == period && Cleaner::next_state(state, event)
                == CleanerState::Idle,
            CleanerAction::ReportAndSleep(pause) => pause == period && Cleaner::next_state(
                state,
                event,
            ) == CleanerState::Idle && event == CleanerEvent::SweepFailed,
        },
{
}

} // verus!
