//! Waiting: a countdown that runs out.

use vstd::prelude::*;
use crate::actions::StopReason;

verus! {

/// Waits for a duration, in nanoseconds.
#[derive(Clone, Copy, Debug, PartialEq, Eq, Structural)]
pub struct WaitAction {
    /// How long a fresh wait lasts.
    pub duration: u64,
    /// What is left of the wait that runs or is paused.
    pub remaining: Option<u64>,
}

impl WaitAction {
    /// A wait of `duration` nanoseconds that has not begun.
    pub fn new(duration: u64) -> (r: Self)
        ensures
            r == (WaitAction { duration, remaining: None }),
    {
        WaitAction { duration, remaining: None }
    }

    /// The wait once it is started: a paused wait goes on with what was
    /// left, any other begins anew.
    pub open spec fn spec_on_start(self) -> WaitAction {
        WaitAction {
            duration: self.duration,
            remaining: Some(
                match self.remaining {
                    Some(left) => left,
                    None => self.duration,
                },
            ),
        }
    }

    /// The wait once it is stopped: only a pause keeps what was left.
    pub open spec fn spec_on_stop(self, reason: StopReason) -> WaitAction {
        match reason {
            StopReason::Paused => self,
            _ => WaitAction { duration: self.duration, remaining: None },
        }
    }

    /// The wait after a tick of `dt` nanoseconds: the countdown goes down
    /// by `dt`, and not below zero.
    pub open spec fn spec_tick(self, dt: u64) -> WaitAction {
        match self.remaining {
            Some(left) => WaitAction {
                duration: self.duration,
                remaining: Some(if left > dt { (left - dt) as u64 } else { 0 }),
            },
            None => self,
        }
    }

    /// Whether the countdown has run out.
    pub open spec fn spec_is_finished(self) -> bool {
        self.remaining == Some(0u64)
    }

    /// Starts or resumes the wait.
    pub fn on_start(&mut self)
        ensures
            *final(self) == old(self).spec_on_start(),
    {
        if self.remaining.is_none() {
            self.remaining = Some(self.duration);
        }
    }

    /// Stops the wait.
    pub fn on_stop(&mut self, reason: StopReason)
        ensures
            *final(self) == old(self).spec_on_stop(reason),
    {
        match reason {
            StopReason::Paused => {},
            _ => {
                self.remaining = None;
            },
        }
    }

    /// Counts `dt` nanoseconds down and says whether the wait is over.
    pub fn tick(&mut self, dt: u64) -> (finished: bool)
        ensures
            *final(self) == old(self).spec_tick(dt),
            finished == final(self).spec_is_finished(),
    {
        match self.remaining {
            Some(left) => {
                let rest: u64 = if left > dt {
                    left - dt
                } else {
                    0
                };
                self.remaining = Some(rest);
                rest == 0
            },
            None => false,
        }
    }
}

/// A wait that is paused and resumed goes on with exactly what was left.
pub proof fn lemma_pause_resume_keeps_countdown(wait: WaitAction)
    requires
        wait.remaining.is_some(),
    ensures
        wait.spec_on_stop(StopReason::Paused).spec_on_start() == wait,
{
}

} // verus!
