//! The snapshot of the host's timer state.
use vstd::prelude::*;

verus! {

/// The possible states of the timer.
#[derive(Debug, Clone, Copy, PartialEq, Eq, Structural)]
pub enum TimerState {
    /// The timer has yet to be started.
    NotRunning,
    /// The timer is currently running.
    Running,
    /// The timer is paused.
    Paused,
    /// The timer is stopped because a run was completed.
    Ended,
}

/// The state that the host's code `raw` stands for, if it stands for one.
pub open spec fn timer_state_of(raw: u32) -> Option<TimerState> {
    if raw == 0 {
        Some(TimerState::NotRunning)
    } else if raw == 1 {
        Some(TimerState::Running)
    } else if raw == 2 {
        Some(TimerState::Paused)
    } else if raw == 3 {
        Some(TimerState::Ended)
    } else {
        None
    }
}

impl TimerState {
    /// Maps the host's timer state code to a state. A code outside the four
    /// known ones gives `None` rather than an invalid value.
    pub fn from_raw(raw: u32) -> (r: Option<TimerState>)
        ensures
            r == timer_state_of(raw),
    {
        match raw {
            0 => Some(TimerState::NotRunning),
            1 => Some(TimerState::Running),
            2 => Some(TimerState::Paused),
            3 => Some(TimerState::Ended),
            _ => None,
        }
    }
}

} // verus!
