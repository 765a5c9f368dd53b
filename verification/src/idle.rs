//! The idle detector: turns the time since the user's last input into
//! reports of idleness.

use crate::config::{Config, Interval};
use crate::state::StateChange;
use vstd::prelude::*;

verus! {

/// The worker that watches for idleness.
#[derive(Debug, Clone, Copy, PartialEq, Eq, Structural)]
pub struct IdleModule {
    pub timeout: Interval,
    pub poll_rate: Interval,
}

impl IdleModule {
    /// The worker for a configuration, or `None` where the idle module is
    /// off.
    pub fn new(config: &Config) -> (module: Option<IdleModule>)
        ensures
            module == match config.modules.idle {
                Some(idle) => Some(IdleModule { timeout: idle.timeout, poll_rate: idle.poll_rate }),
                None => None,
            },
    {
        match config.modules.idle {
            Some(idle) => Some(IdleModule { timeout: idle.timeout, poll_rate: idle.poll_rate }),
            None => None,
        }
    }

    /// The first report, made before the idle time has been read: the user
    /// counts as present.
    pub fn start(&self) -> (change: StateChange)
        ensures
            change == StateChange::Idle(false),
    {
        StateChange::Idle(false)
    }

    /// The report for an idle time of `idle_seconds`: the user is idle once
    /// the whole seconds of the timeout have passed.
    pub fn poll(&self, idle_seconds: u64) -> (change: StateChange)
        ensures
            change == StateChange::Idle(idle_seconds >= self.timeout.secs),
    {
        if idle_seconds >= self.timeout.as_secs() {
            StateChange::Idle(true)
        } else {
            StateChange::Idle(false)
        }
    }
}

} // verus!
