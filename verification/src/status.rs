//! Lifecycle states reported to the controller.

use vstd::prelude::*;

verus! {

/// A lifecycle state of the tunnel, as reported through
/// [`crate::callbacks::AdVpnCallback::notify`].
#[derive(Clone, Copy, Debug, PartialEq, Eq, Structural)]
pub enum VpnStatus {
    Starting,
    Running,
    Stopping,
    WaitingForNetwork,
    Reconnecting,
    ReconnectingNetworkError,
    Stopped,
}

impl VpnStatus {
    /// The integer code of a status.
    pub open spec fn spec_ordinal(self) -> int {
        match self {
            VpnStatus::Starting => 0,
            VpnStatus::Running => 1,
            VpnStatus::Stopping => 2,
            VpnStatus::WaitingForNetwork => 3,
            VpnStatus::Reconnecting => 4,
            VpnStatus::ReconnectingNetworkError => 5,
            VpnStatus::Stopped => 6,
        }
    }

    /// The integer code under which the controller knows this status.
    pub fn ordinal(&self) -> (code: i32)
        ensures
            code == self.spec_ordinal(),
    {
        match self {
            VpnStatus::Starting => 0,
            VpnStatus::Running => 1,
            VpnStatus::Stopping => 2,
            VpnStatus::WaitingForNetwork => 3,
            VpnStatus::Reconnecting => 4,
            VpnStatus::ReconnectingNetworkError => 5,
            VpnStatus::Stopped => 6,
        }
    }
}

/// How an iteration of the event loop ended.
#[derive(Clone, Copy, Debug, PartialEq, Eq, Structural)]
pub enum LoopOutcome {
    /// The iteration did its work; the loop goes on.
    Served,
    /// The stop descriptor asked for the end.
    StopRequested,
    /// Polling failed for good.
    PollFailed,
    /// The watchdog asks for a reconnection.
    ReconnectDemanded,
    /// Reading from or writing to the device failed.
    DeviceFailed,
}

impl VpnStatus {
    /// The state after an iteration that ended with `outcome`. A loop that
    /// is stopping or has stopped stays so. Else an iteration that did its
    /// work means that the tunnel runs; a request to stop, or a poll that
    /// failed, that it is stopping; a demand of the watchdog that it is
    /// reconnecting; a failure of the device that it is reconnecting after a
    /// network error.
    pub open spec fn spec_after(self, outcome: LoopOutcome) -> VpnStatus {
        match self {
            VpnStatus::Stopping => VpnStatus::Stopping,
            VpnStatus::Stopped => VpnStatus::Stopped,
            _ => match outcome {
                LoopOutcome::Served => VpnStatus::Running,
                LoopOutcome::StopRequested => VpnStatus::Stopping,
                LoopOutcome::PollFailed => VpnStatus::Stopping,
                LoopOutcome::ReconnectDemanded => VpnStatus::Reconnecting,
                LoopOutcome::DeviceFailed => VpnStatus::ReconnectingNetworkError,
            },
        }
    }

    /// Whether the loop goes on in this state: it does while the tunnel is
    /// starting or running.
    pub open spec fn spec_goes_on(self) -> bool {
        self == VpnStatus::Starting || self == VpnStatus::Running
    }

    /// The state once the loop has returned: a loop that was stopping has
    /// stopped; any other state stays.
    pub open spec fn spec_finished(self) -> VpnStatus {
        match self {
            VpnStatus::Stopping => VpnStatus::Stopped,
            _ => self,
        }
    }

    /// The state after an iteration that ended with `outcome`.
    pub fn after(self, outcome: LoopOutcome) -> (status: VpnStatus)
        ensures
            status == self.spec_after(outcome),
    {
        match self {
            VpnStatus::Stopping => VpnStatus::Stopping,
            VpnStatus::Stopped => VpnStatus::Stopped,
            _ => match outcome {
                LoopOutcome::Served => VpnStatus::Running,
                LoopOutcome::StopRequested => VpnStatus::Stopping,
                LoopOutcome::PollFailed => VpnStatus::Stopping,
                LoopOutcome::ReconnectDemanded => VpnStatus::Reconnecting,
                LoopOutcome::DeviceFailed => VpnStatus::ReconnectingNetworkError,
            },
        }
    }

    /// Whether the loop goes on in this state.
    pub fn goes_on(self) -> (on: bool)
        ensures
            on == self.spec_goes_on(),
    {
        match self {
            VpnStatus::Starting => true,
            VpnStatus::Running => true,
            _ => false,
        }
    }

    /// The state once the loop has returned.
    pub fn finished(self) -> (status: VpnStatus)
        ensures
            status == self.spec_finished(),
    {
        match self {
            VpnStatus::Stopping => VpnStatus::Stopped,
            _ => self,
        }
    }
}

/// The loop goes on exactly after an iteration that did its work, and a
/// loop that ended for a request to stop, or for a failed poll, ends as
/// stopped.
pub proof fn lemma_loop_goes_on_while_served(status: VpnStatus, outcome: LoopOutcome)
    requires
        status.spec_goes_on(),
    ensures
        status.spec_after(outcome).spec_goes_on() <==> outcome == LoopOutcome::Served,
        (outcome == LoopOutcome::StopRequested || outcome == LoopOutcome::PollFailed)
            ==> status.spec_after(outcome).spec_finished() == VpnStatus::Stopped,
{
}

} // verus!
