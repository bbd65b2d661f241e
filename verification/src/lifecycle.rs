//! The run-lifecycle state machine and the externally visible control label.

use vstd::prelude::*;

use crate::hw::HWState;
use crate::session::Run;

verus! {

/// The run lifecycle: exactly one variant holds at any instant, and it
/// governs which mutations are currently legal.
#[derive(Debug)]
pub enum ItpState {
    /// No run in progress; code is mutable.
    Idle,
    /// A run was requested but the hardware worker has not yet confirmed
    /// it started; code and input are frozen.
    Startup,
    /// An active interpreter session owned by the coordinator.
    Running { run: Run, paused: bool },
    /// Hardware executes outside the coordinator's control loop; the
    /// counter tracks how many inputs were supplied in this mode.
    Uncontrolled(usize),
}

/// The single-word status reported to callers, combining the hardware
/// status with the lifecycle.
#[derive(Debug, Clone, Copy, PartialEq, Eq, Structural)]
pub enum Control {
    Idle,
    Startup,
    Running,
    Paused,
    Uncontrolled,
    WaitInput,
    OutputReady,
}

/// The control label as a function of the hardware status and the
/// lifecycle alone: a hardware status other than `Regular` overrides the
/// lifecycle-derived label.
pub open spec fn control_of(hw: HWState, st: ItpState) -> Control {
    match hw {
        HWState::Regular => match st {
            ItpState::Idle => Control::Idle,
            ItpState::Startup => Control::Startup,
            ItpState::Running { paused, .. } => if paused {
                Control::Paused
            } else {
                Control::Running
            },
            ItpState::Uncontrolled(_) => Control::Uncontrolled,
        },
        HWState::WaitInput => Control::WaitInput,
        HWState::OutputReady => Control::OutputReady,
    }
}

/// When the hardware status is not `Regular`, it decides the control label
/// by itself: the lifecycle does not matter.
pub proof fn lemma_hw_status_overrides(hw: HWState, st1: ItpState, st2: ItpState)
    requires
        hw !is Regular,
    ensures
        control_of(hw, st1) == control_of(hw, st2),
{
}

impl Control {
    /// The label's wire spelling.
    pub open spec fn label_spec(self) -> Seq<char> {
        match self {
            Control::Idle => "idle"@,
            Control::Startup => "startup"@,
            Control::Running => "running"@,
            Control::Paused => "paused"@,
            Control::Uncontrolled => "uncontrolled"@,
            Control::WaitInput => "wait_input"@,
            Control::OutputReady => "output_ready"@,
        }
    }

    /// The label as text, for the boundary layer.
    pub fn label(&self) -> (r: &'static str)
        ensures
            r@ == self.label_spec(),
    {
        match self {
            Control::Idle => "idle",
            Control::Startup => "startup",
            Control::Running => "running",
            Control::Paused => "paused",
            Control::Uncontrolled => "uncontrolled",
            Control::WaitInput => "wait_input",
            Control::OutputReady => "output_ready",
        }
    }
}

} // verus!
