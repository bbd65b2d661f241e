//! The shared-state coordinator: the single source of truth for code,
//! input, output, speed, lifecycle and hardware status, plus the ordered
//! queue of commands destined for the hardware worker.
//!
//! The coordinator is a plain value; the surrounding process shares it
//! behind a lock, drains the command queue into the real channel, and
//! supplies the current time with every mutation.

use vstd::prelude::*;

use crate::errors::{BFError, BFRes};
use crate::hw::{HWCmd, HWState};
use crate::ledger::ChangeTimes;
use crate::lifecycle::{control_of, Control, ItpState};
use crate::bytes::{copy_bytes, prefix_eq};
use crate::nesting::{is_nesting_correct, nesting_ok};
use crate::session::Run;

verus! {

/// A snapshot of the externally visible state: the control label, and the
/// running session's progress when there is one.
#[derive(Debug)]
pub struct StateView {
    /// The single-word status combining hardware status and lifecycle.
    pub control: Control,
    /// The session's progress, present exactly while a run is active.
    pub run: Option<Run>,
}

/// The process-wide shared state.
#[derive(Debug)]
pub struct Global {
    /// Commands queued for the hardware worker, oldest first.
    pub hw: Vec<HWCmd>,
    /// Execution speed in `[1, 100]`; the driver runs at `speed^3` steps
    /// per unit of time.
    pub speed: u8,
    /// The program source.
    pub full_code: Vec<u8>,
    /// The input stream.
    pub input: Vec<u8>,
    /// The accumulated output; cleared only when a run starts.
    pub output: Vec<u8>,
    /// The run lifecycle.
    pub state: ItpState,
    /// Live hardware conditions, written only by the hardware worker.
    pub hw_state: HWState,
    /// Per-field last-change timestamps.
    pub last_change: ChangeTimes,
}

impl Global {
    /// The coordinator's invariant: the stored code is always well
    /// nested, the speed is in range, and a running session has not
    /// consumed more input than the coordinator holds.
    pub open spec fn wf(self) -> bool {
        &&& nesting_ok(self.full_code@)
        &&& 1 <= self.speed <= 100
        &&& (self.state matches ItpState::Running { run, .. } ==> run.ic <= self.input@.len())
    }

    /// A fresh coordinator: full speed, empty buffers, idle, regular
    /// hardware status, no queued commands, every ledger entry at `now`.
    pub fn new(now: u64) -> (g: Global)
        ensures
            g.wf(),
            g.hw@ == Seq::<HWCmd>::empty(),
            g.speed == 100,
            g.full_code@ == Seq::<u8>::empty(),
            g.input@ == Seq::<u8>::empty(),
            g.output@ == Seq::<u8>::empty(),
            g.state is Idle,
            g.hw_state is Regular,
            g.last_change == (ChangeTimes {
                speed: now,
                code: now,
                input: now,
                output: now,
                state: now,
            }),
    {
        Global {
            hw: Vec::new(),
            speed: 100,
            full_code: Vec::new(),
            input: Vec::new(),
            output: Vec::new(),
            state: ItpState::Idle,
            hw_state: HWState::Regular,
            last_change: ChangeTimes::new(now),
        }
    }

    /// Store a new input stream and refresh its ledger entry.
    pub fn set_input(&mut self, inp: Vec<u8>, now: u64)
        requires
            old(self).state matches ItpState::Running { run, .. } ==> run.ic <= inp@.len(),
        ensures
            *final(self) == (Global {
                input: inp,
                last_change: (ChangeTimes { input: now, ..old(self).last_change }),
                ..*old(self)
            }),
    {
        self.input = inp;
        self.last_change.input = now;
    }

    /// Store a new program and refresh its ledger entry.
    pub fn set_code(&mut self, code: Vec<u8>, now: u64)
        requires
            nesting_ok(code@),
        ensures
            *final(self) == (Global {
                full_code: code,
                last_change: (ChangeTimes { code: now, ..old(self).last_change }),
                ..*old(self)
            }),
    {
        self.full_code = code;
        self.last_change.code = now;
    }

    /// Store a new output buffer and refresh its ledger entry.
    pub fn set_output(&mut self, output: Vec<u8>, now: u64)
        ensures
            *final(self) == (Global {
                output: output,
                last_change: (ChangeTimes { output: now, ..old(self).last_change }),
                ..*old(self)
            }),
    {
        self.output = output;
        self.last_change.output = now;
    }

    /// Store a new lifecycle state and refresh its ledger entry.
    pub fn set_state(&mut self, state: ItpState, now: u64)
        requires
            state matches ItpState::Running { run, .. } ==> run.ic <= old(self).input@.len(),
        ensures
            *final(self) == (Global {
                state: state,
                last_change: (ChangeTimes { state: now, ..old(self).last_change }),
                ..*old(self)
            }),
    {
        self.state = state;
        self.last_change.state = now;
    }

    /// Set the execution speed; unconditional, no failure mode.
    pub fn set_speed(&mut self, speed: u8, now: u64)
        requires
            1 <= speed <= 100,
        ensures
            *final(self) == (Global {
                speed: speed,
                last_change: (ChangeTimes { speed: now, ..old(self).last_change }),
                ..*old(self)
            }),
    {
        self.speed = speed;
        self.last_change.speed = now;
    }

    /// Record the hardware worker's live status report.
    pub fn set_hw_state(&mut self, hw_state: HWState)
        ensures
            *final(self) == (Global { hw_state: hw_state, ..*old(self) }),
    {
        self.hw_state = hw_state;
    }

    /// Queue a task for the hardware worker, after everything queued
    /// before it.
    pub fn send_hw(&mut self, cmd: HWCmd)
        ensures
            final(self).hw@ == old(self).hw@.push(cmd),
            *final(self) == (Global { hw: final(self).hw, ..*old(self) }),
    {
        self.hw.push(cmd);
    }

    /// Replace the input stream.
    ///
    /// While a run is active with `k` bytes of input already consumed, the
    /// replacement is accepted exactly when it is at least `k` bytes long
    /// and agrees with the current input on those first `k` bytes; the
    /// consumed prefix is immutable, everything after it may be rewritten.
    /// On acceptance the session's own buffer is updated as well. In every
    /// other lifecycle state the replacement is accepted unconditionally.
    pub fn change_input(&mut self, inp: Vec<u8>, now: u64) -> (r: BFRes)
        requires
            old(self).wf(),
        ensures
            final(self).wf(),
            (match old(self).state {
                ItpState::Running { run, paused } => {
                    if inp@.len() >= run.ic && inp@.subrange(0, run.ic as int)
                        == old(self).input@.subrange(0, run.ic as int) {
                        &&& r is Ok
                        &&& final(self).state matches ItpState::Running { run: run2, paused: paused2 }
                            && run2.ic == run.ic && run2.code == run.code && run2.inp@ == inp@
                            && paused2 == paused
                        &&& *final(self) == (Global {
                            input: inp,
                            state: final(self).state,
                            last_change: (ChangeTimes { input: now, ..old(self).last_change }),
                            ..*old(self)
                        })
                    } else {
                        r == BFRes::Err(BFError::InputChanged) && *final(self) == *old(self)
                    }
                },
                _ => {
                    &&& r is Ok
                    &&& *final(self) == (Global {
                        input: inp,
                        last_change: (ChangeTimes { input: now, ..old(self).last_change }),
                        ..*old(self)
                    })
                },
            }),
    {
        let running = match &self.state {
            ItpState::Running { .. } => true,
            _ => false,
        };
        if running {
            let ok = match &self.state {
                ItpState::Running { run, .. } => {
                    inp.len() >= run.ic && prefix_eq(&self.input, &inp, run.ic)
                },
                _ => false,
            };
            if !ok {
                return Err(BFError::InputChanged);
            }
            match &mut self.state {
                ItpState::Running { run, .. } => {
                    run.inp = copy_bytes(&inp);
                },
                _ => {},
            }
            self.set_input(inp, now);
            Ok(())
        } else {
            self.set_input(inp, now);
            Ok(())
        }
    }

    /// Replace the program source.
    ///
    /// Code whose brackets are not well nested is rejected outright. Well
    /// nested code is accepted while the lifecycle is `Idle` or
    /// `Uncontrolled` and rejected while it is `Startup` or `Running`; in
    /// `Uncontrolled`, acceptance also queues one reprogram command for
    /// the hardware worker.
    pub fn change_code(&mut self, code: Vec<u8>, now: u64) -> (r: BFRes)
        requires
            old(self).wf(),
        ensures
            final(self).wf(),
            !nesting_ok(code@) ==> r == BFRes::Err(BFError::InvalidNesting)
                && *final(self) == *old(self),
            nesting_ok(code@) ==> (match old(self).state {
                ItpState::Idle => {
                    &&& r is Ok
                    &&& *final(self) == (Global {
                        full_code: code,
                        last_change: (ChangeTimes { code: now, ..old(self).last_change }),
                        ..*old(self)
                    })
                },
                ItpState::Startup | ItpState::Running { .. } => {
                    r == BFRes::Err(BFError::CodeChanged) && *final(self) == *old(self)
                },
                ItpState::Uncontrolled(_) => {
                    &&& r is Ok
                    &&& final(self).hw@ == old(self).hw@.push(HWCmd::Program)
                    &&& *final(self) == (Global {
                        full_code: code,
                        hw: final(self).hw,
                        last_change: (ChangeTimes { code: now, ..old(self).last_change }),
                        ..*old(self)
                    })
                },
            }),
    {
        if !is_nesting_correct(&code) {
            return Err(BFError::InvalidNesting);
        }
        match &self.state {
            ItpState::Idle => {
                self.set_code(code, now);
                Ok(())
            },
            ItpState::Startup => Err(BFError::CodeChanged),
            ItpState::Running { .. } => Err(BFError::CodeChanged),
            ItpState::Uncontrolled(_) => {
                self.set_code(code, now);
                self.send_hw(HWCmd::Program);
                Ok(())
            },
        }
    }

    /// A snapshot of the externally visible state: the control label
    /// derived from hardware status and lifecycle, merged with the running
    /// session's progress when there is one.
    pub fn get_state(&self) -> (v: StateView)
        ensures
            v.control == control_of(self.hw_state, self.state),
            (match self.state {
                ItpState::Running { run, .. } => v.run matches Some(r2) && r2.ic == run.ic
                    && r2.code@ == run.code@ && r2.inp@ == run.inp@,
                _ => v.run is None,
            }),
    {
        let ctrl = match &self.hw_state {
            HWState::Regular => match &self.state {
                ItpState::Idle => Control::Idle,
                ItpState::Startup => Control::Startup,
                ItpState::Running { paused, .. } => if *paused {
                    Control::Paused
                } else {
                    Control::Running
                },
                ItpState::Uncontrolled(_) => Control::Uncontrolled,
            },
            HWState::WaitInput => Control::WaitInput,
            HWState::OutputReady => Control::OutputReady,
        };
        match &self.state {
            ItpState::Running { run, .. } => StateView { control: ctrl, run: Some(run.snapshot()) },
            _ => StateView { control: ctrl, run: None },
        }
    }

    /// The hardware worker's confirmation that a run started: clears the
    /// output, resets the hardware status, and replaces the lifecycle with
    /// a fresh session built from the current code and input snapshot.
    pub fn itp_started(&mut self, paused: bool, now: u64)
        requires
            old(self).wf(),
        ensures
            final(self).wf(),
            final(self).output@ == Seq::<u8>::empty(),
            final(self).hw_state is Regular,
            final(self).state matches ItpState::Running { run, paused: paused2 }
                && run.ic == 0 && run.code@ == old(self).full_code@
                && run.inp@ == old(self).input@ && paused2 == paused,
            *final(self) == (Global {
                output: final(self).output,
                hw_state: HWState::Regular,
                state: final(self).state,
                last_change: (ChangeTimes {
                    output: now,
                    state: now,
                    ..old(self).last_change
                }),
                ..*old(self)
            }),
    {
        self.set_output(Vec::new(), now);
        self.hw_state = HWState::Regular;
        let run = Run::new(&self.full_code, &self.input);
        let state = ItpState::Running { run, paused };
        self.set_state(state, now);
    }

    /// Remove and return every queued command, oldest first, in the order
    /// in which it was queued.
    pub fn take_hw(&mut self) -> (cmds: Vec<HWCmd>)
        ensures
            cmds == old(self).hw,
            final(self).hw@ == Seq::<HWCmd>::empty(),
            *final(self) == (Global { hw: final(self).hw, ..*old(self) }),
    {
        let mut cmds: Vec<HWCmd> = Vec::new();
        core::mem::swap(&mut self.hw, &mut cmds);
        cmds
    }
}

} // verus!
