use bf_interface::coordinator::Global;
use bf_interface::errors::BFError;
use bf_interface::hw::{HWCmd, HWState};
use bf_interface::ledger::ChangeTimes;
use bf_interface::lifecycle::{Control, ItpState};
use bf_interface::session::Run;

fn bytes(s: &str) -> Vec<u8> {
    s.as_bytes().to_vec()
}

#[test]
fn fresh_coordinator_is_idle_at_full_speed() {
    let g = Global::new(5);
    assert_eq!(g.speed, 100);
    assert!(g.full_code.is_empty());
    assert!(g.input.is_empty());
    assert!(g.output.is_empty());
    assert!(matches!(g.state, ItpState::Idle));
    assert_eq!(g.hw_state, HWState::Regular);
    assert!(g.hw.is_empty());
    assert_eq!(
        g.last_change,
        ChangeTimes { speed: 5, code: 5, input: 5, output: 5, state: 5 }
    );
}

#[test]
fn ledger_starts_at_the_given_time() {
    let t = ChangeTimes::new(42);
    assert_eq!(t, ChangeTimes { speed: 42, code: 42, input: 42, output: 42, state: 42 });
}

#[test]
fn balanced_code_accepted_while_idle() {
    let mut g = Global::new(0);
    assert_eq!(g.change_code(bytes("[->+<]"), 1), Ok(()));
    assert_eq!(g.full_code, bytes("[->+<]"));
    assert_eq!(g.last_change.code, 1);
    let v = g.get_state();
    assert_eq!(v.control, Control::Idle);
    assert_eq!(v.control.label(), "idle");
    assert!(v.run.is_none());
}

#[test]
fn unbalanced_code_rejected_in_every_state() {
    let mut g = Global::new(0);
    assert_eq!(g.change_code(bytes("[->+<"), 1), Err(BFError::InvalidNesting));
    assert!(g.full_code.is_empty());

    g.set_state(ItpState::Startup, 2);
    assert_eq!(g.change_code(bytes("[->+<"), 3), Err(BFError::InvalidNesting));

    g.set_state(ItpState::Uncontrolled(0), 4);
    assert_eq!(g.change_code(bytes("[->+<"), 5), Err(BFError::InvalidNesting));
    assert!(g.full_code.is_empty());
    assert!(g.hw.is_empty());
}

#[test]
fn code_frozen_while_starting_or_running() {
    let mut g = Global::new(0);
    assert_eq!(g.change_code(bytes("+"), 1), Ok(()));

    g.set_state(ItpState::Startup, 2);
    assert_eq!(g.change_code(bytes("-"), 3), Err(BFError::CodeChanged));
    assert_eq!(g.full_code, bytes("+"));
    assert_eq!(g.last_change.code, 1);

    g.itp_started(false, 4);
    assert_eq!(g.change_code(bytes("-"), 5), Err(BFError::CodeChanged));
    assert_eq!(g.full_code, bytes("+"));
}

#[test]
fn code_change_while_uncontrolled_queues_one_reprogram() {
    let mut g = Global::new(0);
    g.set_state(ItpState::Uncontrolled(2), 1);
    assert_eq!(g.change_code(bytes("+"), 2), Ok(()));
    assert_eq!(g.full_code, bytes("+"));
    assert_eq!(g.hw, vec![HWCmd::Program]);
}

#[test]
fn input_change_is_unconditional_outside_running() {
    let mut g = Global::new(0);
    assert_eq!(g.change_input(bytes("abc"), 1), Ok(()));
    assert_eq!(g.input, bytes("abc"));
    assert_eq!(g.last_change.input, 1);

    g.set_state(ItpState::Startup, 2);
    assert_eq!(g.change_input(bytes("xy"), 3), Ok(()));
    assert_eq!(g.input, bytes("xy"));

    g.set_state(ItpState::Uncontrolled(1), 4);
    assert_eq!(g.change_input(bytes(""), 5), Ok(()));
    assert_eq!(g.input, bytes(""));
}

#[test]
fn input_change_while_running_keeps_consumed_prefix() {
    let mut g = Global::new(0);
    assert_eq!(g.change_input(bytes("abc123"), 1), Ok(()));
    let run = Run { code: bytes(""), inp: bytes("abc123"), ic: 3 };
    g.set_state(ItpState::Running { run, paused: false }, 2);

    assert_eq!(g.change_input(bytes("abcXYZ"), 3), Ok(()));
    assert_eq!(g.input, bytes("abcXYZ"));
    assert_eq!(g.last_change.input, 3);
    match &g.state {
        ItpState::Running { run, paused } => {
            assert_eq!(run.inp, bytes("abcXYZ"));
            assert_eq!(run.ic, 3);
            assert!(!*paused);
        }
        _ => panic!("lifecycle should still be running"),
    }

    assert_eq!(g.change_input(bytes("xycXYZ"), 4), Err(BFError::InputChanged));
    assert_eq!(g.input, bytes("abcXYZ"));
    assert_eq!(g.last_change.input, 3);
}

#[test]
fn input_shorter_than_consumed_count_is_rejected() {
    let mut g = Global::new(0);
    assert_eq!(g.change_input(bytes("abc123"), 1), Ok(()));
    let run = Run { code: bytes(""), inp: bytes("abc123"), ic: 3 };
    g.set_state(ItpState::Running { run, paused: true }, 2);
    assert_eq!(g.change_input(bytes("ab"), 3), Err(BFError::InputChanged));
    assert_eq!(g.input, bytes("abc123"));
}

#[test]
fn run_start_clears_output_and_builds_fresh_session() {
    let mut g = Global::new(0);
    assert_eq!(g.change_code(bytes("[->+<]"), 1), Ok(()));
    assert_eq!(g.change_input(bytes("hi"), 2), Ok(()));
    g.set_output(bytes("stale"), 3);
    g.set_hw_state(HWState::OutputReady);
    g.set_state(ItpState::Startup, 4);

    g.itp_started(true, 5);
    assert!(g.output.is_empty());
    assert_eq!(g.hw_state, HWState::Regular);
    assert_eq!(g.last_change.output, 5);
    assert_eq!(g.last_change.state, 5);
    match &g.state {
        ItpState::Running { run, paused } => {
            assert!(*paused);
            assert_eq!(run.ic, 0);
            assert_eq!(run.code, bytes("[->+<]"));
            assert_eq!(run.inp, bytes("hi"));
        }
        _ => panic!("lifecycle should be running"),
    }
}

#[test]
fn run_start_from_uncontrolled_enables_control() {
    let mut g = Global::new(0);
    g.set_state(ItpState::Uncontrolled(7), 1);
    g.itp_started(false, 2);
    assert!(matches!(g.state, ItpState::Running { paused: false, .. }));
    assert!(g.output.is_empty());
    assert_eq!(g.hw_state, HWState::Regular);
}

#[test]
fn control_label_follows_lifecycle_while_hardware_is_regular() {
    let mut g = Global::new(0);
    assert_eq!(g.get_state().control.label(), "idle");

    g.set_state(ItpState::Startup, 1);
    assert_eq!(g.get_state().control.label(), "startup");

    g.itp_started(false, 2);
    assert_eq!(g.get_state().control.label(), "running");

    let run = Run { code: bytes(""), inp: bytes(""), ic: 0 };
    g.set_state(ItpState::Running { run, paused: true }, 3);
    assert_eq!(g.get_state().control.label(), "paused");

    g.set_state(ItpState::Uncontrolled(0), 4);
    assert_eq!(g.get_state().control.label(), "uncontrolled");
}

#[test]
fn hardware_status_overrides_lifecycle_label() {
    let mut g = Global::new(0);
    g.set_hw_state(HWState::WaitInput);
    assert_eq!(g.get_state().control, Control::WaitInput);
    assert_eq!(g.get_state().control.label(), "wait_input");

    g.set_state(ItpState::Startup, 1);
    assert_eq!(g.get_state().control, Control::WaitInput);

    g.set_hw_state(HWState::OutputReady);
    assert_eq!(g.get_state().control, Control::OutputReady);
    assert_eq!(g.get_state().control.label(), "output_ready");

    g.set_hw_state(HWState::Regular);
    assert_eq!(g.get_state().control, Control::Startup);
}

#[test]
fn snapshot_carries_session_progress_only_while_running() {
    let mut g = Global::new(0);
    assert!(g.get_state().run.is_none());

    assert_eq!(g.change_input(bytes("xyz"), 1), Ok(()));
    g.itp_started(false, 2);
    let v = g.get_state();
    assert_eq!(v.control, Control::Running);
    let run = v.run.expect("a running lifecycle must expose its session");
    assert_eq!(run.ic, 0);
    assert_eq!(run.inp, bytes("xyz"));
}

#[test]
fn queued_commands_keep_their_order() {
    let mut g = Global::new(0);
    g.send_hw(HWCmd::StartControl);
    g.send_hw(HWCmd::Program);
    g.send_hw(HWCmd::StartRun(true));
    g.send_hw(HWCmd::ExecStep);
    g.send_hw(HWCmd::Reset);
    g.send_hw(HWCmd::EndControl);
    let cmds = g.take_hw();
    assert_eq!(
        cmds,
        vec![
            HWCmd::StartControl,
            HWCmd::Program,
            HWCmd::StartRun(true),
            HWCmd::ExecStep,
            HWCmd::Reset,
            HWCmd::EndControl,
        ]
    );
    assert!(g.hw.is_empty());
}

#[test]
fn speed_change_updates_value_and_ledger() {
    let mut g = Global::new(0);
    g.set_speed(1, 9);
    assert_eq!(g.speed, 1);
    assert_eq!(g.last_change.speed, 9);
    assert_eq!(g.last_change.code, 0);
    g.set_speed(50, 10);
    assert_eq!(g.speed, 50);
    assert_eq!(g.last_change.speed, 10);
}
