use std::sync::atomic::{AtomicBool, Ordering};

use complementary_spwm::button::{replay_edges, ButtonEdgeHandler, DEBOUNCE_CYCLES};
use complementary_spwm::control::{Command, ControlLoop, Decision, LoopState, LOOP_PAUSE_CYCLES};
use complementary_spwm::scheduler::PwmScheduler;
use complementary_spwm::table::{DutyPair, SampleTable};

fn write(main: u16, comp: u16) -> Command {
    Command::WriteDuties(DutyPair { main, comp })
}

/// Three samples without dead time, at 50 Hz: 6666 microseconds apart.
fn small_scheduler() -> PwmScheduler {
    let table = SampleTable::generate(&[10, 20, 30], 0).unwrap();
    PwmScheduler::new(table, 50).unwrap()
}

fn one_pass() -> Vec<Command> {
    vec![
        write(10, 65525),
        Command::WaitMicros(6666),
        write(20, 65515),
        Command::WaitMicros(6666),
        write(30, 65505),
        Command::WaitMicros(6666),
    ]
}

fn running_iteration(report: bool) -> Vec<Command> {
    let mut commands = vec![Command::SetIndicator(true)];
    if report {
        commands.push(Command::Report(LoopState::Running));
    }
    commands.extend(one_pass());
    commands.push(Command::WaitCycles(1000));
    commands
}

fn paused_iteration(report: bool) -> Vec<Command> {
    let mut commands = vec![Command::SetIndicator(false)];
    if report {
        commands.push(Command::Report(LoopState::Paused));
    }
    commands.push(write(0, 0));
    commands.push(Command::WaitCycles(1000));
    commands
}

#[test]
fn loop_starts_paused() {
    assert_eq!(ControlLoop::new().state(), LoopState::Paused);
}

#[test]
fn loop_pause_is_a_thousand_cycles() {
    assert_eq!(LOOP_PAUSE_CYCLES, 1000);
}

#[test]
fn observe_follows_the_flag() {
    let mut control = ControlLoop::new();
    assert_eq!(
        control.observe(false),
        Decision { state: LoopState::Paused, indicator: false, report: None, pause_cycles: 1000 }
    );
    assert_eq!(control.state(), LoopState::Paused);
    assert_eq!(
        control.observe(true),
        Decision {
            state: LoopState::Running,
            indicator: true,
            report: Some(LoopState::Running),
            pause_cycles: 1000
        }
    );
    assert_eq!(control.state(), LoopState::Running);
    assert_eq!(
        control.observe(true),
        Decision { state: LoopState::Running, indicator: true, report: None, pause_cycles: 1000 }
    );
    assert_eq!(
        control.observe(false),
        Decision {
            state: LoopState::Paused,
            indicator: false,
            report: Some(LoopState::Paused),
            pause_cycles: 1000
        }
    );
    assert_eq!(control.state(), LoopState::Paused);
    assert_eq!(
        control.observe(false),
        Decision { state: LoopState::Paused, indicator: false, report: None, pause_cycles: 1000 }
    );
}

#[test]
fn paused_iteration_holds_the_outputs_at_zero() {
    let mut control = ControlLoop::new();
    let mut scheduler = small_scheduler();
    assert_eq!(control.iterate(false, &mut scheduler), paused_iteration(false));
    assert_eq!(control.state(), LoopState::Paused);
    assert_eq!(scheduler.current_index(), 0);
}

#[test]
fn running_iteration_streams_one_full_period() {
    let mut control = ControlLoop::new();
    let mut scheduler = small_scheduler();
    assert_eq!(control.iterate(true, &mut scheduler), running_iteration(true));
    assert_eq!(control.state(), LoopState::Running);
    assert_eq!(scheduler.current_index(), 0);
}

#[test]
fn state_is_reported_once_per_change() {
    let mut control = ControlLoop::new();
    let mut scheduler = small_scheduler();
    assert_eq!(control.iterate(false, &mut scheduler), paused_iteration(false));
    assert_eq!(control.iterate(true, &mut scheduler), running_iteration(true));
    assert_eq!(control.iterate(true, &mut scheduler), running_iteration(false));
    assert_eq!(control.iterate(true, &mut scheduler), running_iteration(false));
    assert_eq!(control.iterate(false, &mut scheduler), paused_iteration(true));
    assert_eq!(control.iterate(false, &mut scheduler), paused_iteration(false));
    assert_eq!(control.iterate(true, &mut scheduler), running_iteration(true));
}

#[test]
fn pausing_does_not_move_the_scheduler() {
    let mut control = ControlLoop::new();
    let mut scheduler = small_scheduler();
    scheduler.advance_one_sample();
    assert_eq!(control.iterate(false, &mut scheduler), paused_iteration(false));
    assert_eq!(scheduler.current_index(), 1);
    let commands = control.iterate(true, &mut scheduler);
    assert_eq!(commands[2], write(20, 65515));
    assert_eq!(commands[4], write(30, 65505));
    assert_eq!(commands[6], write(10, 65525));
    assert_eq!(scheduler.current_index(), 1);
}

#[test]
fn one_period_of_the_reference_waveform() {
    let raw: Vec<u16> = (0..100u16).map(|i| 65535 - i * 655).collect();
    let table = SampleTable::generate(&raw, 100).unwrap();
    let mut scheduler = PwmScheduler::new(table, 50).unwrap();
    let mut control = ControlLoop::new();
    let commands = control.iterate(true, &mut scheduler);
    // Indicator, report, a hundred writes each followed by its wait, pause.
    assert_eq!(commands.len(), 203);
    assert_eq!(commands[0], Command::SetIndicator(true));
    assert_eq!(commands[1], Command::Report(LoopState::Running));
    for i in 0..100 {
        let main = raw[i].saturating_sub(100);
        let comp = (65535 - raw[i]).saturating_sub(100);
        assert_eq!(commands[2 + 2 * i], write(main, comp));
        assert_eq!(commands[3 + 2 * i], Command::WaitMicros(200));
    }
    assert_eq!(commands[202], Command::WaitCycles(1000));
    assert_eq!(scheduler.current_index(), 0);
    // The second period follows in the same order, without the report.
    let again = control.iterate(true, &mut scheduler);
    assert_eq!(again.len(), 202);
    assert_eq!(again[1..], commands[2..]);
}

#[test]
fn button_presses_start_and_stop_the_waveform() {
    let window = DEBOUNCE_CYCLES as u64;
    let mut control = ControlLoop::new();
    let mut scheduler = small_scheduler();
    // No press yet: the loop idles.
    let enabled = replay_edges(false, &[]).enabled;
    assert_eq!(control.iterate(enabled, &mut scheduler), paused_iteration(false));
    // One bouncing press: the waveform starts.
    let enabled = replay_edges(enabled, &[10, 11, 400]).enabled;
    assert_eq!(control.iterate(enabled, &mut scheduler), running_iteration(true));
    // A second press, well after the first: the waveform stops.
    let enabled = replay_edges(enabled, &[10 + 5 * window]).enabled;
    assert_eq!(control.iterate(enabled, &mut scheduler), paused_iteration(true));
}

#[test]
fn states_describe_themselves() {
    assert_eq!(LoopState::Running.describe(), "State changed: Running");
    assert_eq!(LoopState::Paused.describe(), "State changed: Paused");
}

#[test]
fn iteration_reads_the_shared_flag() {
    let flag = AtomicBool::new(false);
    let mut control = ControlLoop::new();
    let mut scheduler = small_scheduler();
    assert_eq!(control.run_iteration(&flag, &mut scheduler), paused_iteration(false));
    assert_eq!(control.state(), LoopState::Paused);
    flag.store(true, Ordering::Relaxed);
    assert_eq!(control.run_iteration(&flag, &mut scheduler), running_iteration(true));
    assert_eq!(control.state(), LoopState::Running);
    assert_eq!(control.run_iteration(&flag, &mut scheduler), running_iteration(false));
    flag.store(false, Ordering::Relaxed);
    assert_eq!(control.run_iteration(&flag, &mut scheduler), paused_iteration(true));
    assert_eq!(control.state(), LoopState::Paused);
    // Reading the flag does not change it.
    assert!(!flag.load(Ordering::Relaxed));
}

#[test]
fn handler_and_loop_share_one_flag() {
    let flag = AtomicBool::new(false);
    let mut handler: ButtonEdgeHandler<u8> = ButtonEdgeHandler::new();
    let mut slot = Some(24u8);
    handler.claim(&mut slot).unwrap();
    let mut control = ControlLoop::new();
    let mut scheduler = small_scheduler();
    assert_eq!(control.run_iteration(&flag, &mut scheduler), paused_iteration(false));
    assert!(handler.on_interrupt(&flag, true).is_some());
    assert_eq!(control.run_iteration(&flag, &mut scheduler), running_iteration(true));
    // An interrupt that finds no edge pending changes nothing.
    assert!(handler.on_interrupt(&flag, false).is_none());
    assert_eq!(control.run_iteration(&flag, &mut scheduler), running_iteration(false));
    assert!(handler.on_interrupt(&flag, true).is_some());
    assert_eq!(control.run_iteration(&flag, &mut scheduler), paused_iteration(true));
}
