//! End-to-end scenarios, driven exactly as the hardware would drive them:
//! edges latch the pending bit, the dispatcher runs whichever task became
//! ready first, tasks run to completion.

use button_led::machine::System;
use button_led::model::{Level, LogEntry, Task};

fn boot_log() -> Vec<LogEntry> {
    vec![LogEntry::PreInit, LogEntry::Blank, LogEntry::Idle]
}

#[test]
fn init_logs_pre_init_before_idle() {
    let mut sys = System::init();
    assert_eq!(sys.log, vec![LogEntry::PreInit]);
    sys.enter_idle();
    assert_eq!(sys.log, boot_log());
}

#[test]
fn cold_boot_no_input() {
    let mut sys = System::boot();
    assert_eq!(sys.log, boot_log());
    assert_eq!(sys.led, Level::High);
    assert_eq!(sys.count, 1);
    assert_eq!(sys.flag, 1);
    assert!(!sys.exti_pending);
    assert!(!sys.toggle_queued);
    // The inactive display wiring keeps its init levels.
    assert_eq!(sys.chip_select, Level::High);
    assert_eq!(sys.data_command, Level::Low);
    // A long stretch of idle: the dispatcher finds nothing, nothing moves.
    for _ in 0..10_000 {
        assert_eq!(sys.dispatch_next(), None);
    }
    assert_eq!(sys.log, boot_log());
    assert_eq!(sys.led, Level::High);
}

#[test]
fn single_press() {
    let mut sys = System::boot();
    sys.service_press();
    let mut expected = boot_log();
    expected.push(LogEntry::ExternalInterrupt(1));
    assert_eq!(sys.log, expected);
    assert_eq!(sys.count, 2);
    assert_eq!(sys.flag, 2);
    // One toggle run: the new flag is even, so the pin is driven high.
    assert_eq!(sys.led, Level::High);
    assert!(!sys.exti_pending);
    assert!(!sys.toggle_queued);
    // No task claims the display wiring: the pins stay where init put them.
    assert_eq!(sys.chip_select, Level::High);
    assert_eq!(sys.data_command, Level::Low);
}

#[test]
fn three_presses_well_separated() {
    let mut sys = System::boot();
    sys.press_many(3);
    let mut expected = boot_log();
    expected.push(LogEntry::ExternalInterrupt(1));
    expected.push(LogEntry::ExternalInterrupt(2));
    expected.push(LogEntry::ExternalInterrupt(3));
    assert_eq!(sys.log, expected);
    assert_eq!(sys.count, 4);
    assert_eq!(sys.flag, 4);
    // Three toggle runs: the flag ends at 4, even, so the pin is high.
    assert_eq!(sys.led, Level::High);
}

#[test]
fn burst_of_ten_presses() {
    let mut sys = System::boot();
    // Ten edges in quick succession, each latched and serviced: the
    // dispatcher still runs the button task once per edge and logs the
    // counters 1..10 in order.
    for _ in 0..10 {
        sys.on_edge();
        assert_eq!(sys.dispatch_next(), Some(Task::Button));
        assert_eq!(sys.dispatch_next(), Some(Task::Toggle));
    }
    let mut expected = boot_log();
    for n in 1..=10 {
        expected.push(LogEntry::ExternalInterrupt(n));
    }
    assert_eq!(sys.log, expected);
    assert_eq!(sys.count, 11);
    // Ten toggle runs: at least one and at most one per edge.
    assert_eq!(sys.flag, 11);
}

#[test]
fn edge_during_toggle() {
    let mut sys = System::boot();
    // A toggle run is already in flight when the edge arrives. Both tasks
    // sit at one priority, so the interrupt cannot preempt the critical
    // section: the toggle completes, then the button task runs, logs
    // counter 1 and requests another toggle, which runs last.
    assert!(sys.spawn_toggle());
    sys.on_edge();
    assert_eq!(sys.dispatch_next(), Some(Task::Toggle));
    assert_eq!(sys.dispatch_next(), Some(Task::Button));
    assert_eq!(sys.dispatch_next(), Some(Task::Toggle));
    assert_eq!(sys.dispatch_next(), None);
    let mut expected = boot_log();
    expected.push(LogEntry::ExternalInterrupt(1));
    assert_eq!(sys.log, expected);
    // Two toggle runs in all: the flag ends odd and the pin low.
    assert_eq!(sys.flag, 3);
    assert_eq!(sys.led, Level::Low);
}
