//! Concrete checks of the system-wide laws: counter monotonicity, toggle
//! bounds and coalescing, the parity contract, the pending-bit hygiene of
//! the button task, and serialisation across schedules.

use button_led::machine::System;
use button_led::model::{Level, LogEntry, Task};

#[test]
fn counter_lines_in_order() {
    let mut sys = System::boot();
    sys.press_many(5);
    assert_eq!(sys.log.len(), 8);
    for n in 1..=5u32 {
        assert_eq!(sys.log[2 + n as usize], LogEntry::ExternalInterrupt(n));
    }
    assert_eq!(sys.count, 6);
}

#[test]
fn spawn_coalesces_when_queued() {
    let mut sys = System::boot();
    // Two edges are serviced by the button task before the toggle task
    // gets to run: the second spawn request finds the queue full and is
    // dropped, so the two events share one toggle run.
    sys.on_edge();
    sys.button_event();
    assert!(sys.toggle_queued);
    sys.on_edge();
    sys.button_event();
    assert!(sys.toggle_queued);
    assert_eq!(sys.count, 3);
    assert_eq!(sys.flag, 1);
    assert_eq!(sys.dispatch_next(), Some(Task::Toggle));
    assert_eq!(sys.dispatch_next(), None);
    // Both events were logged; the LED was toggled once — at least one
    // toggle, and no more than the number of edges.
    assert_eq!(sys.log[3], LogEntry::ExternalInterrupt(1));
    assert_eq!(sys.log[4], LogEntry::ExternalInterrupt(2));
    assert_eq!(sys.flag, 2);
}

#[test]
fn parity_after_k_runs() {
    for k in 1..=6u32 {
        let mut sys = System::boot();
        sys.press_many(k);
        let expected = if k % 2 == 1 { Level::High } else { Level::Low };
        assert_eq!(sys.led, expected);
        assert_eq!(sys.flag, k + 1);
    }
}

#[test]
fn pending_bit_cleared_on_return() {
    let mut sys = System::boot();
    sys.on_edge();
    assert!(sys.exti_pending);
    sys.button_event();
    assert!(!sys.exti_pending);
    // With the bit clear the vector cannot re-fire: the next dispatch runs
    // the requested toggle, not the button task again.
    assert_eq!(sys.dispatch_next(), Some(Task::Toggle));
    assert_eq!(sys.dispatch_next(), None);
}

#[test]
fn edge_while_pending_is_absorbed() {
    let mut sys = System::boot();
    sys.on_edge();
    sys.on_edge();
    assert!(sys.exti_pending);
    assert_eq!(sys.dispatch_next(), Some(Task::Button));
    assert_eq!(sys.dispatch_next(), Some(Task::Toggle));
    assert_eq!(sys.dispatch_next(), None);
    // The latch holds one edge: the second was absorbed before service.
    assert_eq!(sys.count, 2);
    assert_eq!(sys.log.len(), 4);
}

#[test]
fn schedules_with_equal_toggles_agree_on_led() {
    // Two presses, fully serviced one after the other.
    let mut a = System::boot();
    a.press_many(2);

    // Two presses with the second edge arriving while the first toggle is
    // still queued: the serialised order differs, the toggle count does
    // not, and the LED ends at the same level.
    let mut b = System::boot();
    b.on_edge();
    assert_eq!(b.dispatch_next(), Some(Task::Button));
    b.on_edge();
    assert_eq!(b.dispatch_next(), Some(Task::Toggle));
    assert_eq!(b.dispatch_next(), Some(Task::Button));
    assert_eq!(b.dispatch_next(), Some(Task::Toggle));
    assert_eq!(b.dispatch_next(), None);

    assert_eq!(a.flag, b.flag);
    assert_eq!(a.led, b.led);
    assert_eq!(a.led, Level::Low);
}

#[test]
fn idle_stays_put_after_service() {
    let mut sys = System::boot();
    sys.press_many(4);
    let led = sys.led;
    let log_len = sys.log.len();
    for _ in 0..1_000 {
        assert_eq!(sys.dispatch_next(), None);
    }
    assert_eq!(sys.led, led);
    assert_eq!(sys.log.len(), log_len);
    assert_eq!(sys.count, 5);
}
