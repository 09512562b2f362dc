//! The declared task table with its resource ceilings, and the monotonic
//! clock built from the wrapping cycle counter.

use button_led::clock::{ticks_of_millis, Monotonic, RAW_PERIOD, SYSCLK_HZ, TICKS_PER_MS};
use button_led::registry::{ceiling, contains_id, firmware_tasks, PRIO_EVENT, PRIO_IDLE, RES_BUTTON, RES_LED};

#[test]
fn declared_table_shape() {
    let table = firmware_tasks();
    assert_eq!(table.len(), 3);
    assert_eq!(table[0].priority, PRIO_EVENT);
    assert_eq!(table[0].claims, vec![RES_BUTTON, RES_LED]);
    assert_eq!(table[1].priority, PRIO_EVENT);
    assert_eq!(table[1].claims, vec![RES_LED]);
    assert_eq!(table[2].priority, PRIO_IDLE);
    assert!(table[2].claims.is_empty());
}

#[test]
fn led_ceiling_is_event_priority() {
    let table = firmware_tasks();
    assert_eq!(ceiling(&table, RES_LED), PRIO_EVENT);
    assert_eq!(ceiling(&table, RES_BUTTON), PRIO_EVENT);
    // A resource nobody claims keeps the idle ceiling.
    assert_eq!(ceiling(&table, 7), PRIO_IDLE);
}

#[test]
fn claim_lookup() {
    let table = firmware_tasks();
    assert!(contains_id(&table[0].claims, RES_LED));
    assert!(contains_id(&table[0].claims, RES_BUTTON));
    assert!(contains_id(&table[1].claims, RES_LED));
    assert!(!contains_id(&table[1].claims, RES_BUTTON));
    assert!(!contains_id(&table[2].claims, RES_LED));
}

#[test]
fn clock_widens_across_wrap() {
    let mut clock = Monotonic::start(4_000_000_000);
    assert_eq!(clock.now(), 4_000_000_000);
    // The raw counter wrapped: the widened instant keeps growing.
    let after_wrap = clock.sample(5);
    assert_eq!(after_wrap, RAW_PERIOD + 5);
    assert!(after_wrap > 4_000_000_000);
    let later = clock.sample(4_000);
    assert_eq!(later, RAW_PERIOD + 4_000);
    assert_eq!(clock.now(), later);
}

#[test]
fn clock_is_monotonic_without_wrap() {
    let mut clock = Monotonic::start(0);
    let mut previous = clock.now();
    for raw in [1u32, 80_000, 9_000_000, 4_294_967_295] {
        let now = clock.sample(raw);
        assert!(now >= previous);
        assert_eq!(now, u64::from(raw));
        previous = now;
    }
}

#[test]
fn spawn_after_durations() {
    // 100 ms between well-separated presses, at 12.5 ns a tick.
    assert_eq!(ticks_of_millis(100), 8_000_000);
    // 3 s, the commented re-spawn period of the toggle task.
    assert_eq!(ticks_of_millis(3_000), 240_000_000);
    assert_eq!(ticks_of_millis(0), 0);
    assert_eq!(u64::from(SYSCLK_HZ), 1_000 * u64::from(TICKS_PER_MS));
}
