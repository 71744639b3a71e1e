//! The syscall-facing alarm driver.

use alarm_mux::alarm::{AlarmDriver, Expiration, FiredCallback, Grant};
use alarm_mux::hardware_alarm::HardwareAlarm;
use alarm_mux::return_code::ReturnCode;

const FREQ: u32 = 32_768;

fn driver(capacity: usize) -> AlarmDriver {
    AlarmDriver::new(HardwareAlarm::new(FREQ), Grant::new(capacity))
}

fn expiration_of(d: &AlarmDriver, process: usize) -> Expiration {
    d.app_alarms.slots[process].unwrap().expiration
}

#[test]
fn probe_frequency_and_time() {
    let mut d = driver(2);
    assert_eq!(d.command(0, 0, 0, 0), ReturnCode::SuccessWithValue(1));
    assert_eq!(d.command(1, 0, 0, 0), ReturnCode::SuccessWithValue(FREQ));
    d.alarm.set_now(4242);
    assert_eq!(d.command(2, 0, 0, 0), ReturnCode::SuccessWithValue(4242));
    assert_eq!(d.num_armed, 0);
    assert!(!d.alarm.armed);
}

#[test]
fn unknown_command_is_rejected() {
    let mut d = driver(2);
    assert_eq!(d.command(7, 1, 2, 0), ReturnCode::ENoSupport);
    assert_eq!(d.command(99, 0, 0, 0), ReturnCode::ENoSupport);
    assert_eq!(d.num_armed, 0);
    assert!(!d.alarm.armed);
}

#[test]
fn unreachable_process_record_is_reported() {
    let mut d = driver(2);
    assert_eq!(d.command(0, 0, 0, 2), ReturnCode::ENoMem);
    assert_eq!(d.command(5, 100, 0, 77), ReturnCode::ENoMem);
    assert_eq!(d.subscribe(0, Some(1), 2), ReturnCode::ENoMem);
    assert_eq!(d.num_armed, 0);
}

#[test]
fn stop_with_no_alarm_set_is_already_disabled() {
    let mut d = driver(2);
    let armed_before = d.num_armed;
    assert_eq!(d.command(3, 0, 0, 0), ReturnCode::EAlready);
    assert_eq!(d.num_armed, armed_before);
    assert!(!d.alarm.armed);
    assert_eq!(expiration_of(&d, 0), Expiration::Disabled);
}

#[test]
fn stop_after_set_disarms_and_decrements() {
    let mut d = driver(2);
    d.alarm.set_now(1000);
    d.command(5, 500, 0, 0);
    assert_eq!(d.num_armed, 1);
    assert!(d.alarm.armed);
    assert_eq!(d.command(3, 0, 0, 0), ReturnCode::Success);
    assert_eq!(d.num_armed, 0);
    assert_eq!(expiration_of(&d, 0), Expiration::Disabled);
    assert!(!d.alarm.armed);
    // A second stop is a protocol error again.
    assert_eq!(d.command(3, 0, 0, 0), ReturnCode::EAlready);
}

#[test]
fn set_absolute_derives_dt_from_now() {
    let mut d = driver(2);
    d.alarm.set_now(1000);
    assert_eq!(d.command(4, 1500, 0, 0), ReturnCode::SuccessWithValue(1500));
    assert_eq!(expiration_of(&d, 0), Expiration::Enabled(1000, 500));
    assert_eq!(d.num_armed, 1);
    assert_eq!((d.alarm.armed, d.alarm.reference, d.alarm.dt), (true, 1000, 500));
}

#[test]
fn set_relative_uses_now_as_reference() {
    let mut d = driver(2);
    d.alarm.set_now(1000);
    assert_eq!(d.command(5, 500, 0, 0), ReturnCode::SuccessWithValue(1500));
    assert_eq!(expiration_of(&d, 0), Expiration::Enabled(1000, 500));
    assert_eq!(d.next_alarm, Expiration::Enabled(1000, 500));
    assert_eq!((d.alarm.armed, d.alarm.reference, d.alarm.dt), (true, 1000, 500));
}

#[test]
fn set_with_explicit_reference() {
    let mut d = driver(2);
    assert_eq!(d.command(6, 100, 50, 0), ReturnCode::SuccessWithValue(150));
    assert_eq!(expiration_of(&d, 0), Expiration::Enabled(100, 50));
    assert_eq!(d.num_armed, 1);
}

#[test]
fn rearming_an_armed_record_keeps_the_count() {
    let mut d = driver(2);
    d.command(6, 100, 50, 0);
    assert_eq!(d.num_armed, 1);
    d.command(6, 200, 80, 0);
    assert_eq!(d.num_armed, 1);
    assert_eq!(expiration_of(&d, 0), Expiration::Enabled(200, 80));
}

#[test]
fn set_absolute_wraps_around() {
    let mut d = driver(1);
    d.alarm.set_now(0xFFFF_FFF0);
    // Target past the wrap: dt = 0x15 - 0xFFFFFFF0 wraps to 0x25.
    assert_eq!(d.command(4, 0x15, 0, 0), ReturnCode::SuccessWithValue(0x15));
    assert_eq!(expiration_of(&d, 0), Expiration::Enabled(0xFFFF_FFF0, 0x25));
}

#[test]
fn subscribe_registers_the_callback() {
    let mut d = driver(2);
    assert_eq!(d.subscribe(0, Some(7), 0), ReturnCode::Success);
    assert_eq!(d.app_alarms.slots[0].unwrap().callback, Some(7));
    // Subscribing keeps an armed expiration.
    d.command(6, 10, 20, 0);
    assert_eq!(d.subscribe(0, Some(8), 0), ReturnCode::Success);
    assert_eq!(expiration_of(&d, 0), Expiration::Enabled(10, 20));
    assert_eq!(d.app_alarms.slots[0].unwrap().callback, Some(8));
    assert_eq!(d.num_armed, 1);
}

#[test]
fn two_processes_nearest_wins_and_firing_expires_only_the_first() {
    let mut d = driver(2);
    d.alarm.set_now(1000);
    assert_eq!(d.subscribe(0, Some(10), 0), ReturnCode::Success);
    assert_eq!(d.subscribe(0, Some(11), 1), ReturnCode::Success);
    d.command(6, 1000, 500, 0);
    d.command(6, 1000, 1500, 1);
    // The recomputation selects the dt = 500 entry.
    assert_eq!(d.next_alarm, Expiration::Enabled(1000, 500));
    assert_eq!((d.alarm.armed, d.alarm.reference, d.alarm.dt), (true, 1000, 500));
    assert_eq!(d.num_armed, 2);
    // The owned alarm fires at tick 1500: only the first expires.
    d.alarm.set_now(1500);
    let (scheduled, redeliver) = d.alarm();
    assert_eq!(
        scheduled,
        vec![FiredCallback { callback: 10, now: 1500, expiration: 1500 }]
    );
    assert_eq!(expiration_of(&d, 0), Expiration::Disabled);
    assert_eq!(expiration_of(&d, 1), Expiration::Enabled(1000, 1500));
    assert_eq!(d.num_armed, 1);
    // The owned alarm is re-armed to the remaining entry, and since the
    // counter (1500) still lies inside that entry's window, the handler
    // asks for the firing event to be delivered again.
    assert_eq!(d.next_alarm, Expiration::Enabled(1000, 1500));
    assert_eq!((d.alarm.armed, d.alarm.reference, d.alarm.dt), (true, 1000, 1500));
    assert!(redeliver);
}

#[test]
fn elapsed_alarm_supersedes_a_pending_one() {
    // A record whose window no longer contains "now" must fire
    // immediately, so the recomputation picks it over a pending one —
    // whichever slot order the two arrive in.
    let mut d = driver(2);
    d.alarm.set_now(1000);
    d.command(6, 500, 100, 0); // window [500, 600): already elapsed
    d.command(6, 900, 300, 1); // window [900, 1200): pending
    assert_eq!(d.next_alarm, Expiration::Enabled(500, 100));
    let mut e = driver(2);
    e.alarm.set_now(1000);
    e.command(6, 900, 300, 0);
    e.command(6, 500, 100, 1);
    assert_eq!(e.next_alarm, Expiration::Enabled(500, 100));
}

#[test]
fn firing_with_no_survivors_disarms() {
    let mut d = driver(2);
    d.alarm.set_now(100);
    d.subscribe(0, Some(1), 0);
    d.command(5, 50, 0, 0);
    d.alarm.set_now(150);
    let (scheduled, refire) = d.alarm();
    assert_eq!(
        scheduled,
        vec![FiredCallback { callback: 1, now: 150, expiration: 150 }]
    );
    assert_eq!(d.num_armed, 0);
    assert!(!d.alarm.armed);
    assert!(!refire);
}

#[test]
fn expired_record_without_callback_schedules_nothing() {
    let mut d = driver(1);
    d.alarm.set_now(100);
    d.command(5, 50, 0, 0);
    d.alarm.set_now(200);
    let (scheduled, _) = d.alarm();
    assert!(scheduled.is_empty());
    assert_eq!(d.num_armed, 0);
}
