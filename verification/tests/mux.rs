//! The alarm multiplexer: arming, disarming, and the firing pass.

use alarm_mux::hardware_alarm::HardwareAlarm;
use alarm_mux::return_code::ReturnCode;
use alarm_mux::virtual_alarm::{MuxAlarm, VirtualMuxAlarm};

fn mux_with_clients(count: u32) -> (MuxAlarm, Vec<usize>) {
    let mut mux = MuxAlarm::new(HardwareAlarm::new(16_000_000));
    let mut handles = Vec::new();
    let mut client = 0u32;
    while client < count {
        handles.push(mux.set_alarm_client(VirtualMuxAlarm::new(), client));
        client += 1;
    }
    (mux, handles)
}

#[test]
fn registration_resets_node_state() {
    let mut mux = MuxAlarm::new(HardwareAlarm::new(1000));
    let mut node = VirtualMuxAlarm::new();
    node.reference = 77;
    node.dt = 99;
    node.armed = true;
    let h = mux.set_alarm_client(node, 42);
    assert_eq!(h, 0);
    assert_eq!(mux.virtual_alarms[h].reference, 0);
    assert_eq!(mux.virtual_alarms[h].dt, 0);
    assert!(!mux.virtual_alarms[h].armed);
    assert_eq!(mux.virtual_alarms[h].client, Some(42));
    assert_eq!(mux.enabled, 0);
}

#[test]
fn first_alarm_arms_hardware() {
    let (mut mux, h) = mux_with_clients(2);
    assert!(!mux.alarm.armed);
    mux.set_alarm(h[0], 100, 400);
    assert_eq!(mux.enabled, 1);
    assert!(mux.is_armed(h[0]));
    assert!(mux.alarm.armed);
    assert_eq!(mux.alarm.reference, 100);
    assert_eq!(mux.alarm.dt, 400);
    assert_eq!(mux.get_alarm(h[0]), 500);
}

#[test]
fn later_deadline_keeps_hardware_sooner_rewrites() {
    let (mut mux, h) = mux_with_clients(3);
    mux.set_alarm(h[0], 0, 100);
    // A later deadline: the current hardware deadline (100) lies inside
    // [0, 200), so the hardware stays as it is.
    mux.set_alarm(h[1], 0, 200);
    assert_eq!((mux.alarm.reference, mux.alarm.dt), (0, 100));
    // A sooner deadline: 100 lies outside [0, 50), so it is re-armed.
    mux.set_alarm(h[2], 0, 50);
    assert_eq!((mux.alarm.reference, mux.alarm.dt), (0, 50));
    assert_eq!(mux.enabled, 3);
}

#[test]
fn disarm_twice_is_a_noop_the_second_time() {
    let (mut mux, h) = mux_with_clients(2);
    mux.set_alarm(h[0], 0, 100);
    mux.set_alarm(h[1], 0, 300);
    assert_eq!(mux.disarm(h[1]), ReturnCode::Success);
    assert_eq!(mux.enabled, 1);
    assert!(!mux.is_armed(h[1]));
    // The hardware still covers the remaining alarm.
    let hw_before = (mux.alarm.armed, mux.alarm.reference, mux.alarm.dt);
    assert_eq!(hw_before, (true, 0, 100));
    // Second disarm: success, and no state change at all.
    assert_eq!(mux.disarm(h[1]), ReturnCode::Success);
    assert_eq!(mux.enabled, 1);
    assert!(!mux.is_armed(h[1]));
    assert_eq!((mux.alarm.armed, mux.alarm.reference, mux.alarm.dt), hw_before);
}

#[test]
fn disarming_the_last_alarm_disarms_hardware() {
    let (mut mux, h) = mux_with_clients(1);
    mux.set_alarm(h[0], 5, 10);
    assert!(mux.alarm.armed);
    assert_eq!(mux.disarm(h[0]), ReturnCode::Success);
    assert_eq!(mux.enabled, 0);
    assert!(!mux.alarm.armed);
}

#[test]
fn firing_pass_rearms_hardware_to_true_minimum() {
    // Several alarms with assorted deadlines: after a firing pass the
    // hardware must be armed for the minimum remaining deadline.
    let (mut mux, h) = mux_with_clients(6);
    let dts = [500u32, 200, 800, 100, 900, 300];
    for (i, dt) in dts.iter().enumerate() {
        mux.set_alarm(h[i], 0, *dt);
    }
    // The incremental compare already keeps the hardware at the minimum.
    assert_eq!((mux.alarm.reference, mux.alarm.dt), (0, 100));
    // The hardware fires at its armed deadline (tick 100).
    let (now, fired) = mux.begin_firing();
    assert_eq!(now, 100);
    assert_eq!(fired, vec![h[3]]);
    assert_eq!(mux.get_client(h[3]), Some(3));
    assert!(!mux.is_armed(h[3]));
    mux.finish_firing();
    assert_eq!(mux.enabled, 5);
    assert!(mux.alarm.armed);
    assert_eq!((mux.alarm.reference, mux.alarm.dt), (0, 200));
}

#[test]
fn firing_pass_minimum_is_wraparound_aware() {
    // Deadlines past the counter wrap: distances are measured from the
    // pass's "now", not by absolute tick values.
    let (mut mux, h) = mux_with_clients(2);
    mux.set_alarm(h[0], 0xFFFF_FFF0, 0x30); // deadline 0x20
    // The sooner alarm (deadline 0x10) rewrites the hardware: the current
    // deadline 0x20 lies outside [0xFFFFFFF0, 0x10).
    mux.set_alarm(h[1], 0xFFFF_FFF0, 0x20);
    assert_eq!((mux.alarm.reference, mux.alarm.dt), (0xFFFF_FFF0, 0x20));
    let (now, fired) = mux.begin_firing();
    assert_eq!(now, 0x10);
    assert_eq!(fired, vec![h[1]]);
    mux.finish_firing();
    // The alarm across the wrap with deadline 0x20 remains and is armed.
    assert_eq!((mux.alarm.armed, mux.alarm.reference, mux.alarm.dt), (true, 0xFFFF_FFF0, 0x30));
}

#[test]
fn reentrant_set_alarm_during_firing_pass() {
    // A client that re-arms its alarm from inside the firing pass must
    // neither write the hardware mid-pass nor lose its deadline: after
    // the pass the hardware holds the true minimum including the
    // freshly set alarm.
    let (mut mux, h) = mux_with_clients(2);
    mux.set_alarm(h[0], 0, 100);
    mux.set_alarm(h[1], 0, 500);
    let (now, fired) = mux.begin_firing();
    assert_eq!(now, 100);
    assert_eq!(fired, vec![h[0]]);
    // The notified client immediately re-arms: a repeating timer.
    let hw_during = (mux.alarm.armed, mux.alarm.reference, mux.alarm.dt);
    mux.set_alarm(h[0], 100, 50);
    // No hardware write happened inside the pass.
    assert_eq!((mux.alarm.armed, mux.alarm.reference, mux.alarm.dt), hw_during);
    mux.finish_firing();
    // Minimum of deadline 150 (re-armed) and 500: the new alarm wins.
    assert_eq!((mux.alarm.armed, mux.alarm.reference, mux.alarm.dt), (true, 100, 50));
    assert_eq!(mux.enabled, 2);
}

#[test]
fn rearm_during_pass_with_nothing_armed_writes_hardware_directly() {
    let (mut mux, h) = mux_with_clients(1);
    mux.set_alarm(h[0], 0, 100);
    let (_, fired) = mux.begin_firing();
    assert_eq!(fired, vec![h[0]]);
    assert_eq!(mux.enabled, 0);
    // The notified client re-arms while the pass is open and nothing is
    // armed: as for any first alarm, the hardware is written at once.
    mux.set_alarm(h[0], 100, 60);
    assert_eq!((mux.alarm.armed, mux.alarm.reference, mux.alarm.dt), (true, 100, 60));
    mux.finish_firing();
    assert_eq!((mux.alarm.reference, mux.alarm.dt), (100, 60));
    assert_eq!(mux.enabled, 1);
}

#[test]
fn firing_pass_with_nothing_left_disarms_hardware() {
    let (mut mux, h) = mux_with_clients(2);
    mux.set_alarm(h[0], 0, 100);
    mux.set_alarm(h[1], 0, 100);
    let (_, fired) = mux.begin_firing();
    assert_eq!(fired, vec![h[0], h[1]]);
    mux.finish_firing();
    assert_eq!(mux.enabled, 0);
    assert!(!mux.alarm.armed);
}

#[test]
fn enabled_count_tracks_armed_nodes() {
    let (mut mux, h) = mux_with_clients(4);
    let mut expected = 0usize;
    for i in 0..4 {
        mux.set_alarm(h[i], 10, 20 + i as u32);
        expected += 1;
        assert_eq!(mux.enabled, expected);
        let armed = (0..4).filter(|&j| mux.is_armed(h[j])).count();
        assert_eq!(mux.enabled, armed);
    }
    // Re-arming an armed node does not change the count.
    mux.set_alarm(h[0], 10, 99);
    assert_eq!(mux.enabled, 4);
    for i in 0..4 {
        mux.disarm(h[i]);
        expected -= 1;
        assert_eq!(mux.enabled, expected);
        let armed = (0..4).filter(|&j| mux.is_armed(h[j])).count();
        assert_eq!(mux.enabled, armed);
    }
}

#[test]
fn now_and_minimum_dt_delegate_to_hardware() {
    let (mut mux, _) = mux_with_clients(1);
    mux.alarm.set_now(1234);
    assert_eq!(mux.now(), 1234);
    assert_eq!(mux.minimum_dt(), 1);
}
