//! The two layers composed: hardware alarm, mux, and the process driver
//! as the client of one virtual alarm node.

use alarm_mux::alarm::{AlarmDriver, FiredCallback, Grant};
use alarm_mux::hardware_alarm::HardwareAlarm;
use alarm_mux::virtual_alarm::{MuxAlarm, VirtualMuxAlarm};

#[test]
fn full_stack_round_trip() {
    let mut mux = MuxAlarm::new(HardwareAlarm::new(32_768));
    let node = mux.set_alarm_client(VirtualMuxAlarm::new(), 0);
    let mut d = AlarmDriver::new(HardwareAlarm::new(32_768), Grant::new(2));
    // A process subscribes and arms an alarm 100 ticks out.
    d.alarm.set_now(mux.now());
    d.subscribe(0, Some(99), 0);
    d.command(5, 100, 0, 0);
    // The harness mirrors the driver's arming onto its mux node; the
    // first armed node arms the hardware directly.
    mux.set_alarm(node, d.alarm.reference, d.alarm.dt);
    assert_eq!((mux.alarm.armed, mux.alarm.reference, mux.alarm.dt), (true, 0, 100));
    // The counter reaches the deadline and the hardware fires.
    mux.alarm.set_now(100);
    let (now, fired) = mux.begin_firing();
    assert_eq!(now, 100);
    assert_eq!(fired, vec![node]);
    // The fired node's client is the driver: deliver its notification.
    assert_eq!(mux.get_client(node), Some(0));
    d.alarm.set_now(now);
    let (scheduled, redeliver) = d.alarm();
    assert_eq!(
        scheduled,
        vec![FiredCallback { callback: 99, now: 100, expiration: 100 }]
    );
    assert!(!redeliver);
    assert!(!d.alarm.armed);
    assert_eq!(d.num_armed, 0);
    // Nothing is armed any more: mirror the disarm and close the pass.
    let _ = mux.disarm(node);
    mux.finish_firing();
    assert!(!mux.alarm.armed);
    assert_eq!(mux.enabled, 0);
}
