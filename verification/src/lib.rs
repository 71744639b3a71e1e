//! Alarm virtualization core of an embedded kernel, together with the
//! small hardware-facing modules that live beside it: one hardware
//! countdown timer is multiplexed across many virtual alarms, and a
//! syscall-facing driver multiplexes one virtual alarm across the alarm
//! requests of many processes. Tick counters use fixed-width wraparound
//! arithmetic throughout.

pub mod alarm;
pub mod deferred_call_mux;
pub mod eic;
pub mod gpio;
pub mod hardware_alarm;
pub mod msp432_gpio;
pub mod network_capabilities;
pub mod pcm;
pub mod return_code;
pub mod storage_interface;
pub mod ticks;
pub mod virtual_alarm;
