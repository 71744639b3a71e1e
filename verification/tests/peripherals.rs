//! Power control manager and the deferred-call backend.

use alarm_mux::deferred_call_mux::Nrf52DeferredCallMuxBackend;
use alarm_mux::pcm::{Pcm, AMR_LDO_VCORE1, PCMKEY};

#[test]
fn high_power_writes_key_and_mode_request() {
    let mut pcm = Pcm::new();
    assert_eq!(pcm.ctl0, 0);
    pcm.set_high_power();
    assert_eq!(pcm.ctl0, 0x695A_0001);
    assert_eq!(pcm.ctl0, (PCMKEY << 16) | AMR_LDO_VCORE1);
}

#[test]
fn deferred_call_backend_round_trip() {
    let mut backend = Nrf52DeferredCallMuxBackend::new();
    // Without a client, servicing the interrupt calls nobody.
    assert_eq!(backend.handle_interrupt(), None);
    backend.set_client(3);
    backend.set();
    assert!(backend.call_pending);
    assert_eq!(backend.handle_interrupt(), Some(3));
    // A later client replaces the earlier one.
    backend.set_client(4);
    assert_eq!(backend.handle_interrupt(), Some(4));
}
