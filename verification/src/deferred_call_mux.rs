//! Backend that drives a deferred-call mux from an nRF52's software
//! interrupt.
//!
//! Setting the backend marks a software-triggered call as pending — on
//! the chip this raises the dedicated software interrupt — and when that
//! interrupt is serviced, the backend's one registered client is called.
//! The client is referred to by a small integer handle, and servicing
//! hands the handle back to the caller, who performs the call.

use vstd::prelude::*;

verus! {

/// The software-interrupt backend of a deferred-call mux.
pub struct Nrf52DeferredCallMuxBackend {
    /// The one registered client, if any.
    pub client: Option<u32>,
    /// Whether a deferred call has been requested and not yet serviced.
    pub call_pending: bool,
}

impl Nrf52DeferredCallMuxBackend {
    /// A backend with no client and no call pending.
    pub fn new() -> (r: Nrf52DeferredCallMuxBackend)
        ensures
            r.client == None::<u32>,
            !r.call_pending,
    {
        Nrf52DeferredCallMuxBackend { client: None, call_pending: false }
    }

    /// The software interrupt fired: the registered client — if any —
    /// is to be called by the caller.
    pub fn handle_interrupt(&self) -> (r: Option<u32>)
        ensures
            r == self.client,
    {
        self.client
    }

    /// Request a deferred call: mark it pending, which on the chip
    /// raises the software interrupt.
    pub fn set(&mut self)
        ensures
            *final(self) == (Nrf52DeferredCallMuxBackend { call_pending: true, ..*old(self) }),
    {
        self.call_pending = true;
    }

    /// Register the client called when the interrupt is serviced,
    /// replacing any earlier one.
    pub fn set_client(&mut self, client: u32)
        ensures
            *final(self) == (Nrf52DeferredCallMuxBackend { client: Some(client), ..*old(self) }),
    {
        self.client = Some(client);
    }
}

} // verus!
