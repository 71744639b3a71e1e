//! Hardware interface layer for general-purpose I/O pins.
//!
//! The traits describe what a chip's pin driver offers — configuration,
//! output, input, and interrupts — and what a user of pin interrupts
//! implements to be notified. Clients are referred to by small integer
//! handles, chosen by the caller, in place of the static references a
//! kernel image would hold; a notification is handed back to the caller
//! as a value, for it to deliver.

use vstd::prelude::*;

verus! {

/// Pull-up or pull-down resistor configuration of a GPIO pin.
#[derive(Clone, Copy, Debug, PartialEq, Eq, Structural)]
pub enum FloatingState {
    PullUp,
    PullDown,
    PullNone,
}

/// Which edge to trigger interrupts on.
#[derive(Clone, Copy, Debug, PartialEq, Eq, Structural)]
pub enum InterruptEdge {
    RisingEdge,
    FallingEdge,
    EitherEdge,
}

/// Which state a pin is in. `Function` means the pin is configured for a
/// chip-specific special function; which one is outside the scope of this
/// layer.
#[derive(Clone, Copy, Debug, PartialEq, Eq, Structural)]
pub enum Configuration {
    LowPower,
    Input,
    Output,
    InputOutput,
    Function,
    Unknown,
}

/// Configuration side of a pin driver.
pub trait Configure {
    /// The pin's current configuration.
    fn configuration(&self) -> Configuration;

    /// Make the pin an output.
    fn make_output(&mut self) -> Configuration;

    /// Stop the pin from driving its output.
    fn disable_output(&mut self) -> Configuration;

    /// Make the pin an input.
    fn make_input(&mut self) -> Configuration;

    /// Stop the pin from reading its input.
    fn disable_input(&mut self) -> Configuration;

    /// Disable the pin and put it into its lowest power state; its
    /// enabled configuration is not stored, so re-enabling it requires
    /// reconfiguring it.
    fn deactivate_to_low_power(&mut self);

    /// Select the pull-up or pull-down resistor.
    fn set_floating_state(&mut self, state: FloatingState);

    /// The current resistor selection.
    fn floating_state(&self) -> FloatingState;
}

/// Output side of a pin driver. On a pin that is not an output or
/// input/output these calls are ignored.
pub trait Output {
    /// Set the pin high.
    fn set(&mut self);

    /// Set the pin low.
    fn clear(&mut self);

    /// Toggle the pin and report its new value.
    fn toggle(&mut self) -> bool;
}

/// Input side of a pin driver. For an output pin, reads the driven
/// output; for disabled or function pins the value is undefined.
pub trait Input {
    /// The pin's current state.
    fn read(&self) -> bool;
}

/// Interrupt side of a pin driver. Enabling interrupts does not
/// configure the pin except for interrupts; it is separately configured
/// as an input.
pub trait Interrupt: Input {
    /// Register the client notified of interrupt events.
    fn set_client(&mut self, client: u32);

    /// Enable interrupts on the chosen edge.
    fn enable_interrupts(&mut self, mode: InterruptEdge);

    /// Disable interrupts on the pin.
    fn disable_interrupts(&mut self);

    /// Whether this pin's interrupt is pending.
    fn is_pending(&self) -> bool;
}

/// A complete general-purpose pin.
pub trait Pin: Input + Output + Configure {

}

/// A complete general-purpose pin that can also interrupt.
pub trait InterruptPin: Pin + Interrupt {

}

/// A user of synchronous GPIO interrupts: notified when an interrupt
/// occurs.
pub trait Client {
    /// Called when an interrupt occurs.
    fn fired(&mut self);
}

/// A user of GPIO interrupts that handles many interrupts with one
/// function; the value passed along tells the interrupts apart.
pub trait ClientWithValue {
    /// Called when an interrupt occurs, with the value configured for it.
    fn fired(&mut self, value: u32);
}

/// Adapter that adds a distinguishing value to a pin interrupt: when the
/// pin fires, the registered client is notified with the stored value.
pub struct InterruptWithValue {
    /// The value handed to the client on every notification.
    pub value: u32,
    /// The registered client, if any.
    pub client: Option<u32>,
}

impl InterruptWithValue {
    /// An adapter with value zero and no client.
    pub fn new() -> (r: InterruptWithValue)
        ensures
            r.value == 0,
            r.client == None::<u32>,
    {
        InterruptWithValue { value: 0, client: None }
    }

    /// Store the value future notifications carry.
    pub fn set_value(&mut self, value: u32)
        ensures
            *final(self) == (InterruptWithValue { value, ..*old(self) }),
    {
        self.value = value;
    }

    /// The value notifications carry.
    pub fn value(&self) -> (r: u32)
        ensures
            r == self.value,
    {
        self.value
    }

    /// Register the client to notify, replacing any earlier one.
    pub fn set_client(&mut self, client: u32)
        ensures
            *final(self) == (InterruptWithValue { client: Some(client), ..*old(self) }),
    {
        self.client = Some(client);
    }

    /// The underlying pin fired: the notification to deliver, as the
    /// registered client together with the stored value, or nothing when
    /// no client is registered.
    pub fn fired(&self) -> (r: Option<(u32, u32)>)
        ensures
            r == match self.client {
                Some(c) => Some((c, self.value)),
                None => None::<(u32, u32)>,
            },
    {
        match self.client {
            Some(c) => Some((c, self.value)),
            None => None,
        }
    }
}

} // verus!
