//! Interface for an external interrupt controller (EIC).
//!
//! An interrupt line can be configured as asynchronous so that it keeps
//! operating during deep sleep, where the controller's clock is
//! disabled; in that mode every edge interrupt is interpreted as a level
//! interrupt and the filter is disabled.

use vstd::prelude::*;

verus! {

/// Which edge or level triggers the interrupt.
#[derive(Clone, Copy, Debug, PartialEq, Eq, Structural)]
pub enum InterruptMode {
    RisingEdge,
    FallingEdge,
    HighLevel,
    LowLevel,
}

/// Whether spurious events are filtered (de-bounced).
#[derive(Clone, Copy, Debug, PartialEq, Eq, Structural)]
pub enum FilterMode {
    FilterEnable,
    FilterDisable,
}

/// Whether the line is synchronized to the controller's clock.
#[derive(Clone, Copy, Debug, PartialEq, Eq, Structural)]
pub enum SynchronizationMode {
    Synchronous,
    Asynchronous,
}

/// An external interrupt controller.
pub trait ExternalInterruptController {
    /// The controller's identification of one interrupt line.
    type Line;

    /// Enable the external interrupt on `line` with the given trigger,
    /// filter and synchronization.
    fn line_enable(
        &mut self,
        line: &Self::Line,
        interrupt_mode: InterruptMode,
        filter_mode: FilterMode,
        synchronization_mode: SynchronizationMode,
    );

    /// Disable the external interrupt on `line`.
    fn line_disable(&mut self, line: &Self::Line);
}

/// A user of the EIC: notified when its configured interrupt occurs.
pub trait Client {
    /// Called when an interrupt occurs.
    fn fired(&mut self);
}

} // verus!
