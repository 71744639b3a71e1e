//! General-purpose I/O pins of an MSP432-family chip.
//!
//! On the chip, the eight pins of a half-port share one memory-mapped
//! register block of one byte per register. This module models the part
//! of that block the pin driver reads and writes as plain bytes carried
//! by each [`Pin`]; the unverified harness that talks to the real block
//! applies these bytes to it. Every operation is a bit manipulation at
//! the pin's position within its half-port byte.

use vstd::prelude::*;

verus! {

use crate::gpio::{Configuration, FloatingState};

/// The half-port GPIO registers this driver reads and writes.
#[derive(Clone, Copy, Debug, PartialEq, Eq, Structural)]
pub struct GpioRegisters {
    /// Input register: the level each pin reads.
    pub input: u8,
    /// Output register: the level each output pin drives; with the
    /// resistor enabled it selects pull-up (1) or pull-down (0) instead.
    pub out: u8,
    /// Direction register: 1 drives the pin as an output.
    pub dir: u8,
    /// Resistor-enable register: 1 connects the pull resistor.
    pub ren: u8,
    /// Function-select register 0; together with function-select 1 it
    /// chooses GPIO, primary, secondary or tertiary module function.
    pub sel0: u8,
    /// Function-select register 1.
    pub sel1: u8,
}

/// The 88 pins: ten numbered ports and port J, eight pins each.
#[allow(non_camel_case_types)]
#[derive(Clone, Copy, Debug)]
pub enum PinNr {
    P01_0, P01_1, P01_2, P01_3, P01_4, P01_5, P01_6, P01_7,
    P02_0, P02_1, P02_2, P02_3, P02_4, P02_5, P02_6, P02_7,
    P03_0, P03_1, P03_2, P03_3, P03_4, P03_5, P03_6, P03_7,
    P04_0, P04_1, P04_2, P04_3, P04_4, P04_5, P04_6, P04_7,
    P05_0, P05_1, P05_2, P05_3, P05_4, P05_5, P05_6, P05_7,
    P06_0, P06_1, P06_2, P06_3, P06_4, P06_5, P06_6, P06_7,
    P07_0, P07_1, P07_2, P07_3, P07_4, P07_5, P07_6, P07_7,
    P08_0, P08_1, P08_2, P08_3, P08_4, P08_5, P08_6, P08_7,
    P09_0, P09_1, P09_2, P09_3, P09_4, P09_5, P09_6, P09_7,
    P10_0, P10_1, P10_2, P10_3, P10_4, P10_5, P10_6, P10_7,
    PJ_0, PJ_1, PJ_2, PJ_3, PJ_4, PJ_5, PJ_6, PJ_7,
}

/// Bit position of `nr` within its half-port register byte.
pub open spec fn spec_pin_bit(nr: PinNr) -> u8 {
    match nr {
        PinNr::P01_0 => 0u8,
        PinNr::P01_1 => 1u8,
        PinNr::P01_2 => 2u8,
        PinNr::P01_3 => 3u8,
        PinNr::P01_4 => 4u8,
        PinNr::P01_5 => 5u8,
        PinNr::P01_6 => 6u8,
        PinNr::P01_7 => 7u8,
        PinNr::P02_0 => 0u8,
        PinNr::P02_1 => 1u8,
        PinNr::P02_2 => 2u8,
        PinNr::P02_3 => 3u8,
        PinNr::P02_4 => 4u8,
        PinNr::P02_5 => 5u8,
        PinNr::P02_6 => 6u8,
        PinNr::P02_7 => 7u8,
        PinNr::P03_0 => 0u8,
        PinNr::P03_1 => 1u8,
        PinNr::P03_2 => 2u8,
        PinNr::P03_3 => 3u8,
        PinNr::P03_4 => 4u8,
        PinNr::P03_5 => 5u8,
        PinNr::P03_6 => 6u8,
        PinNr::P03_7 => 7u8,
        PinNr::P04_0 => 0u8,
        PinNr::P04_1 => 1u8,
        PinNr::P04_2 => 2u8,
        PinNr::P04_3 => 3u8,
        PinNr::P04_4 => 4u8,
        PinNr::P04_5 => 5u8,
        PinNr::P04_6 => 6u8,
        PinNr::P04_7 => 7u8,
        PinNr::P05_0 => 0u8,
        PinNr::P05_1 => 1u8,
        PinNr::P05_2 => 2u8,
        PinNr::P05_3 => 3u8,
        PinNr::P05_4 => 4u8,
        PinNr::P05_5 => 5u8,
        PinNr::P05_6 => 6u8,
        PinNr::P05_7 => 7u8,
        PinNr::P06_0 => 0u8,
        PinNr::P06_1 => 1u8,
        PinNr::P06_2 => 2u8,
        PinNr::P06_3 => 3u8,
        PinNr::P06_4 => 4u8,
        PinNr::P06_5 => 5u8,
        PinNr::P06_6 => 6u8,
        PinNr::P06_7 => 7u8,
        PinNr::P07_0 => 0u8,
        PinNr::P07_1 => 1u8,
        PinNr::P07_2 => 2u8,
        PinNr::P07_3 => 3u8,
        PinNr::P07_4 => 4u8,
        PinNr::P07_5 => 5u8,
        PinNr::P07_6 => 6u8,
        PinNr::P07_7 => 7u8,
        PinNr::P08_0 => 0u8,
        PinNr::P08_1 => 1u8,
        PinNr::P08_2 => 2u8,
        PinNr::P08_3 => 3u8,
        PinNr::P08_4 => 4u8,
        PinNr::P08_5 => 5u8,
        PinNr::P08_6 => 6u8,
        PinNr::P08_7 => 7u8,
        PinNr::P09_0 => 0u8,
        PinNr::P09_1 => 1u8,
        PinNr::P09_2 => 2u8,
        PinNr::P09_3 => 3u8,
        PinNr::P09_4 => 4u8,
        PinNr::P09_5 => 5u8,
        PinNr::P09_6 => 6u8,
        PinNr::P09_7 => 7u8,
        PinNr::P10_0 => 0u8,
        PinNr::P10_1 => 1u8,
        PinNr::P10_2 => 2u8,
        PinNr::P10_3 => 3u8,
        PinNr::P10_4 => 4u8,
        PinNr::P10_5 => 5u8,
        PinNr::P10_6 => 6u8,
        PinNr::P10_7 => 7u8,
        PinNr::PJ_0 => 0u8,
        PinNr::PJ_1 => 1u8,
        PinNr::PJ_2 => 2u8,
        PinNr::PJ_3 => 3u8,
        PinNr::PJ_4 => 4u8,
        PinNr::PJ_5 => 5u8,
        PinNr::PJ_6 => 6u8,
        PinNr::PJ_7 => 7u8,
    }
}

/// Every pin's bit position lies below eight.
pub proof fn lemma_pin_bit_range(nr: PinNr)
    ensures
        spec_pin_bit(nr) < 8,
{
}

/// Bit position of `nr` within its half-port register byte.
fn pin_bit(nr: PinNr) -> (b: u8)
    ensures
        b == spec_pin_bit(nr),
{
    match nr {
            PinNr::P01_0 => 0,
            PinNr::P01_1 => 1,
            PinNr::P01_2 => 2,
            PinNr::P01_3 => 3,
            PinNr::P01_4 => 4,
            PinNr::P01_5 => 5,
            PinNr::P01_6 => 6,
            PinNr::P01_7 => 7,
            PinNr::P02_0 => 0,
            PinNr::P02_1 => 1,
            PinNr::P02_2 => 2,
            PinNr::P02_3 => 3,
            PinNr::P02_4 => 4,
            PinNr::P02_5 => 5,
            PinNr::P02_6 => 6,
            PinNr::P02_7 => 7,
            PinNr::P03_0 => 0,
            PinNr::P03_1 => 1,
            PinNr::P03_2 => 2,
            PinNr::P03_3 => 3,
            PinNr::P03_4 => 4,
            PinNr::P03_5 => 5,
            PinNr::P03_6 => 6,
            PinNr::P03_7 => 7,
            PinNr::P04_0 => 0,
            PinNr::P04_1 => 1,
            PinNr::P04_2 => 2,
            PinNr::P04_3 => 3,
            PinNr::P04_4 => 4,
            PinNr::P04_5 => 5,
            PinNr::P04_6 => 6,
            PinNr::P04_7 => 7,
            PinNr::P05_0 => 0,
            PinNr::P05_1 => 1,
            PinNr::P05_2 => 2,
            PinNr::P05_3 => 3,
            PinNr::P05_4 => 4,
            PinNr::P05_5 => 5,
            PinNr::P05_6 => 6,
            PinNr::P05_7 => 7,
            PinNr::P06_0 => 0,
            PinNr::P06_1 => 1,
            PinNr::P06_2 => 2,
            PinNr::P06_3 => 3,
            PinNr::P06_4 => 4,
            PinNr::P06_5 => 5,
            PinNr::P06_6 => 6,
            PinNr::P06_7 => 7,
            PinNr::P07_0 => 0,
            PinNr::P07_1 => 1,
            PinNr::P07_2 => 2,
            PinNr::P07_3 => 3,
            PinNr::P07_4 => 4,
            PinNr::P07_5 => 5,
            PinNr::P07_6 => 6,
            PinNr::P07_7 => 7,
            PinNr::P08_0 => 0,
            PinNr::P08_1 => 1,
            PinNr::P08_2 => 2,
            PinNr::P08_3 => 3,
            PinNr::P08_4 => 4,
            PinNr::P08_5 => 5,
            PinNr::P08_6 => 6,
            PinNr::P08_7 => 7,
            PinNr::P09_0 => 0,
            PinNr::P09_1 => 1,
            PinNr::P09_2 => 2,
            PinNr::P09_3 => 3,
            PinNr::P09_4 => 4,
            PinNr::P09_5 => 5,
            PinNr::P09_6 => 6,
            PinNr::P09_7 => 7,
            PinNr::P10_0 => 0,
            PinNr::P10_1 => 1,
            PinNr::P10_2 => 2,
            PinNr::P10_3 => 3,
            PinNr::P10_4 => 4,
            PinNr::P10_5 => 5,
            PinNr::P10_6 => 6,
            PinNr::P10_7 => 7,
            PinNr::PJ_0 => 0,
            PinNr::PJ_1 => 1,
            PinNr::PJ_2 => 2,
            PinNr::PJ_3 => 3,
            PinNr::PJ_4 => 4,
            PinNr::PJ_5 => 5,
            PinNr::PJ_6 => 6,
            PinNr::PJ_7 => 7,
    }
}

/// The module function a pin can be switched to: plain GPIO or one of
/// three chip-defined special functions.
#[derive(Clone, Copy, Debug, PartialEq, Eq, Structural)]
enum ModuleFunction {
    Gpio,
    Primary,
    Secondary,
    Tertiary,
}

/// One GPIO pin: its bit position and the model of its half-port
/// registers.
pub struct Pin {
    /// Bit position of this pin within its half-port register bytes.
    pub pin: u8,
    /// This pin's half-port registers.
    pub registers: GpioRegisters,
}

impl Pin {
    /// A pin's bit position always lies below eight.
    pub open spec fn wf(self) -> bool {
        self.pin < 8
    }

    /// The bit this pin occupies in each register byte.
    pub open spec fn spec_mask(self) -> u8 {
        1u8 << self.pin
    }

    /// The configuration the function-select and direction bits encode:
    /// a special function when either select bit is set, else output or
    /// input by the direction bit.
    pub open spec fn spec_configuration(self) -> Configuration {
        if (self.registers.sel0 & self.spec_mask()) > 0 || (self.registers.sel1 & self.spec_mask())
            > 0 {
            Configuration::Function
        } else if (self.registers.dir & self.spec_mask()) > 0 {
            Configuration::Output
        } else {
            Configuration::Input
        }
    }

    /// The resistor selection the resistor-enable and output bits encode.
    pub open spec fn spec_floating_state(self) -> FloatingState {
        if (self.registers.ren & self.spec_mask()) > 0 {
            if (self.registers.out & self.spec_mask()) > 0 {
                FloatingState::PullUp
            } else {
                FloatingState::PullDown
            }
        } else {
            FloatingState::PullNone
        }
    }

    /// The pin `nr`, with its register model cleared. On the chip the
    /// pin number also selects the register block; the model keeps only
    /// the bit position within it.
    pub fn new(nr: PinNr) -> (r: Pin)
        ensures
            r.wf(),
            r.pin == spec_pin_bit(nr),
            r.registers == (GpioRegisters { input: 0u8, out: 0u8, dir: 0u8, ren: 0u8, sel0: 0u8, sel1: 0u8 }),
    {
        proof {
            lemma_pin_bit_range(nr);
        }
        Pin {
            pin: pin_bit(nr),
            registers: GpioRegisters { input: 0, out: 0, dir: 0, ren: 0, sel0: 0, sel1: 0 },
        }
    }

    /// Switch the pin to `mode` by writing its bit in the two
    /// function-select registers.
    fn enable_module_function(&mut self, mode: ModuleFunction)
        requires
            old(self).wf(),
        ensures
            final(self).wf(),
            final(self).pin == old(self).pin,
            ({
                let mask = old(self).spec_mask();
                let regs = old(self).registers;
                final(self).registers == match mode {
                    ModuleFunction::Gpio => GpioRegisters {
                        sel0: regs.sel0 & !mask,
                        sel1: regs.sel1 & !mask,
                        ..regs
                    },
                    ModuleFunction::Primary => GpioRegisters {
                        sel0: regs.sel0 | mask,
                        sel1: regs.sel1 & !mask,
                        ..regs
                    },
                    ModuleFunction::Secondary => GpioRegisters {
                        sel0: regs.sel0 & !mask,
                        sel1: regs.sel1 | mask,
                        ..regs
                    },
                    ModuleFunction::Tertiary => GpioRegisters {
                        sel0: regs.sel0 | mask,
                        sel1: regs.sel1 | mask,
                        ..regs
                    },
                }
            }),
    {
        let mut sel0 = self.registers.sel0;
        let mut sel1 = self.registers.sel1;
        match mode {
            ModuleFunction::Gpio => {
                sel0 = sel0 & !(1u8 << self.pin);
                sel1 = sel1 & !(1u8 << self.pin);
            },
            ModuleFunction::Primary => {
                sel0 = sel0 | (1u8 << self.pin);
                sel1 = sel1 & !(1u8 << self.pin);
            },
            ModuleFunction::Secondary => {
                sel0 = sel0 & !(1u8 << self.pin);
                sel1 = sel1 | (1u8 << self.pin);
            },
            ModuleFunction::Tertiary => {
                sel0 = sel0 | (1u8 << self.pin);
                sel1 = sel1 | (1u8 << self.pin);
            },
        }
        self.registers.sel0 = sel0;
        self.registers.sel1 = sel1;
    }

    /// Switch the pin to its primary module function.
    pub fn enable_primary_function(&mut self)
        requires
            old(self).wf(),
        ensures
            final(self).wf(),
            final(self).pin == old(self).pin,
            final(self).registers == (GpioRegisters {
                sel0: old(self).registers.sel0 | old(self).spec_mask(),
                sel1: old(self).registers.sel1 & !old(self).spec_mask(),
                ..old(self).registers
            }),
    {
        self.enable_module_function(ModuleFunction::Primary);
    }

    /// Switch the pin to its secondary module function.
    pub fn enable_secondary_function(&mut self)
        requires
            old(self).wf(),
        ensures
            final(self).wf(),
            final(self).pin == old(self).pin,
            final(self).registers == (GpioRegisters {
                sel0: old(self).registers.sel0 & !old(self).spec_mask(),
                sel1: old(self).registers.sel1 | old(self).spec_mask(),
                ..old(self).registers
            }),
    {
        self.enable_module_function(ModuleFunction::Secondary);
    }

    /// Switch the pin to its tertiary module function.
    pub fn enable_tertiary_function(&mut self)
        requires
            old(self).wf(),
        ensures
            final(self).wf(),
            final(self).pin == old(self).pin,
            final(self).registers == (GpioRegisters {
                sel0: old(self).registers.sel0 | old(self).spec_mask(),
                sel1: old(self).registers.sel1 | old(self).spec_mask(),
                ..old(self).registers
            }),
    {
        self.enable_module_function(ModuleFunction::Tertiary);
    }

    /// The pin's current input level.
    pub fn read(&self) -> (r: bool)
        requires
            self.wf(),
        ensures
            r == ((self.registers.input & self.spec_mask()) > 0),
    {
        (self.registers.input & (1u8 << self.pin)) > 0
    }

    /// Drive the pin high.
    pub fn set(&mut self)
        requires
            old(self).wf(),
        ensures
            final(self).wf(),
            final(self).pin == old(self).pin,
            final(self).registers == (GpioRegisters {
                out: old(self).registers.out | old(self).spec_mask(),
                ..old(self).registers
            }),
    {
        let mut val = self.registers.out;
        val = val | (1u8 << self.pin);
        self.registers.out = val;
    }

    /// Drive the pin low.
    pub fn clear(&mut self)
        requires
            old(self).wf(),
        ensures
            final(self).wf(),
            final(self).pin == old(self).pin,
            final(self).registers == (GpioRegisters {
                out: old(self).registers.out & !old(self).spec_mask(),
                ..old(self).registers
            }),
    {
        let mut val = self.registers.out;
        val = val & !(1u8 << self.pin);
        self.registers.out = val;
    }

    /// Invert the pin's driven level and report the new one: high exactly
    /// when the pin drove low before.
    pub fn toggle(&mut self) -> (r: bool)
        requires
            old(self).wf(),
        ensures
            final(self).wf(),
            final(self).pin == old(self).pin,
            final(self).registers == (GpioRegisters {
                out: old(self).registers.out ^ old(self).spec_mask(),
                ..old(self).registers
            }),
            r == ((old(self).registers.out & old(self).spec_mask()) == 0),
    {
        let mut val = self.registers.out;
        let mask = 1u8 << self.pin;
        val = val ^ mask;
        self.registers.out = val;
        let r = (val & mask) > 0;
        proof {
            let out0 = old(self).registers.out;
            let p = old(self).pin;
            assert(p < 8 ==> (((out0 ^ (1u8 << p)) & (1u8 << p) > 0) == (out0 & (1u8 << p) == 0)))
                by (bit_vector);
        }
        r
    }

    /// The pin's current configuration.
    pub fn configuration(&self) -> (r: Configuration)
        requires
            self.wf(),
        ensures
            r == self.spec_configuration(),
    {
        let mask = 1u8 << self.pin;
        let dir = self.registers.dir;
        let sel0_set: u8 = if (self.registers.sel0 & mask) > 0 {
            1
        } else {
            0
        };
        let sel1_set: u8 = if (self.registers.sel1 & mask) > 0 {
            1
        } else {
            0
        };
        let sel = sel0_set | (sel1_set << 1u8);
        proof {
            let a = sel0_set;
            let b = sel1_set;
            assert(a <= 1 && b <= 1 ==> ((a | (b << 1u8)) > 0) == (a == 1 || b == 1))
                by (bit_vector);
        }
        if sel > 0 {
            Configuration::Function
        } else {
            if (dir & mask) > 0 {
                Configuration::Output
            } else {
                Configuration::Input
            }
        }
    }

    /// Make the pin a plain GPIO output.
    pub fn make_output(&mut self) -> (r: Configuration)
        requires
            old(self).wf(),
        ensures
            final(self).wf(),
            final(self).pin == old(self).pin,
            final(self).registers == (GpioRegisters {
                sel0: old(self).registers.sel0 & !old(self).spec_mask(),
                sel1: old(self).registers.sel1 & !old(self).spec_mask(),
                dir: old(self).registers.dir | old(self).spec_mask(),
                ..old(self).registers
            }),
            r == Configuration::Output,
    {
        self.enable_module_function(ModuleFunction::Gpio);
        let mut val = self.registers.dir;
        val = val | (1u8 << self.pin);
        self.registers.dir = val;
        Configuration::Output
    }

    /// Stop driving the pin: it falls back to being an input.
    pub fn disable_output(&mut self) -> (r: Configuration)
        requires
            old(self).wf(),
        ensures
            final(self).wf(),
            final(self).pin == old(self).pin,
            final(self).registers == (GpioRegisters {
                sel0: old(self).registers.sel0 & !old(self).spec_mask(),
                sel1: old(self).registers.sel1 & !old(self).spec_mask(),
                dir: old(self).registers.dir & !old(self).spec_mask(),
                ..old(self).registers
            }),
            r == Configuration::Input,
    {
        self.make_input()
    }

    /// Make the pin a plain GPIO input.
    pub fn make_input(&mut self) -> (r: Configuration)
        requires
            old(self).wf(),
        ensures
            final(self).wf(),
            final(self).pin == old(self).pin,
            final(self).registers == (GpioRegisters {
                sel0: old(self).registers.sel0 & !old(self).spec_mask(),
                sel1: old(self).registers.sel1 & !old(self).spec_mask(),
                dir: old(self).registers.dir & !old(self).spec_mask(),
                ..old(self).registers
            }),
            r == Configuration::Input,
    {
        self.enable_module_function(ModuleFunction::Gpio);
        let mut val = self.registers.dir;
        val = val & !(1u8 << self.pin);
        self.registers.dir = val;
        Configuration::Input
    }

    /// The pin cannot stop being an input; report the current
    /// configuration unchanged.
    pub fn disable_input(&mut self) -> (r: Configuration)
        requires
            old(self).wf(),
        ensures
            *final(self) == *old(self),
            r == old(self).spec_configuration(),
    {
        self.configuration()
    }

    /// The chip has no low-power pin state; the nearest is an input with
    /// a pull-up resistor, which draws next to no current.
    pub fn deactivate_to_low_power(&mut self)
        requires
            old(self).wf(),
        ensures
            final(self).wf(),
            final(self).pin == old(self).pin,
            final(self).registers == (GpioRegisters {
                sel0: old(self).registers.sel0 & !old(self).spec_mask(),
                sel1: old(self).registers.sel1 & !old(self).spec_mask(),
                dir: old(self).registers.dir & !old(self).spec_mask(),
                ren: old(self).registers.ren | old(self).spec_mask(),
                out: old(self).registers.out | old(self).spec_mask(),
                ..old(self).registers
            }),
    {
        self.make_input();
        self.set_floating_state(FloatingState::PullUp);
    }

    /// Select the pin's pull resistor: connect it and choose the pull
    /// direction through the output bit, or disconnect it.
    pub fn set_floating_state(&mut self, state: FloatingState)
        requires
            old(self).wf(),
        ensures
            final(self).wf(),
            final(self).pin == old(self).pin,
            ({
                let mask = old(self).spec_mask();
                let regs = old(self).registers;
                final(self).registers == match state {
                    FloatingState::PullDown => GpioRegisters {
                        ren: regs.ren | mask,
                        out: regs.out & !mask,
                        ..regs
                    },
                    FloatingState::PullUp => GpioRegisters {
                        ren: regs.ren | mask,
                        out: regs.out | mask,
                        ..regs
                    },
                    FloatingState::PullNone => GpioRegisters { ren: regs.ren & !mask, ..regs },
                }
            }),
    {
        let mut ren = self.registers.ren;
        let mut out = self.registers.out;
        match state {
            FloatingState::PullDown => {
                ren = ren | (1u8 << self.pin);
                out = out & !(1u8 << self.pin);
            },
            FloatingState::PullUp => {
                ren = ren | (1u8 << self.pin);
                out = out | (1u8 << self.pin);
            },
            FloatingState::PullNone => {
                ren = ren & !(1u8 << self.pin);
            },
        }
        self.registers.ren = ren;
        self.registers.out = out;
    }

    /// The pin's current resistor selection.
    pub fn floating_state(&self) -> (r: FloatingState)
        requires
            self.wf(),
        ensures
            r == self.spec_floating_state(),
    {
        let ren = self.registers.ren;
        let out = self.registers.out;
        if (ren & (1u8 << self.pin)) > 0 {
            if (out & (1u8 << self.pin)) > 0 {
                FloatingState::PullUp
            } else {
                FloatingState::PullDown
            }
        } else {
            FloatingState::PullNone
        }
    }
}

} // verus!
