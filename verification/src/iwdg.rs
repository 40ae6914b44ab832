//! Independent watchdogs.
//!
//! Each application core has a dedicated watchdog.  Once enabled, a
//! watchdog cannot be disabled anymore until reset.  Its key register takes
//! fixed command words: one starts the counter, one serves it and one
//! unlocks the prescaler and reload registers for writing.  `Iwdg` models
//! one watchdog's registers.

use vstd::prelude::*;

verus! {

/// Key register command that starts the watchdog.
pub const IWDG_KEY_START: u32 = 0x0000CCCC;

/// Key register command that serves (reloads) the watchdog.
pub const IWDG_KEY_RELOAD: u32 = 0x0000AAAA;

/// Key register command that unlocks the configuration registers.
pub const IWDG_KEY_UNLOCK: u32 = 0x00005555;

/// Prescaler divider.
#[derive(Debug, Clone, Copy, PartialEq, Eq, Structural)]
pub enum Prescaler {
    /// Division by 4.
    Div4,
    /// Division by 8.
    Div8,
    /// Division by 16.
    Div16,
    /// Division by 32.
    Div32,
    /// Division by 64.
    Div64,
    /// Division by 128.
    Div128,
    /// Division by 256.
    Div256,
    /// Division by 512.
    Div512,
    /// Division by 1024.
    Div1024,
}

/// Register field encoding of each prescaler.
pub open spec fn spec_prescaler_bits(value: Prescaler) -> u8 {
    match value {
        Prescaler::Div4 => 0b0000,
        Prescaler::Div8 => 0b0001,
        Prescaler::Div16 => 0b0010,
        Prescaler::Div32 => 0b0011,
        Prescaler::Div64 => 0b0100,
        Prescaler::Div128 => 0b0101,
        Prescaler::Div256 => 0b0110,
        Prescaler::Div512 => 0b0111,
        Prescaler::Div1024 => 0b1000,
    }
}

/// The prescaler a register field value decodes to; every field above the
/// largest defined encoding reads as the largest divider.
pub open spec fn spec_prescaler_from_bits(value: u32) -> Prescaler {
    if value == 0b0000 {
        Prescaler::Div4
    } else if value == 0b0001 {
        Prescaler::Div8
    } else if value == 0b0010 {
        Prescaler::Div16
    } else if value == 0b0011 {
        Prescaler::Div32
    } else if value == 0b0100 {
        Prescaler::Div64
    } else if value == 0b0101 {
        Prescaler::Div128
    } else if value == 0b0110 {
        Prescaler::Div256
    } else if value == 0b0111 {
        Prescaler::Div512
    } else {
        Prescaler::Div1024
    }
}

impl Prescaler {
    /// Returns the register field encoding.
    pub fn bits(&self) -> (r: u8)
        ensures
            r == spec_prescaler_bits(*self),
    {
        match self {
            Prescaler::Div4 => 0b0000,
            Prescaler::Div8 => 0b0001,
            Prescaler::Div16 => 0b0010,
            Prescaler::Div32 => 0b0011,
            Prescaler::Div64 => 0b0100,
            Prescaler::Div128 => 0b0101,
            Prescaler::Div256 => 0b0110,
            Prescaler::Div512 => 0b0111,
            Prescaler::Div1024 => 0b1000,
        }
    }

    /// Returns the prescaler a register field value decodes to.
    pub fn from_bits(value: u32) -> (r: Prescaler)
        ensures
            r == spec_prescaler_from_bits(value),
    {
        match value {
            0b0000 => Prescaler::Div4,
            0b0001 => Prescaler::Div8,
            0b0010 => Prescaler::Div16,
            0b0011 => Prescaler::Div32,
            0b0100 => Prescaler::Div64,
            0b0101 => Prescaler::Div128,
            0b0110 => Prescaler::Div256,
            0b0111 => Prescaler::Div512,
            _ => Prescaler::Div1024,
        }
    }
}

/// IWDG peripheral: a model of one watchdog's registers.  The key register
/// holds the last command word written; the prescaler and reload registers
/// keep their reset values until a configuration write.
#[derive(Debug, Clone, Copy, PartialEq, Eq, Structural)]
pub struct Iwdg {
    /// Last command written to the key register.
    pub kr: u32,
    /// Prescaler register field.
    pub pr: u32,
    /// Reload register value.
    pub rlr: u16,
    /// The watchdog was started and runs until reset.
    pub started: bool,
}

impl Iwdg {
    /// Returns the peripheral instance in its reset state: not started,
    /// smallest prescaler, largest reload value.
    pub fn new() -> (r: Self)
        ensures
            r == (Iwdg { kr: 0, pr: 0, rlr: 0xFFF, started: false }),
    {
        Self { kr: 0, pr: 0, rlr: 0xFFF, started: false }
    }

    /// Starts the watchdog.
    pub fn start(&mut self)
        ensures
            *final(self) == (Iwdg { kr: IWDG_KEY_START, started: true, ..*old(self) }),
    {
        self.kr = IWDG_KEY_START;
        self.started = true;
    }

    /// Triggers the watchdog. Must be called periodically when it is enabled.
    pub fn trigger(&mut self)
        ensures
            *final(self) == (Iwdg { kr: IWDG_KEY_RELOAD, ..*old(self) }),
    {
        self.kr = IWDG_KEY_RELOAD;
    }

    /// Returns the clock prescaler.
    pub fn prescaler(&self) -> (r: Prescaler)
        ensures
            r == spec_prescaler_from_bits(self.pr),
    {
        Prescaler::from_bits(self.pr)
    }

    /// Sets the clock prescaler. Must be called after the watchdog is started.
    pub fn set_prescaler(&mut self, prescaler: Prescaler)
        requires
            old(self).started,
        ensures
            *final(self) == (
            Iwdg { kr: IWDG_KEY_UNLOCK, pr: spec_prescaler_bits(prescaler) as u32, ..*old(self) }),
    {
        self.kr = IWDG_KEY_UNLOCK;
        self.pr = prescaler.bits() as u32;
    }

    /// Returns the reload value.
    pub fn reload_value(&self) -> (r: u16)
        ensures
            r == self.rlr,
    {
        self.rlr
    }

    /// Sets the reload value. Must be called after the watchdog is started.
    pub fn set_reload_value(&mut self, reload: u16)
        requires
            old(self).started,
        ensures
            *final(self) == (Iwdg { kr: IWDG_KEY_UNLOCK, rlr: reload, ..*old(self) }),
    {
        self.kr = IWDG_KEY_UNLOCK;
        self.rlr = reload;
    }
}

} // verus!
