//! GPIO ports and pins.
//!
//! A port's mode, type, speed, pull and function registers pack one small
//! field per pin; `GpioRegisters` models one port's register block, and the
//! field computations are specified as exact bit replacements.

use vstd::prelude::*;

use crate::bitworker::spec_bitmask;
use crate::bitworker::spec_replace;
use crate::bitworker::BitWorker;

verus! {

/// Pin mode.
#[derive(Debug, Clone, Copy, PartialEq, Eq, Structural)]
pub enum PinMode {
    /// Input pin.
    Input,
    /// Onput pin.
    Output,
    /// Pin with alternate function.
    Alt(u8),
    /// Analog pin for use with ADC.
    Analog,
}

/// Register field encoding of each pin mode.
pub open spec fn spec_pin_mode_bits(value: PinMode) -> u8 {
    match value {
        PinMode::Input => 0b00,
        PinMode::Output => 0b01,
        PinMode::Alt(_) => 0b10,
        PinMode::Analog => 0b11,
    }
}

impl PinMode {
    /// Returns the register field encoding.
    pub fn bits(&self) -> (r: u8)
        ensures
            r == spec_pin_mode_bits(*self),
    {
        match self {
            PinMode::Input => 0b00,
            PinMode::Output => 0b01,
            PinMode::Alt(_) => 0b10,
            PinMode::Analog => 0b11,
        }
    }
}

/// Pin output type.
#[derive(Debug, Clone, Copy, PartialEq, Eq, Structural)]
pub enum OutputType {
    /// Push-pull output.
    PushPull,
    /// Open drain output.
    OpenDrain,
}

/// Register field encoding of each output type.
pub open spec fn spec_output_type_bits(value: OutputType) -> u8 {
    match value {
        OutputType::PushPull => 0b0,
        OutputType::OpenDrain => 0b1,
    }
}

impl OutputType {
    /// Returns the register field encoding.
    pub fn bits(&self) -> (r: u8)
        ensures
            r == spec_output_type_bits(*self),
    {
        match self {
            OutputType::PushPull => 0b0,
            OutputType::OpenDrain => 0b1,
        }
    }
}

/// Pin output speed.
#[derive(Debug, Clone, Copy, PartialEq, Eq, Structural)]
pub enum OutputSpeed {
    /// Low speed.
    Low,
    /// Medium speed.
    Medium,
    /// High speed.
    High,
    /// Very high speed.
    VeryHigh,
}

/// Register field encoding of each output speed.
pub open spec fn spec_output_speed_bits(value: OutputSpeed) -> u8 {
    match value {
        OutputSpeed::Low => 0b00,
        OutputSpeed::Medium => 0b01,
        OutputSpeed::High => 0b10,
        OutputSpeed::VeryHigh => 0b11,
    }
}

impl OutputSpeed {
    /// Returns the register field encoding.
    pub fn bits(&self) -> (r: u8)
        ensures
            r == spec_output_speed_bits(*self),
    {
        match self {
            OutputSpeed::Low => 0b00,
            OutputSpeed::Medium => 0b01,
            OutputSpeed::High => 0b10,
            OutputSpeed::VeryHigh => 0b11,
        }
    }
}

/// Pin pull-up/pull-down configuration.
#[derive(Debug, Clone, Copy, PartialEq, Eq, Structural)]
pub enum PullMode {
    /// No pull-up or pull-down, floating.
    Floating,
    /// Pull-up enabled.
    PullUp,
    /// Pull-down enabled.
    PullDown,
}

/// Register field encoding of each pull mode.
pub open spec fn spec_pull_mode_bits(value: PullMode) -> u8 {
    match value {
        PullMode::Floating => 0b00,
        PullMode::PullUp => 0b01,
        PullMode::PullDown => 0b10,
    }
}

impl PullMode {
    /// Returns the register field encoding.
    pub fn bits(&self) -> (r: u8)
        ensures
            r == spec_pull_mode_bits(*self),
    {
        match self {
            PullMode::Floating => 0b00,
            PullMode::PullUp => 0b01,
            PullMode::PullDown => 0b10,
        }
    }
}

/// Port letters.
#[derive(Debug, Clone, Copy, PartialEq, Eq, Structural)]
pub enum Port {
    /// Port A.
    A,
    /// Port B.
    B,
    /// Port C.
    C,
    /// Port D.
    D,
    /// Port E.
    E,
    /// Port F.
    F,
    /// Port G.
    G,
    /// Port H.
    H,
    /// Port I.
    I,
    /// Port J.
    J,
    /// Port K.
    K,
    /// Port Z.
    Z,
}

/// Model of one GPIO port's register block.
#[derive(Debug, Clone, Copy, PartialEq, Eq, Structural)]
pub struct GpioRegisters {
    /// Pin mode register, 2 bits per pin.
    pub moder: u32,
    /// Output type register, 1 bit per pin.
    pub otyper: u32,
    /// Output speed register, 2 bits per pin.
    pub ospeedr: u32,
    /// Pull-up/pull-down register, 2 bits per pin.
    pub pupdr: u32,
    /// Alternate function register of pins 0-7, 4 bits per pin.
    pub afrl: u32,
    /// Alternate function register of pins 8-15, 4 bits per pin.
    pub afrh: u32,
    /// Input data register, 1 bit per pin.
    pub idr: u32,
    /// Output data register, 1 bit per pin.
    pub odr: u32,
}

/// The output data register after a write to the bit set/reset register:
/// the low half sets output bits, the high half resets them.
pub open spec fn spec_bsrr_write(odr: u32, value: u32) -> u32 {
    (odr | (value & 0xFFFF)) & !(value >> 16)
}

impl Port {
    /// Sets a range of pins on a port simultaneously, through the port's
    /// bit set/reset register.
    /// - `regs`: The port's register block.
    /// - `start_pin`: First pin in the range.
    /// - `pin_count`: Total number of pins.
    /// - `value`: Value to write; its low half carries the set requests and
    ///   its high half, shifted by 16, the reset requests.
    pub fn set_bus_output(&mut self, regs: &mut GpioRegisters, start_pin: u8, pin_count: u8, value: u32)
        requires
            start_pin < 16,
            pin_count < 16,
        ensures
            *final(self) == *old(self),
            *final(regs) == (
            GpioRegisters {
                odr: spec_bsrr_write(
                    old(regs).odr,
                    ((value >> (start_pin as u32)) & spec_bitmask(pin_count, 0)) | ((value >> (
                    (start_pin + 16) as u32)) & spec_bitmask(pin_count, 0)),
                ),
                ..*old(regs)
            }),
    {
        let value = BitWorker::new(value);
        let value: u32 = value.subvalue(start_pin, pin_count) | value.subvalue(
            start_pin + 16,
            pin_count,
        );
        regs.odr = (regs.odr | (value & 0xFFFF)) & !(value >> 16);
    }

    /// Reads a range of pins on a port simultaneously.
    /// - `regs`: The port's register block.
    /// - `start_pin`: First pin in the range.
    /// - `pin_count`: Total number of pins.
    pub fn get_bus_input(&self, regs: &GpioRegisters, start_pin: u8, pin_count: u8) -> (r: u32)
        requires
            start_pin < 32,
            pin_count < 32,
        ensures
            r == (regs.idr >> (start_pin as u32)) & spec_bitmask(pin_count, 0),
    {
        BitWorker::new(regs.idr).subvalue(start_pin, pin_count)
    }
}

/// Bus covering several pins.
#[derive(Debug, Clone, Copy, PartialEq, Eq, Structural)]
pub struct Bus {
    /// Port of the pin.
    pub port: Port,
    /// Start pin number 0 - 15.
    pub start_pin: u8,
    /// Number of pins.
    pub pin_count: u8,
}

impl Bus {
    /// Returns a bus.
    pub fn new(port: Port, start_pin: u8, pin_count: u8) -> (r: Self)
        ensures
            r == (Bus { port, start_pin, pin_count }),
    {
        Self { port, start_pin, pin_count }
    }

    /// Writes an output value to the pins.
    pub fn set_output(&mut self, regs: &mut GpioRegisters, value: u32)
        requires
            old(self).start_pin < 16,
            old(self).pin_count < 16,
        ensures
            *final(self) == *old(self),
            *final(regs) == (
            GpioRegisters {
                odr: spec_bsrr_write(
                    old(regs).odr,
                    ((value >> (old(self).start_pin as u32)) & spec_bitmask(
                        old(self).pin_count,
                        0,
                    )) | ((value >> ((old(self).start_pin + 16) as u32)) & spec_bitmask(
                        old(self).pin_count,
                        0,
                    )),
                ),
                ..*old(regs)
            }),
    {
        let start_pin: u8 = self.start_pin;
        let pin_count: u8 = self.pin_count;
        self.port.set_bus_output(regs, start_pin, pin_count, value)
    }

    /// Reads an input value from the pins.
    pub fn get_input(&mut self, regs: &GpioRegisters) -> (r: u32)
        requires
            old(self).start_pin < 16,
            old(self).pin_count < 16,
        ensures
            *final(self) == *old(self),
            r == (regs.idr >> (old(self).start_pin as u32)) & spec_bitmask(old(self).pin_count, 0),
    {
        self.port.get_bus_input(regs, self.start_pin, self.pin_count)
    }
}

/// Pin.
#[derive(Debug, Clone, Copy, PartialEq, Eq, Structural)]
pub struct Pin {
    /// Port of the pin.
    pub port: Port,
    /// Pin number 0 - 15.
    pub pin: u8,
}

impl Pin {
    /// Returns a pin.
    pub fn new(port: Port, pin: u8) -> (r: Self)
        ensures
            r == (Pin { port, pin }),
    {
        Self { port, pin }
    }

    /// Returns a pin initialized in the desired mode.
    pub fn with_mode(port: Port, pin: u8, mode: PinMode, regs: &mut GpioRegisters) -> (r: Self)
        requires
            pin < 16,
        ensures
            r == (Pin { port, pin }),
            *final(regs) == (
            GpioRegisters {
                moder: spec_replace(
                    old(regs).moder,
                    spec_pin_mode_bits(mode) as u32,
                    (pin * 2) as u8,
                    2,
                ),
                ..*old(regs)
            }),
    {
        let mut pin = Self { port, pin };
        pin.set_mode(regs, mode);

        pin
    }

    /// Sets the pin's mode in the port's mode register.
    pub fn set_mode(&mut self, regs: &mut GpioRegisters, mode: PinMode)
        requires
            old(self).pin < 16,
        ensures
            *final(self) == *old(self),
            *final(regs) == (
            GpioRegisters {
                moder: spec_replace(
                    old(regs).moder,
                    spec_pin_mode_bits(mode) as u32,
                    (old(self).pin * 2) as u8,
                    2,
                ),
                ..*old(regs)
            }),
    {
        regs.moder = modr(regs.moder, self.pin, mode);
    }

    /// Sets the pin's output type in the port's type register.
    pub fn set_output_type(&mut self, regs: &mut GpioRegisters, output_type: OutputType)
        requires
            old(self).pin < 16,
        ensures
            *final(self) == *old(self),
            *final(regs) == (
            GpioRegisters {
                otyper: spec_replace(
                    old(regs).otyper,
                    spec_output_type_bits(output_type) as u32,
                    old(self).pin,
                    1,
                ),
                ..*old(regs)
            }),
    {
        regs.otyper = otyper(regs.otyper, self.pin, output_type);
    }

    /// Sets the pin's output speed in the port's speed register.
    pub fn set_output_speed(&mut self, regs: &mut GpioRegisters, output_speed: OutputSpeed)
        requires
            old(self).pin < 16,
        ensures
            *final(self) == *old(self),
            *final(regs) == (
            GpioRegisters {
                ospeedr: spec_replace(
                    old(regs).ospeedr,
                    spec_output_speed_bits(output_speed) as u32,
                    (old(self).pin * 2) as u8,
                    2,
                ),
                ..*old(regs)
            }),
    {
        regs.ospeedr = ospeedr(regs.ospeedr, self.pin, output_speed);
    }

    /// Sets the pin's pull mode in the port's pull register.
    pub fn set_pull_mode(&mut self, regs: &mut GpioRegisters, pull_mode: PullMode)
        requires
            old(self).pin < 16,
        ensures
            *final(self) == *old(self),
            *final(regs) == (
            GpioRegisters {
                pupdr: spec_replace(
                    old(regs).pupdr,
                    spec_pull_mode_bits(pull_mode) as u32,
                    (old(self).pin * 2) as u8,
                    2,
                ),
                ..*old(regs)
            }),
    {
        regs.pupdr = pupdr(regs.pupdr, self.pin, pull_mode);
    }

    /// Sets the pin's alternate function in the port's low or high function
    /// register, depending on the pin number.
    pub fn set_alternate_function(&mut self, regs: &mut GpioRegisters, af: u8)
        requires
            old(self).pin < 16,
        ensures
            *final(self) == *old(self),
            old(self).pin < 8 ==> *final(regs) == (
            GpioRegisters {
                afrl: spec_replace(old(regs).afrl, af as u32, (old(self).pin * 4) as u8, 4),
                ..*old(regs)
            }),
            old(self).pin >= 8 ==> *final(regs) == (
            GpioRegisters {
                afrh: spec_replace(old(regs).afrh, af as u32, ((old(self).pin - 8) * 4) as u8, 4),
                ..*old(regs)
            }),
    {
        if self.pin < 8 {
            regs.afrl = afr(regs.afrl, self.pin, af);
        } else {
            regs.afrh = afr(regs.afrh, self.pin - 8, af);
        }
    }

    /// Sets the pin's output state through the bit set/reset register.
    /// - `high`: drive the pin high when set, low otherwise.
    pub fn set_output_state(&mut self, regs: &mut GpioRegisters, high: bool)
        requires
            old(self).pin < 16,
        ensures
            *final(self) == *old(self),
            *final(regs) == (
            GpioRegisters {
                odr: spec_bsrr_write(old(regs).odr, spec_bsrr(old(self).pin, high)),
                ..*old(regs)
            }),
    {
        let value: u32 = bsrr(self.pin, high);
        regs.odr = (regs.odr | (value & 0xFFFF)) & !(value >> 16);
    }

    /// Toggles the pin's output state through the bit set/reset register:
    /// a pin reading back high is driven low and one reading back low is
    /// driven high.
    pub fn toggle(&mut self, regs: &mut GpioRegisters)
        requires
            old(self).pin < 16,
        ensures
            *final(self) == *old(self),
            (old(regs).odr >> (old(self).pin as u32)) & 1 != 0 ==> *final(regs) == (
            GpioRegisters {
                odr: old(regs).odr & !(1u32 << (old(self).pin as u32)),
                ..*old(regs)
            }),
            (old(regs).odr >> (old(self).pin as u32)) & 1 == 0 ==> *final(regs) == (
            GpioRegisters { odr: old(regs).odr | (1u32 << (old(self).pin as u32)), ..*old(regs) }),
    {
        if (regs.odr >> (self.pin as u32)) & 1 != 0 {
            regs.odr = regs.odr & !(1u32 << (self.pin as u32));
        } else {
            regs.odr = regs.odr | (1u32 << (self.pin as u32));
        }
    }

    /// Reads the pin's input state.
    /// - Returns whether the pin reads high.
    pub fn get_input_state(&self, regs: &GpioRegisters) -> (r: bool)
        requires
            self.pin < 16,
        ensures
            r == (((regs.idr >> (self.pin as u32)) & 0x01) != 0),
    {
        BitWorker::new(regs.idr).is_set(self.pin)
    }
}

/// Returns the modified MODER register value for a specific pin and mode.
pub fn modr(value: u32, pin: u8, mode: PinMode) -> (r: u32)
    requires
        pin < 16,
    ensures
        r == spec_replace(value, spec_pin_mode_bits(mode) as u32, (pin * 2) as u8, 2),
{
    let mut w = BitWorker::new(value);
    w.replace(mode.bits() as u32, pin * 2, 2);
    w.value()
}

/// The bit set/reset register value driving one pin high or low: the pin's
/// bit in the low half sets it, the bit shifted into the high half resets
/// it.
pub open spec fn spec_bsrr(pin: u8, high: bool) -> u32 {
    if high {
        1u32 << (pin as u32)
    } else {
        1u32 << ((pin + 16) as u32)
    }
}

/// Returns the BSRR register value for a specific pin and state.
pub fn bsrr(pin: u8, high: bool) -> (r: u32)
    requires
        pin < 16,
    ensures
        r == spec_bsrr(pin, high),
{
    let position: u8 = if high {
        pin
    } else {
        pin + 16
    };
    1u32 << (position as u32)
}

/// Returns the modified OSPEEDR register value for a specific pin and speed.
pub fn ospeedr(value: u32, pin: u8, output_speed: OutputSpeed) -> (r: u32)
    requires
        pin < 16,
    ensures
        r == spec_replace(value, spec_output_speed_bits(output_speed) as u32, (pin * 2) as u8, 2),
{
    let mut w = BitWorker::new(value);
    w.replace(output_speed.bits() as u32, pin * 2, 2);
    w.value()
}

/// Returns the modified OTYPER register value for a specific pin and type.
pub fn otyper(value: u32, pin: u8, output_type: OutputType) -> (r: u32)
    requires
        pin < 16,
    ensures
        r == spec_replace(value, spec_output_type_bits(output_type) as u32, pin, 1),
{
    let mut w = BitWorker::new(value);
    w.replace(output_type.bits() as u32, pin, 1);
    w.value()
}

/// Returns the modified PUPDR register value for a specific pin and pull mode.
pub fn pupdr(value: u32, pin: u8, pull_mode: PullMode) -> (r: u32)
    requires
        pin < 16,
    ensures
        r == spec_replace(value, spec_pull_mode_bits(pull_mode) as u32, (pin * 2) as u8, 2),
{
    let mut w = BitWorker::new(value);
    w.replace(pull_mode.bits() as u32, pin * 2, 2);
    w.value()
}

/// Returns the modified AFRL/AFRH register value for a specific pin and alternate function.
pub fn afr(value: u32, pin: u8, af: u8) -> (r: u32)
    requires
        pin < 8,
    ensures
        r == spec_replace(value, af as u32, (pin * 4) as u8, 4),
{
    let mut w = BitWorker::new(value);
    w.replace(af as u32, pin * 4, 4);
    w.value()
}

} // verus!
