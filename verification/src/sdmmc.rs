//! Secure-digital and multimedia-card host configuration.

use vstd::prelude::*;

verus! {

/// Configuration settings.
#[derive(Debug, Clone)]
pub struct SdmmcConfig {
    /// Bus width.
    pub bus_width: BusWidth,
    /// Clock frequency in Hz while initializing.
    pub init_clock_frequency: u32,
    /// Clock power save (disable when bus is inactive)
    pub clock_power_save: bool,
    /// Hardware flow control.
    pub hardware_flow_control: bool,
    /// Data rate signaling.
    pub data_rate: DataRate,
    /// Enable the faster bus speed modes.
    pub high_bus_speed: bool,
    /// Data timeout in bus cycles.
    pub data_timeout: u32,
}

impl Default for SdmmcConfig {
    /// Returns the default configuration suitable for SD cards.
    /// - 400kHz init clock frequency.
    /// - 1 bit bus width.
    fn default() -> (r: Self)
        ensures
            r == (SdmmcConfig {
                bus_width: BusWidth::Bits1,
                init_clock_frequency: 400000,
                clock_power_save: false,
                hardware_flow_control: true,
                data_rate: DataRate::Sdr,
                high_bus_speed: false,
                data_timeout: 5000000,
            }),
    {
        Self {
            bus_width: BusWidth::Bits1,
            init_clock_frequency: 400000,
            clock_power_save: false,
            hardware_flow_control: true,
            data_rate: DataRate::Sdr,
            high_bus_speed: false,
            data_timeout: 5000000,
        }
    }
}

/// Bus width.
#[derive(Debug, Clone, Copy, PartialEq, Eq, Structural)]
pub enum BusWidth {
    /// 1 bit.
    Bits1,
    /// 4 bits.
    Bits4,
    /// 8 bits.
    Bits8,
}

/// Register field encoding of each variant.
pub open spec fn spec_bus_width_bits(value: BusWidth) -> u8 {
    match value {
        BusWidth::Bits1 => 0b00,
        BusWidth::Bits4 => 0b01,
        BusWidth::Bits8 => 0b10,
    }
}

impl BusWidth {
    /// Returns the register field encoding.
    pub fn bits(&self) -> (r: u8)
        ensures
            r == spec_bus_width_bits(*self),
    {
        match self {
            BusWidth::Bits1 => 0b00,
            BusWidth::Bits4 => 0b01,
            BusWidth::Bits8 => 0b10,
        }
    }
}

/// Data rate signaling.
#[derive(Debug, Clone, Copy, PartialEq, Eq, Structural)]
pub enum DataRate {
    /// Single data rate.
    Sdr,
    /// Double data rate.
    Ddr,
}

/// Register field encoding of each variant.
pub open spec fn spec_data_rate_bits(value: DataRate) -> u8 {
    match value {
        DataRate::Sdr => 0b0,
        DataRate::Ddr => 0b1,
    }
}

impl DataRate {
    /// Returns the register field encoding.
    pub fn bits(&self) -> (r: u8)
        ensures
            r == spec_data_rate_bits(*self),
    {
        match self {
            DataRate::Sdr => 0b0,
            DataRate::Ddr => 0b1,
        }
    }
}

/// Command response.
#[derive(Debug, Clone, Copy, PartialEq, Eq, Structural)]
pub enum CommandResponse {
    /// No response.
    NoResponse,
    /// Short response.
    Short,
    /// Short response without CRC check.
    ShortNoCrc,
    /// Long response.
    Long,
}

/// Register field encoding of each variant.
pub open spec fn spec_command_response_bits(value: CommandResponse) -> u8 {
    match value {
        CommandResponse::NoResponse => 0b00,
        CommandResponse::Short => 0b01,
        CommandResponse::ShortNoCrc => 0b10,
        CommandResponse::Long => 0b11,
    }
}

impl CommandResponse {
    /// Returns the register field encoding.
    pub fn bits(&self) -> (r: u8)
        ensures
            r == spec_command_response_bits(*self),
    {
        match self {
            CommandResponse::NoResponse => 0b00,
            CommandResponse::Short => 0b01,
            CommandResponse::ShortNoCrc => 0b10,
            CommandResponse::Long => 0b11,
        }
    }
}

/// Command configuration.
#[derive(Debug, Clone)]
pub struct CommandConfig {
    /// Command index.
    pub index: u8,
    /// Argument value.
    pub argument: u32,
    /// Expected response.
    pub response: CommandResponse,
    /// Treat as data transfer command.
    pub data_transfer: bool,
    /// Treat as stop transmission command.
    pub stop_transmission: bool,
}

impl Default for CommandConfig {
    /// Returns the all-zero command without a response.
    fn default() -> (r: Self)
        ensures
            r == (CommandConfig {
                index: 0,
                argument: 0,
                response: CommandResponse::NoResponse,
                data_transfer: false,
                stop_transmission: false,
            }),
    {
        Self {
            index: 0,
            argument: 0,
            response: CommandResponse::NoResponse,
            data_transfer: false,
            stop_transmission: false,
        }
    }
}

/// Errors
#[derive(Debug, Clone, Copy, PartialEq, Eq, Structural)]
pub enum Error {
    /// Initialization timeout exceeded.
    InitTimeout,
    /// Card is not supported, e.g. not V2.
    UnsupportedCard,
    /// Response timeout exceeded.
    ResponseTimeout,
    /// Response CRC failed.
    ResponseCrcFailed,
    /// Data timeout exceeded.
    DataTimeout,
    /// Data CRC failed.
    DataCrcFailed,
    /// Receive overrun.
    ReceiveOverrun,
    /// Transmit underrun.
    TransmitUnderrun,
}
} // verus!
