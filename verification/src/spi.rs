//! Serial peripheral interface configuration.

use vstd::prelude::*;

verus! {

/// Configuration settings.
#[derive(Debug, Clone)]
pub struct SpiConfig {
    /// Master mode enable.
    pub master_mode: bool,
    /// Communication mode.
    pub communication_mode: CommunicationMode,
    /// Clock prescaler.
    pub clock_prescaler: ClockPrescaler,
    /// Clock polarity.
    pub clock_polarity: ClockPolarity,
    /// Clock phase.
    pub clock_phase: ClockPhase,
    /// Data size in bits.
    pub data_size: u8,
    /// FIFO threshold level.
    pub fifo_threshold_level: u8,
    /// Least significant bit first.
    pub lsb_first: bool,
    /// Protocol mode.
    pub protocol_mode: ProtocolMode,
    /// Slave select output enable.
    pub ss_output_enable: bool,
    /// Slave select polarity.
    pub ss_polarity: SsPolarity,
    /// Transmit DMA enable.
    pub tx_dma_enable: bool,
    /// Receive DMA enable.
    pub rx_dma_enable: bool,
    /// Swap the MISO and MOSI pins.
    pub swap_miso_mosi: bool,
    /// Master inter-data idleness in clock cycles.
    pub master_inter_data_idleness: u8,
    /// Master slave-select idleness in clock cycles.
    pub master_ss_idleness: u8,
}

impl Default for SpiConfig {
    /// Returns the default configuration: a master transmitter with 8-bit
    /// data size and Motorola framing.
    fn default() -> (r: Self)
        ensures
            r == (SpiConfig {
                master_mode: true,
                communication_mode: CommunicationMode::SimplexTransmitter,
                clock_prescaler: ClockPrescaler::Div16,
                clock_polarity: ClockPolarity::Low,
                clock_phase: ClockPhase::First,
                data_size: 8,
                fifo_threshold_level: 1,
                lsb_first: false,
                protocol_mode: ProtocolMode::Motorola,
                ss_output_enable: true,
                ss_polarity: SsPolarity::Low,
                tx_dma_enable: false,
                rx_dma_enable: false,
                swap_miso_mosi: false,
                master_inter_data_idleness: 0,
                master_ss_idleness: 0,
            }),
    {
        Self {
            master_mode: true,
            communication_mode: CommunicationMode::SimplexTransmitter,
            clock_prescaler: ClockPrescaler::Div16,
            clock_polarity: ClockPolarity::Low,
            clock_phase: ClockPhase::First,
            data_size: 8,
            fifo_threshold_level: 1,
            lsb_first: false,
            protocol_mode: ProtocolMode::Motorola,
            ss_output_enable: true,
            ss_polarity: SsPolarity::Low,
            tx_dma_enable: false,
            rx_dma_enable: false,
            swap_miso_mosi: false,
            master_inter_data_idleness: 0,
            master_ss_idleness: 0,
        }
    }
}

/// Communication mode.
#[derive(Debug, Clone, Copy, PartialEq, Eq, Structural)]
pub enum CommunicationMode {
    /// Full-duplex.
    FullDuplex,
    /// Simplex transmitter.
    SimplexTransmitter,
    /// Simplex receiver.
    SimplexReceiver,
    /// Half-duplex
    HalfDuplex,
}

/// Register field encoding of each variant.
pub open spec fn spec_communication_mode_bits(value: CommunicationMode) -> u8 {
    match value {
        CommunicationMode::FullDuplex => 0b00,
        CommunicationMode::SimplexTransmitter => 0b01,
        CommunicationMode::SimplexReceiver => 0b10,
        CommunicationMode::HalfDuplex => 0b11,
    }
}

impl CommunicationMode {
    /// Returns the register field encoding.
    pub fn bits(&self) -> (r: u8)
        ensures
            r == spec_communication_mode_bits(*self),
    {
        match self {
            CommunicationMode::FullDuplex => 0b00,
            CommunicationMode::SimplexTransmitter => 0b01,
            CommunicationMode::SimplexReceiver => 0b10,
            CommunicationMode::HalfDuplex => 0b11,
        }
    }
}

/// Master clock prescaler.
#[derive(Debug, Clone, Copy, PartialEq, Eq, Structural)]
pub enum ClockPrescaler {
    /// Divided by 2.
    Div2,
    /// Divided by 4.
    Div4,
    /// Divided by 8.
    Div8,
    /// Divided by 16.
    Div16,
    /// Divided by 32.
    Div32,
    /// Divided by 64.
    Div64,
    /// Divided by 128.
    Div128,
    /// Divided by 256.
    Div256,
}

/// Register field encoding of each variant.
pub open spec fn spec_clock_prescaler_bits(value: ClockPrescaler) -> u8 {
    match value {
        ClockPrescaler::Div2 => 0b000,
        ClockPrescaler::Div4 => 0b001,
        ClockPrescaler::Div8 => 0b010,
        ClockPrescaler::Div16 => 0b011,
        ClockPrescaler::Div32 => 0b100,
        ClockPrescaler::Div64 => 0b101,
        ClockPrescaler::Div128 => 0b110,
        ClockPrescaler::Div256 => 0b111,
    }
}

impl ClockPrescaler {
    /// Returns the register field encoding.
    pub fn bits(&self) -> (r: u8)
        ensures
            r == spec_clock_prescaler_bits(*self),
    {
        match self {
            ClockPrescaler::Div2 => 0b000,
            ClockPrescaler::Div4 => 0b001,
            ClockPrescaler::Div8 => 0b010,
            ClockPrescaler::Div16 => 0b011,
            ClockPrescaler::Div32 => 0b100,
            ClockPrescaler::Div64 => 0b101,
            ClockPrescaler::Div128 => 0b110,
            ClockPrescaler::Div256 => 0b111,
        }
    }
}

/// Clock polarity.
#[derive(Debug, Clone, Copy, PartialEq, Eq, Structural)]
pub enum ClockPolarity {
    /// Low.
    Low,
    /// High.
    High,
}

/// Register field encoding of each variant.
pub open spec fn spec_clock_polarity_bits(value: ClockPolarity) -> u8 {
    match value {
        ClockPolarity::Low => 0b0,
        ClockPolarity::High => 0b1,
    }
}

impl ClockPolarity {
    /// Returns the register field encoding.
    pub fn bits(&self) -> (r: u8)
        ensures
            r == spec_clock_polarity_bits(*self),
    {
        match self {
            ClockPolarity::Low => 0b0,
            ClockPolarity::High => 0b1,
        }
    }
}

/// Clock phase.
#[derive(Debug, Clone, Copy, PartialEq, Eq, Structural)]
pub enum ClockPhase {
    /// Data captured on first transition.
    First,
    /// Data captured on second transition.
    Second,
}

/// Register field encoding of each variant.
pub open spec fn spec_clock_phase_bits(value: ClockPhase) -> u8 {
    match value {
        ClockPhase::First => 0b0,
        ClockPhase::Second => 0b1,
    }
}

impl ClockPhase {
    /// Returns the register field encoding.
    pub fn bits(&self) -> (r: u8)
        ensures
            r == spec_clock_phase_bits(*self),
    {
        match self {
            ClockPhase::First => 0b0,
            ClockPhase::Second => 0b1,
        }
    }
}

/// Serial protocol mode.
#[derive(Debug, Clone, Copy, PartialEq, Eq, Structural)]
pub enum ProtocolMode {
    /// Motorola serial protocol.
    Motorola,
    /// TI serial protocol.
    Ti,
}

/// Register field encoding of each variant.
pub open spec fn spec_protocol_mode_bits(value: ProtocolMode) -> u8 {
    match value {
        ProtocolMode::Motorola => 0b000,
        ProtocolMode::Ti => 0b001,
    }
}

impl ProtocolMode {
    /// Returns the register field encoding.
    pub fn bits(&self) -> (r: u8)
        ensures
            r == spec_protocol_mode_bits(*self),
    {
        match self {
            ProtocolMode::Motorola => 0b000,
            ProtocolMode::Ti => 0b001,
        }
    }
}

/// Slave select polarity.
#[derive(Debug, Clone, Copy, PartialEq, Eq, Structural)]
pub enum SsPolarity {
    /// Low level active.
    Low,
    /// High level active.
    High,
}

/// Register field encoding of each variant.
pub open spec fn spec_ss_polarity_bits(value: SsPolarity) -> u8 {
    match value {
        SsPolarity::Low => 0b0,
        SsPolarity::High => 0b1,
    }
}

impl SsPolarity {
    /// Returns the register field encoding.
    pub fn bits(&self) -> (r: u8)
        ensures
            r == spec_ss_polarity_bits(*self),
    {
        match self {
            SsPolarity::Low => 0b0,
            SsPolarity::High => 0b1,
        }
    }
}
} // verus!
