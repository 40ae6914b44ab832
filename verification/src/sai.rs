//! Serial audio interface configuration.

use vstd::prelude::*;

verus! {

/// Configuration settings.
#[derive(Debug, Clone)]
pub struct SaiConfig {
    /// SAI mode.
    pub mode: SaiMode,
    /// Mono mode.
    pub mono: bool,
    /// Clock strobing.
    pub clock_strobing: ClockStrobing,
    /// Least significant bit first.
    pub lsb_first: bool,
    /// Master clock generation enable.
    pub mclk_enable: bool,
    /// Master clock divider.
    pub mclk_divider: u8,
    /// Disable clock divider.
    pub no_divider: bool,
    /// Oversampling ratio.
    pub oversampling_ratio: OversamplingRatio,
    /// Protocol.
    pub protocol: Protocol,
    /// Data size.
    pub data_size: DataSize,
    /// Enable DMA transfers.
    pub dma_enable: bool,
    /// Frame length.
    pub frame_length: u8,
    /// Frame sync length.
    pub frame_sync_length: u8,
    /// Frame sync offset.
    pub frame_sync_offset: FrameSyncOffset,
    /// Frame sync polarity.
    pub frame_sync_polarity: FrameSyncPolarity,
    /// Frame sync definition.
    pub frame_sync_definition: FrameSyncDefinition,
    /// Slot size.
    pub slot_size: SlotSize,
    /// Slot enable bits.
    pub slot_enable: u16,
    /// Number of slots.
    pub slot_num: u8,
    /// First bit offset.
    pub first_bit_offset: u8,
}

impl Default for SaiConfig {
    /// Returns the default configuration which is:
    /// - Transmitter
    /// - Left aligned, 2 channels with 16-bit data size.
    /// - Master clock enabled.
    fn default() -> (r: Self)
        ensures
            r == (SaiConfig {
                mode: SaiMode::MasterTransmitter,
                mono: false,
                clock_strobing: ClockStrobing::FallingEdge,
                lsb_first: false,
                mclk_enable: true,
                mclk_divider: 8,
                no_divider: false,
                oversampling_ratio: OversamplingRatio::Times256,
                protocol: Protocol::Free,
                data_size: DataSize::Bits16,
                dma_enable: false,
                frame_length: 32,
                frame_sync_length: 16,
                frame_sync_offset: FrameSyncOffset::FirstBit,
                frame_sync_polarity: FrameSyncPolarity::ActiveLow,
                frame_sync_definition: FrameSyncDefinition::ChannelIdent,
                slot_size: SlotSize::DataSize,
                slot_enable: 0xFFFF,
                slot_num: 2,
                first_bit_offset: 0,
            }),
    {
        Self {
            mode: SaiMode::MasterTransmitter,
            mono: false,
            clock_strobing: ClockStrobing::FallingEdge,
            lsb_first: false,
            mclk_enable: true,
            mclk_divider: 8,
            no_divider: false,
            oversampling_ratio: OversamplingRatio::Times256,
            protocol: Protocol::Free,
            data_size: DataSize::Bits16,
            dma_enable: false,
            frame_length: 32,
            frame_sync_length: 16,
            frame_sync_offset: FrameSyncOffset::FirstBit,
            frame_sync_polarity: FrameSyncPolarity::ActiveLow,
            frame_sync_definition: FrameSyncDefinition::ChannelIdent,
            slot_size: SlotSize::DataSize,
            slot_enable: 0xFFFF,
            slot_num: 2,
            first_bit_offset: 0,
        }
    }
}

/// SAI mode.
#[derive(Debug, Clone, Copy, PartialEq, Eq, Structural)]
pub enum SaiMode {
    /// Master transmitter.
    MasterTransmitter,
    /// Master receiver.
    MasterReceiver,
    /// Slave transmitter.
    SlaveTransmitter,
    /// Slave receiver.
    SlaveReceiver,
}

/// Register field encoding of each variant.
pub open spec fn spec_sai_mode_bits(value: SaiMode) -> u8 {
    match value {
        SaiMode::MasterTransmitter => 0b00,
        SaiMode::MasterReceiver => 0b01,
        SaiMode::SlaveTransmitter => 0b10,
        SaiMode::SlaveReceiver => 0b11,
    }
}

impl SaiMode {
    /// Returns the register field encoding.
    pub fn bits(&self) -> (r: u8)
        ensures
            r == spec_sai_mode_bits(*self),
    {
        match self {
            SaiMode::MasterTransmitter => 0b00,
            SaiMode::MasterReceiver => 0b01,
            SaiMode::SlaveTransmitter => 0b10,
            SaiMode::SlaveReceiver => 0b11,
        }
    }
}

/// Clock edge strobing for generated and received SCK signals.
#[derive(Debug, Clone, Copy, PartialEq, Eq, Structural)]
pub enum ClockStrobing {
    /// Signals generated change on SCK rising edge, signals received are sampled on the falling edge.
    RisingEdge,
    /// Signals generated change on SCK falling edge, signals received are sampled on the rising edge.
    FallingEdge,
}

/// Register bit encoding of each variant.
pub open spec fn spec_clock_strobing_bit(value: ClockStrobing) -> bool {
    match value {
        ClockStrobing::RisingEdge => false,
        ClockStrobing::FallingEdge => true,
    }
}

impl ClockStrobing {
    /// Returns the register bit encoding.
    pub fn bit(&self) -> (r: bool)
        ensures
            r == spec_clock_strobing_bit(*self),
    {
        match self {
            ClockStrobing::RisingEdge => false,
            ClockStrobing::FallingEdge => true,
        }
    }
}

/// Oversampling ratio for master clock.
#[derive(Debug, Clone, Copy, PartialEq, Eq, Structural)]
pub enum OversamplingRatio {
    /// FS * 256
    Times256,
    /// FS * 512
    Times512,
}

/// Register bit encoding of each variant.
pub open spec fn spec_oversampling_ratio_bit(value: OversamplingRatio) -> bool {
    match value {
        OversamplingRatio::Times256 => false,
        OversamplingRatio::Times512 => true,
    }
}

impl OversamplingRatio {
    /// Returns the register bit encoding.
    pub fn bit(&self) -> (r: bool)
        ensures
            r == spec_oversampling_ratio_bit(*self),
    {
        match self {
            OversamplingRatio::Times256 => false,
            OversamplingRatio::Times512 => true,
        }
    }
}

/// Audio protocol to use.
#[derive(Debug, Clone, Copy, PartialEq, Eq, Structural)]
pub enum Protocol {
    /// Free protocol.
    Free,
    /// SPDIF protocol.
    Spdif,
    /// AC'97 protocol
    Ac97,
}

/// Register field encoding of each variant.
pub open spec fn spec_protocol_bits(value: Protocol) -> u8 {
    match value {
        Protocol::Free => 0b00,
        Protocol::Spdif => 0b01,
        Protocol::Ac97 => 0b10,
    }
}

impl Protocol {
    /// Returns the register field encoding.
    pub fn bits(&self) -> (r: u8)
        ensures
            r == spec_protocol_bits(*self),
    {
        match self {
            Protocol::Free => 0b00,
            Protocol::Spdif => 0b01,
            Protocol::Ac97 => 0b10,
        }
    }
}

/// Data size.
#[derive(Debug, Clone, Copy, PartialEq, Eq, Structural)]
pub enum DataSize {
    /// 8 bits.
    Bits8,
    /// 10 bits.
    Bits10,
    /// 16 bits.
    Bits16,
    /// 20 bits.
    Bits20,
    /// 24 bits.
    Bits24,
    /// 32 bits.
    Bits32,
}

/// Register field encoding of each variant.
pub open spec fn spec_data_size_bits(value: DataSize) -> u8 {
    match value {
        DataSize::Bits8 => 0b010,
        DataSize::Bits10 => 0b011,
        DataSize::Bits16 => 0b100,
        DataSize::Bits20 => 0b101,
        DataSize::Bits24 => 0b110,
        DataSize::Bits32 => 0b111,
    }
}

impl DataSize {
    /// Returns the register field encoding.
    pub fn bits(&self) -> (r: u8)
        ensures
            r == spec_data_size_bits(*self),
    {
        match self {
            DataSize::Bits8 => 0b010,
            DataSize::Bits10 => 0b011,
            DataSize::Bits16 => 0b100,
            DataSize::Bits20 => 0b101,
            DataSize::Bits24 => 0b110,
            DataSize::Bits32 => 0b111,
        }
    }
}

/// Frame synchonization offset.
#[derive(Debug, Clone, Copy, PartialEq, Eq, Structural)]
pub enum FrameSyncOffset {
    /// First bit of the slot 0.
    FirstBit,
    /// Before the first bit of the slot 0.
    BeforeFirstBit,
}

/// Register bit encoding of each variant.
pub open spec fn spec_frame_sync_offset_bit(value: FrameSyncOffset) -> bool {
    match value {
        FrameSyncOffset::FirstBit => false,
        FrameSyncOffset::BeforeFirstBit => true,
    }
}

impl FrameSyncOffset {
    /// Returns the register bit encoding.
    pub fn bit(&self) -> (r: bool)
        ensures
            r == spec_frame_sync_offset_bit(*self),
    {
        match self {
            FrameSyncOffset::FirstBit => false,
            FrameSyncOffset::BeforeFirstBit => true,
        }
    }
}

/// Frame synchonization polarity.
#[derive(Debug, Clone, Copy, PartialEq, Eq, Structural)]
pub enum FrameSyncPolarity {
    /// Active low (falling edge).
    ActiveLow,
    /// Active high (rising edge).
    ActiveHigh,
}

/// Register bit encoding of each variant.
pub open spec fn spec_frame_sync_polarity_bit(value: FrameSyncPolarity) -> bool {
    match value {
        FrameSyncPolarity::ActiveLow => false,
        FrameSyncPolarity::ActiveHigh => true,
    }
}

impl FrameSyncPolarity {
    /// Returns the register bit encoding.
    pub fn bit(&self) -> (r: bool)
        ensures
            r == spec_frame_sync_polarity_bit(*self),
    {
        match self {
            FrameSyncPolarity::ActiveLow => false,
            FrameSyncPolarity::ActiveHigh => true,
        }
    }
}

/// Frame synchonization definition.
#[derive(Debug, Clone, Copy, PartialEq, Eq, Structural)]
pub enum FrameSyncDefinition {
    /// Start frame signal.
    StartFrame,
    /// Start of frame signal & channel side identification.
    ChannelIdent,
}

/// Register bit encoding of each variant.
pub open spec fn spec_frame_sync_definition_bit(value: FrameSyncDefinition) -> bool {
    match value {
        FrameSyncDefinition::StartFrame => false,
        FrameSyncDefinition::ChannelIdent => true,
    }
}

impl FrameSyncDefinition {
    /// Returns the register bit encoding.
    pub fn bit(&self) -> (r: bool)
        ensures
            r == spec_frame_sync_definition_bit(*self),
    {
        match self {
            FrameSyncDefinition::StartFrame => false,
            FrameSyncDefinition::ChannelIdent => true,
        }
    }
}

/// Slot size.
#[derive(Debug, Clone, Copy, PartialEq, Eq, Structural)]
pub enum SlotSize {
    /// Equal to data size.
    DataSize,
    /// 16 bits
    Bits16,
    /// 32 bits
    Bits32,
}

/// Register field encoding of each variant.
pub open spec fn spec_slot_size_bits(value: SlotSize) -> u8 {
    match value {
        SlotSize::DataSize => 0b00,
        SlotSize::Bits16 => 0b01,
        SlotSize::Bits32 => 0b10,
    }
}

impl SlotSize {
    /// Returns the register field encoding.
    pub fn bits(&self) -> (r: u8)
        ensures
            r == spec_slot_size_bits(*self),
    {
        match self {
            SlotSize::DataSize => 0b00,
            SlotSize::Bits16 => 0b01,
            SlotSize::Bits32 => 0b10,
        }
    }
}
} // verus!
