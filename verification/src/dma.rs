//! Direct memory access controller.
//!
//! A stream's behaviour is set by packing its configuration into the
//! stream's control register and routing a request-multiplexer input to it.
//! `DmaStreamRegisters` models one stream's control register, event flags
//! and multiplexer routing; the packing is specified field by field in
//! `spec_stream_control` and checked against it.

use vstd::prelude::*;

use crate::bitworker::spec_replace;
use crate::bitworker::BitWorker;
use crate::dmamux::spec_dma_request_input_number;
use crate::dmamux::DmaRequestInput;

verus! {

/// DMA stream configuration.
#[derive(Debug, Clone, Copy)]
pub struct DmaStreamConfig {
    /// Request input.
    pub request_input: DmaRequestInput,
    /// Transfer direction.
    pub transfer_direction: TransferDirection,
    /// Memory data size.
    pub memory_data_size: DataSize,
    /// Peripheral data size.
    pub peripheral_data_size: DataSize,
    /// Circular mode.
    pub circular: bool,
    /// Memory increment mode.
    pub memory_increment: bool,
    /// Peripheral increment mode.
    pub peripheral_increment: bool,
    /// Peripheral increment fixed to 4 (32-bit alignment).
    pub peripheral_increment_fixed: bool,
    /// Peripheral is flow controller.
    pub peripheral_flow_controller: bool,
    /// Transfer complete interrupt enable.
    pub transfer_complete_interrupt: bool,
    /// Half-transfer interrupt enable.
    pub half_transfer_interrupt: bool,
    /// Transfer_error_interrupt.
    pub transfer_error_interrupt: bool,
    /// Direct mode error interrupt enable.
    pub direct_mode_error_interrupt: bool,
    /// Double-buffer mode.
    pub double_buffer: bool,
    /// Priority level.
    pub priority_level: PriorityLevel,
    /// Memory burst transfer configuration.
    pub memory_burst_transfer: BurstTransfer,
    /// Peripheral burst transfer configuration.
    pub peripheral_burst_transfer: BurstTransfer,
    /// Bufferable transfers enable. Must be enabled for UART/USART transfers.
    pub bufferable_transfers: bool,
    /// Current target for double-buffer mode.
    pub current_target: CurrentTarget,
}

impl Default for DmaStreamConfig {
    /// Returns the default configuration: a peripheral-to-memory byte
    /// transfer of lowest priority with everything else off.
    fn default() -> (r: Self)
        ensures
            r == (DmaStreamConfig {
                request_input: DmaRequestInput::MemoryToMemory,
                transfer_direction: TransferDirection::PeripheralToMemory,
                memory_data_size: DataSize::Byte,
                peripheral_data_size: DataSize::Byte,
                circular: false,
                memory_increment: false,
                peripheral_increment: false,
                peripheral_increment_fixed: false,
                peripheral_flow_controller: false,
                transfer_complete_interrupt: false,
                half_transfer_interrupt: false,
                transfer_error_interrupt: false,
                direct_mode_error_interrupt: false,
                double_buffer: false,
                priority_level: PriorityLevel::Low,
                memory_burst_transfer: BurstTransfer::Single,
                peripheral_burst_transfer: BurstTransfer::Single,
                bufferable_transfers: false,
                current_target: CurrentTarget::Memory0,
            }),
    {
        Self {
            request_input: DmaRequestInput::MemoryToMemory,
            transfer_direction: TransferDirection::PeripheralToMemory,
            memory_data_size: DataSize::Byte,
            peripheral_data_size: DataSize::Byte,
            circular: false,
            memory_increment: false,
            peripheral_increment: false,
            peripheral_increment_fixed: false,
            peripheral_flow_controller: false,
            transfer_complete_interrupt: false,
            half_transfer_interrupt: false,
            transfer_error_interrupt: false,
            direct_mode_error_interrupt: false,
            double_buffer: false,
            priority_level: PriorityLevel::Low,
            memory_burst_transfer: BurstTransfer::Single,
            peripheral_burst_transfer: BurstTransfer::Single,
            bufferable_transfers: false,
            current_target: CurrentTarget::Memory0,
        }
    }
}

/// Data transfer direction.
#[derive(Debug, Clone, Copy, PartialEq, Eq, Structural)]
pub enum TransferDirection {
    /// Peripheral-to-memory.
    PeripheralToMemory,
    /// Memory-to-peripheral.
    MemoryToPeripheral,
    /// Memory-to-memory.
    MemoryToMemory,
}

/// Register field encoding of each transfer direction.
pub open spec fn spec_transfer_direction_bits(value: TransferDirection) -> u8 {
    match value {
        TransferDirection::PeripheralToMemory => 0b00,
        TransferDirection::MemoryToPeripheral => 0b01,
        TransferDirection::MemoryToMemory => 0b10,
    }
}

impl TransferDirection {
    /// Returns the register field encoding.
    pub fn bits(&self) -> (r: u8)
        ensures
            r == spec_transfer_direction_bits(*self),
    {
        match self {
            TransferDirection::PeripheralToMemory => 0b00,
            TransferDirection::MemoryToPeripheral => 0b01,
            TransferDirection::MemoryToMemory => 0b10,
        }
    }
}

/// Data size.
#[derive(Debug, Clone, Copy, PartialEq, Eq, Structural)]
pub enum DataSize {
    /// Byte, 8-bit.
    Byte,
    /// Half-word, 16-bit.
    HalfWord,
    /// Word, 32-bit.
    Word,
}

/// Register field encoding of each data size.
pub open spec fn spec_data_size_bits(value: DataSize) -> u8 {
    match value {
        DataSize::Byte => 0b00,
        DataSize::HalfWord => 0b01,
        DataSize::Word => 0b10,
    }
}

impl DataSize {
    /// Returns the register field encoding.
    pub fn bits(&self) -> (r: u8)
        ensures
            r == spec_data_size_bits(*self),
    {
        match self {
            DataSize::Byte => 0b00,
            DataSize::HalfWord => 0b01,
            DataSize::Word => 0b10,
        }
    }
}

/// Priority level.
#[derive(Debug, Clone, Copy, PartialEq, Eq, Structural)]
pub enum PriorityLevel {
    /// Low priority.
    Low,
    /// Medium priority.
    Medium,
    /// High priority.
    High,
    /// Very high priority.
    VeryHigh,
}

/// Register field encoding of each priority level.
pub open spec fn spec_priority_level_bits(value: PriorityLevel) -> u8 {
    match value {
        PriorityLevel::Low => 0b00,
        PriorityLevel::Medium => 0b01,
        PriorityLevel::High => 0b10,
        PriorityLevel::VeryHigh => 0b11,
    }
}

impl PriorityLevel {
    /// Returns the register field encoding.
    pub fn bits(&self) -> (r: u8)
        ensures
            r == spec_priority_level_bits(*self),
    {
        match self {
            PriorityLevel::Low => 0b00,
            PriorityLevel::Medium => 0b01,
            PriorityLevel::High => 0b10,
            PriorityLevel::VeryHigh => 0b11,
        }
    }
}

/// Burst transfer configuration.
#[derive(Debug, Clone, Copy, PartialEq, Eq, Structural)]
pub enum BurstTransfer {
    /// Single transfer.
    Single,
    /// Incremental burst of 4 beats.
    Incremental4,
    /// Incremental burst of 8 beats.
    Incremental8,
    /// Incremental burst of 16 beats.
    Incremental16,
}

/// Register field encoding of each burst configuration.
pub open spec fn spec_burst_transfer_bits(value: BurstTransfer) -> u8 {
    match value {
        BurstTransfer::Single => 0b00,
        BurstTransfer::Incremental4 => 0b01,
        BurstTransfer::Incremental8 => 0b10,
        BurstTransfer::Incremental16 => 0b11,
    }
}

impl BurstTransfer {
    /// Returns the register field encoding.
    pub fn bits(&self) -> (r: u8)
        ensures
            r == spec_burst_transfer_bits(*self),
    {
        match self {
            BurstTransfer::Single => 0b00,
            BurstTransfer::Incremental4 => 0b01,
            BurstTransfer::Incremental8 => 0b10,
            BurstTransfer::Incremental16 => 0b11,
        }
    }
}

/// Current target for double-buffer mode.
#[derive(Debug, Clone, Copy, PartialEq, Eq, Structural)]
pub enum CurrentTarget {
    /// First memory target.
    Memory0,
    /// Second memory target.
    Memory1,
}

/// Register bit encoding of the current target.
pub open spec fn spec_current_target_bit(value: CurrentTarget) -> bool {
    match value {
        CurrentTarget::Memory0 => false,
        CurrentTarget::Memory1 => true,
    }
}

impl CurrentTarget {
    /// Returns the register bit encoding.
    pub fn bit(&self) -> (r: bool)
        ensures
            r == spec_current_target_bit(*self),
    {
        match self {
            CurrentTarget::Memory0 => false,
            CurrentTarget::Memory1 => true,
        }
    }
}

/// DMA streams.
#[derive(Debug, Clone, Copy, PartialEq, Eq, Structural)]
pub enum DmaStream {
    /// DMA1 stream 0.
    Dma1Stream0,
    /// DMA1 stream 1.
    Dma1Stream1,
    /// DMA1 stream 2.
    Dma1Stream2,
    /// DMA1 stream 3.
    Dma1Stream3,
    /// DMA1 stream 4.
    Dma1Stream4,
    /// DMA1 stream 5.
    Dma1Stream5,
    /// DMA1 stream 6.
    Dma1Stream6,
    /// DMA1 stream 7.
    Dma1Stream7,
    /// DMA2 stream 0.
    Dma2Stream0,
    /// DMA2 stream 1.
    Dma2Stream1,
    /// DMA2 stream 2.
    Dma2Stream2,
    /// DMA2 stream 3.
    Dma2Stream3,
    /// DMA2 stream 4.
    Dma2Stream4,
    /// DMA2 stream 5.
    Dma2Stream5,
    /// DMA2 stream 6.
    Dma2Stream6,
    /// DMA2 stream 7.
    Dma2Stream7,
}

/// Bit of a stream's event flags naming a FIFO error.
pub const DMA_FLAG_FIFO_ERROR: u32 = 0;

/// Bit of a stream's event flags naming a direct mode error.
pub const DMA_FLAG_DIRECT_MODE_ERROR: u32 = 2;

/// Bit of a stream's event flags naming a transfer error.
pub const DMA_FLAG_TRANSFER_ERROR: u32 = 3;

/// Bit of a stream's event flags marking the half-transfer point.
pub const DMA_FLAG_HALF_TRANSFER: u32 = 4;

/// Bit of a stream's event flags marking transfer completion.
pub const DMA_FLAG_TRANSFER_COMPLETE: u32 = 5;

/// Model of the registers of one DMA stream: its control register, its
/// event flags in their interrupt-status layout, its address and count
/// registers, and the request input its multiplexer channel routes to
/// it.
#[derive(Debug, Clone, Copy, PartialEq, Eq, Structural)]
pub struct DmaStreamRegisters {
    /// Stream control register.
    pub cr: u32,
    /// Event flags of the stream.
    pub flags: u32,
    /// First memory address register.
    pub m0ar: u32,
    /// Peripheral address register.
    pub par: u32,
    /// Number-of-data register.
    pub ndtr: u32,
    /// Request input routed to the stream.
    pub mux_request: u8,
}

/// A flag as a register bit.
pub open spec fn spec_flag_bit(b: bool) -> u32 {
    if b {
        1u32
    } else {
        0u32
    }
}

/// The first half of the control-register packing: transfer direction, data
/// sizes, addressing flags and interrupt enables replace their fields.
pub open spec fn spec_stream_control_transfer(cr: u32, c: DmaStreamConfig) -> u32 {
    let w = spec_replace(cr, spec_transfer_direction_bits(c.transfer_direction) as u32, 6, 2);
    let w = spec_replace(w, spec_data_size_bits(c.memory_data_size) as u32, 13, 2);
    let w = spec_replace(w, spec_data_size_bits(c.peripheral_data_size) as u32, 11, 2);
    let w = spec_replace(w, spec_flag_bit(c.circular), 8, 1);
    let w = spec_replace(w, spec_flag_bit(c.memory_increment), 10, 1);
    let w = spec_replace(w, spec_flag_bit(c.peripheral_increment), 9, 1);
    let w = spec_replace(w, spec_flag_bit(c.peripheral_increment_fixed), 15, 1);
    let w = spec_replace(w, spec_flag_bit(c.peripheral_flow_controller), 5, 1);
    spec_replace(w, spec_flag_bit(c.transfer_complete_interrupt), 4, 1)
}

/// The stream control register after a configuration is packed over a prior
/// value: every field of the configuration replaces its register field, and
/// all other register bits keep their prior value.
pub open spec fn spec_stream_control(cr: u32, c: DmaStreamConfig) -> u32 {
    let w = spec_stream_control_transfer(cr, c);
    let w = spec_replace(w, spec_flag_bit(c.half_transfer_interrupt), 3, 1);
    let w = spec_replace(w, spec_flag_bit(c.transfer_error_interrupt), 2, 1);
    let w = spec_replace(w, spec_flag_bit(c.direct_mode_error_interrupt), 1, 1);
    let w = spec_replace(w, spec_flag_bit(c.double_buffer), 18, 1);
    let w = spec_replace(w, spec_priority_level_bits(c.priority_level) as u32, 16, 2);
    let w = spec_replace(w, spec_burst_transfer_bits(c.memory_burst_transfer) as u32, 23, 2);
    let w = spec_replace(w, spec_burst_transfer_bits(c.peripheral_burst_transfer) as u32, 21, 2);
    let w = spec_replace(w, spec_flag_bit(spec_current_target_bit(c.current_target)), 19, 1);
    spec_replace(w, spec_flag_bit(c.bufferable_transfers), 20, 1)
}

/// Packs the first half of a configuration over a control-register value.
fn pack_transfer_fields(cr: u32, config: DmaStreamConfig) -> (r: u32)
    ensures
        r == spec_stream_control_transfer(cr, config),
{
    let w: u32 = replace_field(cr, config.transfer_direction.bits() as u32, 6, 2);
    let w: u32 = replace_field(w, config.memory_data_size.bits() as u32, 13, 2);
    let w: u32 = replace_field(w, config.peripheral_data_size.bits() as u32, 11, 2);
    let w: u32 = replace_field(w, flag_bit(config.circular), 8, 1);
    let w: u32 = replace_field(w, flag_bit(config.memory_increment), 10, 1);
    let w: u32 = replace_field(w, flag_bit(config.peripheral_increment), 9, 1);
    let w: u32 = replace_field(w, flag_bit(config.peripheral_increment_fixed), 15, 1);
    let w: u32 = replace_field(w, flag_bit(config.peripheral_flow_controller), 5, 1);
    replace_field(w, flag_bit(config.transfer_complete_interrupt), 4, 1)
}

/// Replaces one register field of a word.
fn replace_field(value: u32, replacement: u32, position: u8, count: u8) -> (r: u32)
    requires
        position < 32,
        count < 32,
    ensures
        r == spec_replace(value, replacement, position, count),
{
    let mut w = BitWorker::new(value);
    w.replace(replacement, position, count);
    w.value()
}

/// Turns a flag into its register bit.
fn flag_bit(b: bool) -> (r: u32)
    ensures
        r == spec_flag_bit(b),
{
    if b {
        1
    } else {
        0
    }
}

impl DmaStream {
    /// Initializes the stream with a configuration: packs the configuration
    /// into the stream's control register and routes the requested
    /// multiplexer input to the stream's channel.
    #[verifier::rlimit(100)]
    pub fn init(&self, regs: &mut DmaStreamRegisters, config: DmaStreamConfig)
        ensures
            final(regs).cr == spec_stream_control(old(regs).cr, config),
            final(regs).mux_request == spec_dma_request_input_number(config.request_input),
            final(regs).flags == old(regs).flags,
            final(regs).m0ar == old(regs).m0ar,
            final(regs).par == old(regs).par,
            final(regs).ndtr == old(regs).ndtr,
    {
        let w: u32 = pack_transfer_fields(regs.cr, config);
        let w: u32 = replace_field(w, flag_bit(config.half_transfer_interrupt), 3, 1);
        let w: u32 = replace_field(w, flag_bit(config.transfer_error_interrupt), 2, 1);
        let w: u32 = replace_field(w, flag_bit(config.direct_mode_error_interrupt), 1, 1);
        let w: u32 = replace_field(w, flag_bit(config.double_buffer), 18, 1);
        let w: u32 = replace_field(w, config.priority_level.bits() as u32, 16, 2);
        let w: u32 = replace_field(w, config.memory_burst_transfer.bits() as u32, 23, 2);
        let w: u32 = replace_field(w, config.peripheral_burst_transfer.bits() as u32, 21, 2);
        let w: u32 = replace_field(w, flag_bit(config.current_target.bit()), 19, 1);
        let w: u32 = replace_field(w, flag_bit(config.bufferable_transfers), 20, 1);

        regs.cr = w;
        regs.mux_request = config.request_input.number();
    }

    /// Starts the transfer: writes the memory and peripheral addresses and
    /// the transfer length to the stream's registers and enables the stream.
    pub fn start_transfer(
        &self,
        regs: &mut DmaStreamRegisters,
        memory_address: u32,
        peripheral_address: u32,
        length: usize,
    )
        requires
            length <= 0xFFFFFFFF,
        ensures
            final(regs).m0ar == memory_address,
            final(regs).par == peripheral_address,
            final(regs).ndtr == length,
            final(regs).cr == old(regs).cr | 1,
            final(regs).flags == 0,
            final(regs).mux_request == old(regs).mux_request,
    {
        regs.m0ar = memory_address;
        regs.par = peripheral_address;
        regs.ndtr = length as u32;

        self.enable(regs);
    }

    /// Enables the stream, after clearing its stale event flags.
    pub fn enable(&self, regs: &mut DmaStreamRegisters)
        ensures
            *final(regs) == (DmaStreamRegisters { flags: 0, cr: old(regs).cr | 1, ..*old(regs) }),
    {
        self.clear_all_flags(regs);
        regs.cr = regs.cr | 1;
    }

    /// Disables the stream.
    pub fn disable(&self, regs: &mut DmaStreamRegisters)
        ensures
            *final(regs) == (DmaStreamRegisters { cr: old(regs).cr & !1u32, ..*old(regs) }),
    {
        regs.cr = regs.cr & !1u32;
    }

    /// Stops the transfer. Similar to `disable`.
    pub fn stop_transfer(&self, regs: &mut DmaStreamRegisters)
        ensures
            *final(regs) == (DmaStreamRegisters { cr: old(regs).cr & !1u32, ..*old(regs) }),
    {
        self.disable(regs);
    }

    /// Clears all event flags of the stream.
    pub fn clear_all_flags(&self, regs: &mut DmaStreamRegisters)
        ensures
            *final(regs) == (DmaStreamRegisters { flags: 0, ..*old(regs) }),
    {
        regs.flags = 0;
    }

    /// Returns the transfer complete flag.
    pub fn is_transfer_complete(&self, regs: &DmaStreamRegisters) -> (r: bool)
        ensures
            r == ((regs.flags >> DMA_FLAG_TRANSFER_COMPLETE) & 1 != 0),
    {
        (regs.flags >> DMA_FLAG_TRANSFER_COMPLETE) & 1 != 0
    }

    /// Returns the half transfer flag.
    pub fn is_half_transfer(&self, regs: &DmaStreamRegisters) -> (r: bool)
        ensures
            r == ((regs.flags >> DMA_FLAG_HALF_TRANSFER) & 1 != 0),
    {
        (regs.flags >> DMA_FLAG_HALF_TRANSFER) & 1 != 0
    }

    /// Returns the transfer error flag.
    pub fn is_transfer_error(&self, regs: &DmaStreamRegisters) -> (r: bool)
        ensures
            r == ((regs.flags >> DMA_FLAG_TRANSFER_ERROR) & 1 != 0),
    {
        (regs.flags >> DMA_FLAG_TRANSFER_ERROR) & 1 != 0
    }

    /// Returns the FIFO error flag.
    pub fn is_fifo_error(&self, regs: &DmaStreamRegisters) -> (r: bool)
        ensures
            r == ((regs.flags >> DMA_FLAG_FIFO_ERROR) & 1 != 0),
    {
        (regs.flags >> DMA_FLAG_FIFO_ERROR) & 1 != 0
    }

    /// Returns the direct mode error flag.
    pub fn is_direct_mode_error(&self, regs: &DmaStreamRegisters) -> (r: bool)
        ensures
            r == ((regs.flags >> DMA_FLAG_DIRECT_MODE_ERROR) & 1 != 0),
    {
        (regs.flags >> DMA_FLAG_DIRECT_MODE_ERROR) & 1 != 0
    }

    /// Clears the transfer complete flag.
    pub fn clear_transfer_complete(&self, regs: &mut DmaStreamRegisters)
        ensures
            *final(regs) == (
            DmaStreamRegisters {
                flags: old(regs).flags & !(1u32 << DMA_FLAG_TRANSFER_COMPLETE),
                ..*old(regs)
            }),
    {
        regs.flags = regs.flags & !(1u32 << DMA_FLAG_TRANSFER_COMPLETE);
    }

    /// Clears the half transfer flag.
    pub fn clear_half_transfer(&self, regs: &mut DmaStreamRegisters)
        ensures
            *final(regs) == (
            DmaStreamRegisters {
                flags: old(regs).flags & !(1u32 << DMA_FLAG_HALF_TRANSFER),
                ..*old(regs)
            }),
    {
        regs.flags = regs.flags & !(1u32 << DMA_FLAG_HALF_TRANSFER);
    }

    /// Clears the transfer error flag.
    pub fn clear_transfer_error(&self, regs: &mut DmaStreamRegisters)
        ensures
            *final(regs) == (
            DmaStreamRegisters {
                flags: old(regs).flags & !(1u32 << DMA_FLAG_TRANSFER_ERROR),
                ..*old(regs)
            }),
    {
        regs.flags = regs.flags & !(1u32 << DMA_FLAG_TRANSFER_ERROR);
    }

    /// Clears the FIFO error flag.
    pub fn clear_fifo_error(&self, regs: &mut DmaStreamRegisters)
        ensures
            *final(regs) == (
            DmaStreamRegisters {
                flags: old(regs).flags & !(1u32 << DMA_FLAG_FIFO_ERROR),
                ..*old(regs)
            }),
    {
        regs.flags = regs.flags & !(1u32 << DMA_FLAG_FIFO_ERROR);
    }

    /// Clears the direct mode error flag.
    pub fn clear_direct_mode_error(&self, regs: &mut DmaStreamRegisters)
        ensures
            *final(regs) == (
            DmaStreamRegisters {
                flags: old(regs).flags & !(1u32 << DMA_FLAG_DIRECT_MODE_ERROR),
                ..*old(regs)
            }),
    {
        regs.flags = regs.flags & !(1u32 << DMA_FLAG_DIRECT_MODE_ERROR);
    }
}

} // verus!
