//! Universal synchronous/asynchronous receiver transmitter configuration.

use vstd::prelude::*;

verus! {

/// Configuration settings.
#[derive(Debug, Clone)]
pub struct UsartConfig {
    /// Baudrate
    pub baudrate: u32,
    /// Parity control.
    pub parity: Parity,
    /// Stop bits.
    pub stop_bits: StopBits,
    /// Word length.
    pub word_length: WordLength,
    /// Oversampling mode.
    pub oversampling: OverSampling,
    /// Transmitter enable.
    pub transmitter_enable: bool,
    /// Receiver enable.
    pub receiver_enable: bool,
    /// FIFO mode enable.
    pub fifo_mode: bool,
}

impl Default for UsartConfig {
    /// Returns the default configuration:
    /// - 115200 baud.
    /// - No parity.
    /// - 8 data bits.
    fn default() -> (r: Self)
        ensures
            r == (UsartConfig {
                baudrate: 115200,
                parity: Parity::NoParity,
                stop_bits: StopBits::Bits1,
                word_length: WordLength::Bits8,
                oversampling: OverSampling::Times16,
                transmitter_enable: false,
                receiver_enable: false,
                fifo_mode: true,
            }),
    {
        Self {
            baudrate: 115200,
            parity: Parity::NoParity,
            stop_bits: StopBits::Bits1,
            word_length: WordLength::Bits8,
            oversampling: OverSampling::Times16,
            transmitter_enable: false,
            receiver_enable: false,
            fifo_mode: true,
        }
    }
}

/// Parity.
#[derive(Debug, Clone, Copy, PartialEq, Eq, Structural)]
pub enum Parity {
    /// No parity.
    NoParity,
    /// Even parity.
    Even,
    /// Odd parity.
    Odd,
}

/// Stop bits.
#[derive(Debug, Clone, Copy, PartialEq, Eq, Structural)]
pub enum StopBits {
    /// 1 stop bit.
    Bits1,
    /// 0.5 stop bit.
    Bits0_5,
    /// 2 stop bits.
    Bits2,
    /// 1.5 stop bits.
    Bits1_5,
}

/// Register field encoding of each variant.
pub open spec fn spec_stop_bits_bits(value: StopBits) -> u8 {
    match value {
        StopBits::Bits1 => 0b00,
        StopBits::Bits0_5 => 0b01,
        StopBits::Bits2 => 0b10,
        StopBits::Bits1_5 => 0b11,
    }
}

impl StopBits {
    /// Returns the register field encoding.
    pub fn bits(&self) -> (r: u8)
        ensures
            r == spec_stop_bits_bits(*self),
    {
        match self {
            StopBits::Bits1 => 0b00,
            StopBits::Bits0_5 => 0b01,
            StopBits::Bits2 => 0b10,
            StopBits::Bits1_5 => 0b11,
        }
    }
}

/// Word length including the parity bit.
#[derive(Debug, Clone, Copy, PartialEq, Eq, Structural)]
pub enum WordLength {
    /// 8 bits.
    Bits8,
    /// 9 bits.
    Bits9,
    /// 7 bits.
    Bits7,
}

/// The two word-length register bits (M1, M0) of each variant.
pub open spec fn spec_word_length_bits(value: WordLength) -> (bool, bool) {
    match value {
        WordLength::Bits8 => (false, false),
        WordLength::Bits9 => (false, true),
        WordLength::Bits7 => (true, false),
    }
}

impl WordLength {
    /// Returns (M1, M0) bits tuple.
    pub fn bits(&self) -> (r: (bool, bool))
        ensures
            r == spec_word_length_bits(*self),
    {
        match self {
            Self::Bits8 => (false, false),
            Self::Bits9 => (false, true),
            Self::Bits7 => (true, false),
        }
    }
}

/// Oversampling mode.
#[derive(Debug, Clone, Copy, PartialEq, Eq, Structural)]
pub enum OverSampling {
    /// Oversampling by 16.
    Times16,
    /// Oversampling by 8.
    Times8,
}

/// Register field encoding of each variant.
pub open spec fn spec_over_sampling_bits(value: OverSampling) -> u8 {
    match value {
        OverSampling::Times16 => 0b0,
        OverSampling::Times8 => 0b1,
    }
}

impl OverSampling {
    /// Returns the register field encoding.
    pub fn bits(&self) -> (r: u8)
        ensures
            r == spec_over_sampling_bits(*self),
    {
        match self {
            OverSampling::Times16 => 0b0,
            OverSampling::Times8 => 0b1,
        }
    }
}

/// The oversampling register bit: set for oversampling by eight.
pub open spec fn spec_over_sampling_bit(value: OverSampling) -> bool {
    match value {
        OverSampling::Times16 => false,
        OverSampling::Times8 => true,
    }
}

impl OverSampling {
    /// Returns the register bit encoding.
    pub fn bit(&self) -> (r: bool)
        ensures
            r == spec_over_sampling_bit(*self),
    {
        match self {
            Self::Times16 => false,
            Self::Times8 => true,
        }
    }
}

/// Errors
#[derive(Debug, Clone, Copy, PartialEq, Eq, Structural)]
pub enum Error {
    /// Parity check error.
    Parity,
    /// Framing error.
    Framing,
    /// Receive buffer overrun.
    Overrun,
    /// Noise error.
    Noise,
}
} // verus!
