//! Reset and clock control: clock sources, dividers and oscillators.
//!
//! The clock tree's selector and divider fields are small closed
//! enumerations; each carries the register field encoding it is written as
//! and, for a divider, the division factor it stands for.

use vstd::prelude::*;

verus! {

/// Frequency of the HSE oscillator in Hz.
pub const HSE_FREQUENCY: u32 = 24000000;

/// Returns the frequency of the HSE oscillator in Hz.
pub fn hse_frequency() -> (r: u32)
    ensures
        r == HSE_FREQUENCY,
{
    HSE_FREQUENCY
}

/// Frequency of the CSI oscillator in Hz.
pub const CSI_FREQUENCY: u32 = 4000000;

/// CSI oscillator.
#[derive(Debug, Clone, Copy, PartialEq, Eq, Structural)]
pub struct Csi;

impl Csi {
    /// Returns a new instance of the peripheral.
    pub fn new() -> (r: Self)
        ensures
            r == Csi,
    {
        Self {}
    }

    /// Returns the frequency of the CSI oscillator in Hz.
    pub fn frequency(&self) -> (r: u32)
        ensures
            r == CSI_FREQUENCY,
    {
        CSI_FREQUENCY
    }
}

/// MPU clock source.
#[derive(Debug, Clone, Copy, PartialEq, Eq, Structural)]
pub enum MpuSource {
    /// HSI clock.
    Hsi,
    /// HSE clock.
    Hse,
    /// PLL1 clock.
    Pll1,
    /// PLL1 clock with divider.
    MpuDiv,
}

/// Register field encoding of each variant.
pub open spec fn spec_mpu_source_bits(value: MpuSource) -> u8 {
    match value {
        MpuSource::Hsi => 0b00,
        MpuSource::Hse => 0b01,
        MpuSource::Pll1 => 0b10,
        MpuSource::MpuDiv => 0b11,
    }
}

impl MpuSource {
    /// Returns the register field encoding.
    pub fn bits(&self) -> (r: u8)
        ensures
            r == spec_mpu_source_bits(*self),
    {
        match self {
            MpuSource::Hsi => 0b00,
            MpuSource::Hse => 0b01,
            MpuSource::Pll1 => 0b10,
            MpuSource::MpuDiv => 0b11,
        }
    }
}

/// MPU core clock divider.
#[derive(Debug, Clone, Copy, PartialEq, Eq, Structural)]
pub enum MpuDiv {
    /// Disabled, no clock generated.
    Disabled,
    /// Division by 2.
    Div2,
    /// Division by 4.
    Div4,
    /// Division by 8.
    Div8,
    /// Division by 16.
    Div16,
}

/// Register field encoding of each variant.
pub open spec fn spec_mpu_div_bits(value: MpuDiv) -> u8 {
    match value {
        MpuDiv::Disabled => 0b000,
        MpuDiv::Div2 => 0b001,
        MpuDiv::Div4 => 0b010,
        MpuDiv::Div8 => 0b011,
        MpuDiv::Div16 => 0b100,
    }
}

impl MpuDiv {
    /// Returns the register field encoding.
    pub fn bits(&self) -> (r: u8)
        ensures
            r == spec_mpu_div_bits(*self),
    {
        match self {
            MpuDiv::Disabled => 0b000,
            MpuDiv::Div2 => 0b001,
            MpuDiv::Div4 => 0b010,
            MpuDiv::Div8 => 0b011,
            MpuDiv::Div16 => 0b100,
        }
    }
}

/// The division factor each variant stands for.
pub open spec fn spec_mpu_div_value(value: MpuDiv) -> u32 {
    match value {
        MpuDiv::Disabled => 0,
        MpuDiv::Div2 => 2,
        MpuDiv::Div4 => 4,
        MpuDiv::Div8 => 8,
        MpuDiv::Div16 => 16,
    }
}

impl MpuDiv {
    /// Returns the divider value.
    pub fn value(&self) -> (r: u32)
        ensures
            r == spec_mpu_div_value(*self),
    {
        match self {
            MpuDiv::Disabled => 0,
            MpuDiv::Div2 => 2,
            MpuDiv::Div4 => 4,
            MpuDiv::Div8 => 8,
            MpuDiv::Div16 => 16,
        }
    }
}

/// AXI clock source.
#[derive(Debug, Clone, Copy, PartialEq, Eq, Structural)]
pub enum AxiSource {
    /// HSI clock.
    Hsi,
    /// HSE clock.
    Hse,
    /// PLL2 clock.
    Pll2,
}

/// Register field encoding of each variant.
pub open spec fn spec_axi_source_bits(value: AxiSource) -> u8 {
    match value {
        AxiSource::Hsi => 0b000,
        AxiSource::Hse => 0b001,
        AxiSource::Pll2 => 0b010,
    }
}

impl AxiSource {
    /// Returns the register field encoding.
    pub fn bits(&self) -> (r: u8)
        ensures
            r == spec_axi_source_bits(*self),
    {
        match self {
            AxiSource::Hsi => 0b000,
            AxiSource::Hse => 0b001,
            AxiSource::Pll2 => 0b010,
        }
    }
}

/// AXI clock divider.
#[derive(Debug, Clone, Copy, PartialEq, Eq, Structural)]
pub enum AxiDiv {
    /// Division by 1.
    Div1,
    /// Division by 2.
    Div2,
    /// Division by 3.
    Div3,
    /// Division by 4.
    Div4,
}

/// Register field encoding of each variant.
pub open spec fn spec_axi_div_bits(value: AxiDiv) -> u8 {
    match value {
        AxiDiv::Div1 => 0b000,
        AxiDiv::Div2 => 0b001,
        AxiDiv::Div3 => 0b010,
        AxiDiv::Div4 => 0b011,
    }
}

impl AxiDiv {
    /// Returns the register field encoding.
    pub fn bits(&self) -> (r: u8)
        ensures
            r == spec_axi_div_bits(*self),
    {
        match self {
            AxiDiv::Div1 => 0b000,
            AxiDiv::Div2 => 0b001,
            AxiDiv::Div3 => 0b010,
            AxiDiv::Div4 => 0b011,
        }
    }
}

/// The division factor each variant stands for.
pub open spec fn spec_axi_div_value(value: AxiDiv) -> u32 {
    match value {
        AxiDiv::Div1 => 1,
        AxiDiv::Div2 => 2,
        AxiDiv::Div3 => 3,
        AxiDiv::Div4 => 4,
    }
}

impl AxiDiv {
    /// Returns the divider value.
    pub fn value(&self) -> (r: u32)
        ensures
            r == spec_axi_div_value(*self),
    {
        match self {
            AxiDiv::Div1 => 1,
            AxiDiv::Div2 => 2,
            AxiDiv::Div3 => 3,
            AxiDiv::Div4 => 4,
        }
    }
}

/// MCU clock source.
#[derive(Debug, Clone, Copy, PartialEq, Eq, Structural)]
pub enum McuSource {
    /// HSI clock.
    Hsi,
    /// HSE clock.
    Hse,
    /// CSI clock.
    Csi,
    /// PLL3 clock.
    Pll3,
}

/// Register field encoding of each variant.
pub open spec fn spec_mcu_source_bits(value: McuSource) -> u8 {
    match value {
        McuSource::Hsi => 0b00,
        McuSource::Hse => 0b01,
        McuSource::Csi => 0b10,
        McuSource::Pll3 => 0b11,
    }
}

impl McuSource {
    /// Returns the register field encoding.
    pub fn bits(&self) -> (r: u8)
        ensures
            r == spec_mcu_source_bits(*self),
    {
        match self {
            McuSource::Hsi => 0b00,
            McuSource::Hse => 0b01,
            McuSource::Csi => 0b10,
            McuSource::Pll3 => 0b11,
        }
    }
}

/// MCU clock divider.
#[derive(Debug, Clone, Copy, PartialEq, Eq, Structural)]
pub enum McuDiv {
    /// Division by 1.
    Div1,
    /// Division by 2.
    Div2,
    /// Division by 4.
    Div4,
    /// Division by 8.
    Div8,
    /// Division by 16.
    Div16,
    /// Division by 32.
    Div32,
    /// Division by 64.
    Div64,
    /// Division by 128.
    Div128,
    /// Division by 256.
    Div256,
    /// Division by 512.
    Div512,
}

/// Register field encoding of each variant.
pub open spec fn spec_mcu_div_bits(value: McuDiv) -> u8 {
    match value {
        McuDiv::Div1 => 0b0000,
        McuDiv::Div2 => 0b0001,
        McuDiv::Div4 => 0b0010,
        McuDiv::Div8 => 0b0011,
        McuDiv::Div16 => 0b0100,
        McuDiv::Div32 => 0b0101,
        McuDiv::Div64 => 0b0110,
        McuDiv::Div128 => 0b0111,
        McuDiv::Div256 => 0b1000,
        McuDiv::Div512 => 0b1001,
    }
}

impl McuDiv {
    /// Returns the register field encoding.
    pub fn bits(&self) -> (r: u8)
        ensures
            r == spec_mcu_div_bits(*self),
    {
        match self {
            McuDiv::Div1 => 0b0000,
            McuDiv::Div2 => 0b0001,
            McuDiv::Div4 => 0b0010,
            McuDiv::Div8 => 0b0011,
            McuDiv::Div16 => 0b0100,
            McuDiv::Div32 => 0b0101,
            McuDiv::Div64 => 0b0110,
            McuDiv::Div128 => 0b0111,
            McuDiv::Div256 => 0b1000,
            McuDiv::Div512 => 0b1001,
        }
    }
}

/// The division factor each variant stands for.
pub open spec fn spec_mcu_div_value(value: McuDiv) -> u32 {
    match value {
        McuDiv::Div1 => 1,
        McuDiv::Div2 => 2,
        McuDiv::Div4 => 4,
        McuDiv::Div8 => 8,
        McuDiv::Div16 => 16,
        McuDiv::Div32 => 32,
        McuDiv::Div64 => 64,
        McuDiv::Div128 => 128,
        McuDiv::Div256 => 256,
        McuDiv::Div512 => 512,
    }
}

impl McuDiv {
    /// Returns the divider value.
    pub fn value(&self) -> (r: u32)
        ensures
            r == spec_mcu_div_value(*self),
    {
        match self {
            McuDiv::Div1 => 1,
            McuDiv::Div2 => 2,
            McuDiv::Div4 => 4,
            McuDiv::Div8 => 8,
            McuDiv::Div16 => 16,
            McuDiv::Div32 => 32,
            McuDiv::Div64 => 64,
            McuDiv::Div128 => 128,
            McuDiv::Div256 => 256,
            McuDiv::Div512 => 512,
        }
    }
}

/// APB bus clock divider.
#[derive(Debug, Clone, Copy, PartialEq, Eq, Structural)]
pub enum ApbDiv {
    /// Division by 1.
    Div1,
    /// Division by 2.
    Div2,
    /// Division by 4.
    Div4,
    /// Division by 8.
    Div8,
    /// Division by 16.
    Div16,
}

/// Register field encoding of each variant.
pub open spec fn spec_apb_div_bits(value: ApbDiv) -> u8 {
    match value {
        ApbDiv::Div1 => 0b000,
        ApbDiv::Div2 => 0b001,
        ApbDiv::Div4 => 0b010,
        ApbDiv::Div8 => 0b011,
        ApbDiv::Div16 => 0b100,
    }
}

impl ApbDiv {
    /// Returns the register field encoding.
    pub fn bits(&self) -> (r: u8)
        ensures
            r == spec_apb_div_bits(*self),
    {
        match self {
            ApbDiv::Div1 => 0b000,
            ApbDiv::Div2 => 0b001,
            ApbDiv::Div4 => 0b010,
            ApbDiv::Div8 => 0b011,
            ApbDiv::Div16 => 0b100,
        }
    }
}

/// The division factor each variant stands for.
pub open spec fn spec_apb_div_value(value: ApbDiv) -> u32 {
    match value {
        ApbDiv::Div1 => 1,
        ApbDiv::Div2 => 2,
        ApbDiv::Div4 => 4,
        ApbDiv::Div8 => 8,
        ApbDiv::Div16 => 16,
    }
}

impl ApbDiv {
    /// Returns the divider value.
    pub fn value(&self) -> (r: u32)
        ensures
            r == spec_apb_div_value(*self),
    {
        match self {
            ApbDiv::Div1 => 1,
            ApbDiv::Div2 => 2,
            ApbDiv::Div4 => 4,
            ApbDiv::Div8 => 8,
            ApbDiv::Div16 => 16,
        }
    }
}

/// Peripheral kernel clock source.
#[derive(Debug, Clone, Copy, PartialEq, Eq, Structural)]
pub enum PerSource {
    /// HSI clock.
    Hsi,
    /// CSI clock.
    Csi,
    /// HSE clock.
    Hse,
    /// Disabled.
    Disabled,
}

/// Register field encoding of each variant.
pub open spec fn spec_per_source_bits(value: PerSource) -> u8 {
    match value {
        PerSource::Hsi => 0b00,
        PerSource::Csi => 0b01,
        PerSource::Hse => 0b10,
        PerSource::Disabled => 0b11,
    }
}

impl PerSource {
    /// Returns the register field encoding.
    pub fn bits(&self) -> (r: u8)
        ensures
            r == spec_per_source_bits(*self),
    {
        match self {
            PerSource::Hsi => 0b00,
            PerSource::Csi => 0b01,
            PerSource::Hse => 0b10,
            PerSource::Disabled => 0b11,
        }
    }
}

/// HSI oscillator clock divider.
#[derive(Debug, Clone, Copy, PartialEq, Eq, Structural)]
pub enum HsiDiv {
    /// Division by 1 (64MHz).
    Div1,
    /// Division by 2 (32MHz).
    Div2,
    /// Division by 4 (16MHz).
    Div4,
    /// Division by 8 (8MHz).
    Div8,
}

/// Register field encoding of each variant.
pub open spec fn spec_hsi_div_bits(value: HsiDiv) -> u8 {
    match value {
        HsiDiv::Div1 => 0b00,
        HsiDiv::Div2 => 0b01,
        HsiDiv::Div4 => 0b10,
        HsiDiv::Div8 => 0b11,
    }
}

impl HsiDiv {
    /// Returns the register field encoding.
    pub fn bits(&self) -> (r: u8)
        ensures
            r == spec_hsi_div_bits(*self),
    {
        match self {
            HsiDiv::Div1 => 0b00,
            HsiDiv::Div2 => 0b01,
            HsiDiv::Div4 => 0b10,
            HsiDiv::Div8 => 0b11,
        }
    }
}

/// The division factor each variant stands for.
pub open spec fn spec_hsi_div_value(value: HsiDiv) -> u32 {
    match value {
        HsiDiv::Div1 => 1,
        HsiDiv::Div2 => 2,
        HsiDiv::Div4 => 4,
        HsiDiv::Div8 => 8,
    }
}

impl HsiDiv {
    /// Returns the divider value.
    pub fn value(&self) -> (r: u32)
        ensures
            r == spec_hsi_div_value(*self),
    {
        match self {
            HsiDiv::Div1 => 1,
            HsiDiv::Div2 => 2,
            HsiDiv::Div4 => 4,
            HsiDiv::Div8 => 8,
        }
    }
}

/// Clock source shared by the first two PLLs.
#[derive(Debug, Clone, Copy, PartialEq, Eq, Structural)]
pub enum Pll12Source {
    /// HSI clock.
    Hsi,
    /// HSE clock.
    Hse,
}

/// Register field encoding of each variant.
pub open spec fn spec_pll_1_2_source_bits(value: Pll12Source) -> u8 {
    match value {
        Pll12Source::Hsi => 0b0,
        Pll12Source::Hse => 0b1,
    }
}

impl Pll12Source {
    /// Returns the register field encoding.
    pub fn bits(&self) -> (r: u8)
        ensures
            r == spec_pll_1_2_source_bits(*self),
    {
        match self {
            Pll12Source::Hsi => 0b0,
            Pll12Source::Hse => 0b1,
        }
    }
}

/// Clock source of the third PLL.
#[derive(Debug, Clone, Copy, PartialEq, Eq, Structural)]
pub enum Pll3Source {
    /// HSI clock.
    Hsi,
    /// HSE clock.
    Hse,
    /// CSI clock.
    Csi,
}

/// Register field encoding of each variant.
pub open spec fn spec_pll_3_source_bits(value: Pll3Source) -> u8 {
    match value {
        Pll3Source::Hsi => 0b00,
        Pll3Source::Hse => 0b01,
        Pll3Source::Csi => 0b10,
    }
}

impl Pll3Source {
    /// Returns the register field encoding.
    pub fn bits(&self) -> (r: u8)
        ensures
            r == spec_pll_3_source_bits(*self),
    {
        match self {
            Pll3Source::Hsi => 0b00,
            Pll3Source::Hse => 0b01,
            Pll3Source::Csi => 0b10,
        }
    }
}

/// Input frequency range of the third PLL, in MHz.
#[derive(Debug, Clone, Copy, PartialEq, Eq, Structural)]
pub enum Pll3InputFreqRange {
    /// 4MHz to 8MHz.
    From4To8,
    /// 8MHz to 16 MHz.
    From8To16,
}

/// Register field encoding of each variant.
pub open spec fn spec_pll_3_input_freq_range_bits(value: Pll3InputFreqRange) -> u8 {
    match value {
        Pll3InputFreqRange::From4To8 => 0b0,
        Pll3InputFreqRange::From8To16 => 0b1,
    }
}

impl Pll3InputFreqRange {
    /// Returns the register field encoding.
    pub fn bits(&self) -> (r: u8)
        ensures
            r == spec_pll_3_input_freq_range_bits(*self),
    {
        match self {
            Pll3InputFreqRange::From4To8 => 0b0,
            Pll3InputFreqRange::From8To16 => 0b1,
        }
    }
}

/// Clock source of the fourth PLL.
#[derive(Debug, Clone, Copy, PartialEq, Eq, Structural)]
pub enum Pll4Source {
    /// HSI clock.
    Hsi,
    /// HSE clock.
    Hse,
    /// CSI clock.
    Csi,
    /// I2S clock input.
    I2sClockIn,
}

/// Register field encoding of each variant.
pub open spec fn spec_pll_4_source_bits(value: Pll4Source) -> u8 {
    match value {
        Pll4Source::Hsi => 0b00,
        Pll4Source::Hse => 0b01,
        Pll4Source::Csi => 0b10,
        Pll4Source::I2sClockIn => 0b11,
    }
}

impl Pll4Source {
    /// Returns the register field encoding.
    pub fn bits(&self) -> (r: u8)
        ensures
            r == spec_pll_4_source_bits(*self),
    {
        match self {
            Pll4Source::Hsi => 0b00,
            Pll4Source::Hse => 0b01,
            Pll4Source::Csi => 0b10,
            Pll4Source::I2sClockIn => 0b11,
        }
    }
}

/// Input frequency range of the fourth PLL, in MHz.
#[derive(Debug, Clone, Copy, PartialEq, Eq, Structural)]
pub enum Pll4InputFreqRange {
    /// 4MHz to 8MHz.
    From4To8,
    /// 8MHz to 16 MHz.
    From8To16,
}

/// Register field encoding of each variant.
pub open spec fn spec_pll_4_input_freq_range_bits(value: Pll4InputFreqRange) -> u8 {
    match value {
        Pll4InputFreqRange::From4To8 => 0b0,
        Pll4InputFreqRange::From8To16 => 0b1,
    }
}

impl Pll4InputFreqRange {
    /// Returns the register field encoding.
    pub fn bits(&self) -> (r: u8)
        ensures
            r == spec_pll_4_input_freq_range_bits(*self),
    {
        match self {
            Pll4InputFreqRange::From4To8 => 0b0,
            Pll4InputFreqRange::From8To16 => 0b1,
        }
    }
}
} // verus!
