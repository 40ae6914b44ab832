//! Request multiplexer between peripherals and the DMA controllers.

use vstd::prelude::*;

verus! {

/// DMA request multiplexer inputs.
#[derive(Debug, Clone, Copy, PartialEq, Eq, Structural)]
pub enum DmaRequestInput {
    /// Memory to memory.
    MemoryToMemory,
    /// Generator 0.
    Generator0,
    /// Generator 1.
    Generator1,
    /// Generator 2.
    Generator2,
    /// Generator 3.
    Generator3,
    /// Generator 4.
    Generator4,
    /// Generator 5.
    Generator5,
    /// Generator 6.
    Generator6,
    /// Generator 7.
    Generator7,
    /// ADC1.
    Adc1,
    /// ADC2.
    Adc2,
    /// TIM1 channel 1.
    Tim1Ch1,
    /// TIM1 channel 2.
    Tim1Ch2,
    /// TIM1 channel 3.
    Tim1Ch3,
    /// TIM1 channel 4.
    Tim1Ch4,
    /// TIM1 update.
    Tim1Up,
    /// TIM1 trigger.
    Tim1Trig,
    /// TIM1 COM.
    Tim1Com,
    /// TIM2 channel 1.
    Tim2Ch1,
    /// TIM2 channel 3.
    Tim2Ch2,
    /// TIM2 channel 3.
    Tim2Ch3,
    /// TIM2 channel 4.
    Tim2Ch4,
    /// TIM2 update.
    Tim2Up,
    /// TIM3 channel 1.
    Tim3Ch1,
    /// TIM3 channel 2.
    Tim3Ch2,
    /// TIM3 channel 3.
    Tim3Ch3,
    /// TIM3 channel 4.
    Tim3Ch4,
    /// TIM3 update.
    Tim3Up,
    /// TIM3 trigger.
    Tim3Trig,
    /// TIM4 channel 1.
    Tim4Ch1,
    /// TIM4 channel 2.
    Tim4Ch2,
    /// TIM4 channel 3.
    Tim4Ch3,
    /// TIM4 update.
    Tim4Up,
    /// I2C1 receive.
    I2c1Rx,
    /// I2C1 transmit.
    I2c1Tx,
    /// I2C2 receive.
    I2c2Rx,
    /// I2C2 transmit.
    I2c2Tx,
    /// SPI1 receive.
    Spi1Rx,
    /// SPI1 transmit.
    Spi1Tx,
    /// SPI2 receive.
    Spi2Rx,
    /// SPI2 transmit.
    Spi2Tx,
    /// USART2 receive.
    Usart2Rx,
    /// USART2 transmit.
    Usart2Tx,
    /// USART3 receive.
    Usart3Rx,
    /// USART3 transmit.
    Usart3Tx,
    /// TIM8 channel 1.
    Tim8Ch1,
    /// TIM8 channel 2.
    Tim8Ch2,
    /// TIM8 channel 3.
    Tim8Ch3,
    /// TIM8 channel 4.
    Tim8Ch4,
    /// TIM8 update.
    Tim8Up,
    /// TIM8 trigger.
    Tim8Trig,
    /// TIM8 COM.
    Tim8Com,
    /// TIM5 channel 1.
    Tim5Ch1,
    /// TIM5 channel 2.
    Tim5Ch2,
    /// TIM5 channel 3.
    Tim5Ch3,
    /// TIM5 channel 4.
    Tim5Ch4,
    /// TIM5 update.
    Tim5Up,
    /// TIM5 trigger.
    Tim5Trig,
    /// SPI3 receive.
    Spi3Rx,
    /// SPI3 transmit.
    Spi3Tx,
    /// UART4 receive.
    Uart4Rx,
    /// UART4 transmit.
    Uart4Tx,
    /// UART5 receive.
    Uart5Rx,
    /// UART5 transmit.
    Uart5Tx,
    /// DAC channel 1.
    DacCh1,
    /// DAC channel 2.
    DacCh2,
    /// TIM6 update.
    Tim6Up,
    /// TIM7 update.
    Tim7Up,
    /// USART6 receive.
    Usart6Rx,
    /// USART6 transmit.
    Usart6Tx,
    /// I2C3 receive.
    I2c3Rx,
    /// I2C3 transmit.
    I2c3Tx,
    /// DCMI.
    Dcmi,
    /// CRYP2 input.
    Cryp2In,
    /// CRYP2 output.
    Cryp2Out,
    /// HASH2 input.
    Hash2In,
    /// UART7 receive.
    Uart7Rx,
    /// UART7 transmit.
    Uart7Tx,
    /// UART8 receive.
    Uart8Rx,
    /// UART8 transmit.
    Uart8Tx,
    /// SPI4 receive.
    Spi4Rx,
    /// SPI4 transmit.
    Spi4Tx,
    /// SPI5 receive.
    Spi5Rx,
    /// SPI5 transmit.
    Spi5Tx,
    /// SAI1 A.
    Sai1A,
    /// SAI1 B.
    Sai1B,
    /// SAI2 A.
    Sai2A,
    /// SAI2 B.
    Sai2B,
    /// DSFDM1 filter 4.
    Dfsdm1Flt4,
    /// DSFDM1 filter 5.
    Dfsdm1Flt5,
    /// SPDIF receive DT.
    SpdifRxDt,
    /// SPDIF receive CS.
    SpdifRxCs,
    /// SAI4 A.
    Sai4A,
    /// SAI4 B.
    Sai4B,
    /// DSFDM1 filter 0.
    Dfsdm1Flt0,
    /// DSFDM1 filter 1.
    Dfsdm1Flt1,
    /// DSFDM1 filter 2.
    Dfsdm1Flt2,
    /// DSFDM1 filter 3.
    Dfsdm1Flt3,
    /// TIM15 channel 1.
    Tim15Ch1,
    /// TIM15 update.
    Tim15Up,
    /// TIM15 trigger.
    Tim15Trig,
    /// TIM15 COM.
    Tim15Com,
    /// TIM16 channel 1.
    Tim16Ch1,
    /// TIM16 update.
    Tim16Up,
    /// TIM17 channel 1.
    Tim17Ch1,
    /// TIM17 update.
    Tim17Up,
    /// SAI3 A.
    Sai3A,
    /// SAI3 B.
    Sai3B,
    /// I2C5 receive.
    I2c5Rx,
    /// I2C5 transmit.
    I2c5Tx,
}

/// The multiplexer input number of each variant.
pub open spec fn spec_dma_request_input_number(value: DmaRequestInput) -> u8 {
    match value {
        DmaRequestInput::MemoryToMemory => 0,
        DmaRequestInput::Generator0 => 1,
        DmaRequestInput::Generator1 => 2,
        DmaRequestInput::Generator2 => 3,
        DmaRequestInput::Generator3 => 4,
        DmaRequestInput::Generator4 => 5,
        DmaRequestInput::Generator5 => 6,
        DmaRequestInput::Generator6 => 7,
        DmaRequestInput::Generator7 => 8,
        DmaRequestInput::Adc1 => 9,
        DmaRequestInput::Adc2 => 10,
        DmaRequestInput::Tim1Ch1 => 11,
        DmaRequestInput::Tim1Ch2 => 12,
        DmaRequestInput::Tim1Ch3 => 13,
        DmaRequestInput::Tim1Ch4 => 14,
        DmaRequestInput::Tim1Up => 15,
        DmaRequestInput::Tim1Trig => 16,
        DmaRequestInput::Tim1Com => 17,
        DmaRequestInput::Tim2Ch1 => 18,
        DmaRequestInput::Tim2Ch2 => 19,
        DmaRequestInput::Tim2Ch3 => 20,
        DmaRequestInput::Tim2Ch4 => 21,
        DmaRequestInput::Tim2Up => 22,
        DmaRequestInput::Tim3Ch1 => 23,
        DmaRequestInput::Tim3Ch2 => 24,
        DmaRequestInput::Tim3Ch3 => 25,
        DmaRequestInput::Tim3Ch4 => 26,
        DmaRequestInput::Tim3Up => 27,
        DmaRequestInput::Tim3Trig => 28,
        DmaRequestInput::Tim4Ch1 => 29,
        DmaRequestInput::Tim4Ch2 => 30,
        DmaRequestInput::Tim4Ch3 => 31,
        DmaRequestInput::Tim4Up => 32,
        DmaRequestInput::I2c1Rx => 33,
        DmaRequestInput::I2c1Tx => 34,
        DmaRequestInput::I2c2Rx => 35,
        DmaRequestInput::I2c2Tx => 36,
        DmaRequestInput::Spi1Rx => 37,
        DmaRequestInput::Spi1Tx => 38,
        DmaRequestInput::Spi2Rx => 39,
        DmaRequestInput::Spi2Tx => 40,
        DmaRequestInput::Usart2Rx => 43,
        DmaRequestInput::Usart2Tx => 44,
        DmaRequestInput::Usart3Rx => 45,
        DmaRequestInput::Usart3Tx => 46,
        DmaRequestInput::Tim8Ch1 => 47,
        DmaRequestInput::Tim8Ch2 => 48,
        DmaRequestInput::Tim8Ch3 => 49,
        DmaRequestInput::Tim8Ch4 => 50,
        DmaRequestInput::Tim8Up => 51,
        DmaRequestInput::Tim8Trig => 52,
        DmaRequestInput::Tim8Com => 53,
        DmaRequestInput::Tim5Ch1 => 55,
        DmaRequestInput::Tim5Ch2 => 56,
        DmaRequestInput::Tim5Ch3 => 57,
        DmaRequestInput::Tim5Ch4 => 58,
        DmaRequestInput::Tim5Up => 59,
        DmaRequestInput::Tim5Trig => 60,
        DmaRequestInput::Spi3Rx => 61,
        DmaRequestInput::Spi3Tx => 62,
        DmaRequestInput::Uart4Rx => 63,
        DmaRequestInput::Uart4Tx => 64,
        DmaRequestInput::Uart5Rx => 65,
        DmaRequestInput::Uart5Tx => 66,
        DmaRequestInput::DacCh1 => 67,
        DmaRequestInput::DacCh2 => 68,
        DmaRequestInput::Tim6Up => 69,
        DmaRequestInput::Tim7Up => 70,
        DmaRequestInput::Usart6Rx => 71,
        DmaRequestInput::Usart6Tx => 72,
        DmaRequestInput::I2c3Rx => 73,
        DmaRequestInput::I2c3Tx => 74,
        DmaRequestInput::Dcmi => 75,
        DmaRequestInput::Cryp2In => 76,
        DmaRequestInput::Cryp2Out => 77,
        DmaRequestInput::Hash2In => 78,
        DmaRequestInput::Uart7Rx => 79,
        DmaRequestInput::Uart7Tx => 80,
        DmaRequestInput::Uart8Rx => 81,
        DmaRequestInput::Uart8Tx => 82,
        DmaRequestInput::Spi4Rx => 83,
        DmaRequestInput::Spi4Tx => 84,
        DmaRequestInput::Spi5Rx => 85,
        DmaRequestInput::Spi5Tx => 86,
        DmaRequestInput::Sai1A => 87,
        DmaRequestInput::Sai1B => 88,
        DmaRequestInput::Sai2A => 89,
        DmaRequestInput::Sai2B => 90,
        DmaRequestInput::Dfsdm1Flt4 => 91,
        DmaRequestInput::Dfsdm1Flt5 => 92,
        DmaRequestInput::SpdifRxDt => 93,
        DmaRequestInput::SpdifRxCs => 94,
        DmaRequestInput::Sai4A => 99,
        DmaRequestInput::Sai4B => 100,
        DmaRequestInput::Dfsdm1Flt0 => 101,
        DmaRequestInput::Dfsdm1Flt1 => 102,
        DmaRequestInput::Dfsdm1Flt2 => 103,
        DmaRequestInput::Dfsdm1Flt3 => 104,
        DmaRequestInput::Tim15Ch1 => 105,
        DmaRequestInput::Tim15Up => 106,
        DmaRequestInput::Tim15Trig => 107,
        DmaRequestInput::Tim15Com => 108,
        DmaRequestInput::Tim16Ch1 => 109,
        DmaRequestInput::Tim16Up => 110,
        DmaRequestInput::Tim17Ch1 => 111,
        DmaRequestInput::Tim17Up => 112,
        DmaRequestInput::Sai3A => 113,
        DmaRequestInput::Sai3B => 114,
        DmaRequestInput::I2c5Rx => 115,
        DmaRequestInput::I2c5Tx => 116,
    }
}

impl DmaRequestInput {
    /// Returns the multiplexer input number.
    pub fn number(&self) -> (r: u8)
        ensures
            r == spec_dma_request_input_number(*self),
    {
        match self {
            DmaRequestInput::MemoryToMemory => 0,
            DmaRequestInput::Generator0 => 1,
            DmaRequestInput::Generator1 => 2,
            DmaRequestInput::Generator2 => 3,
            DmaRequestInput::Generator3 => 4,
            DmaRequestInput::Generator4 => 5,
            DmaRequestInput::Generator5 => 6,
            DmaRequestInput::Generator6 => 7,
            DmaRequestInput::Generator7 => 8,
            DmaRequestInput::Adc1 => 9,
            DmaRequestInput::Adc2 => 10,
            DmaRequestInput::Tim1Ch1 => 11,
            DmaRequestInput::Tim1Ch2 => 12,
            DmaRequestInput::Tim1Ch3 => 13,
            DmaRequestInput::Tim1Ch4 => 14,
            DmaRequestInput::Tim1Up => 15,
            DmaRequestInput::Tim1Trig => 16,
            DmaRequestInput::Tim1Com => 17,
            DmaRequestInput::Tim2Ch1 => 18,
            DmaRequestInput::Tim2Ch2 => 19,
            DmaRequestInput::Tim2Ch3 => 20,
            DmaRequestInput::Tim2Ch4 => 21,
            DmaRequestInput::Tim2Up => 22,
            DmaRequestInput::Tim3Ch1 => 23,
            DmaRequestInput::Tim3Ch2 => 24,
            DmaRequestInput::Tim3Ch3 => 25,
            DmaRequestInput::Tim3Ch4 => 26,
            DmaRequestInput::Tim3Up => 27,
            DmaRequestInput::Tim3Trig => 28,
            DmaRequestInput::Tim4Ch1 => 29,
            DmaRequestInput::Tim4Ch2 => 30,
            DmaRequestInput::Tim4Ch3 => 31,
            DmaRequestInput::Tim4Up => 32,
            DmaRequestInput::I2c1Rx => 33,
            DmaRequestInput::I2c1Tx => 34,
            DmaRequestInput::I2c2Rx => 35,
            DmaRequestInput::I2c2Tx => 36,
            DmaRequestInput::Spi1Rx => 37,
            DmaRequestInput::Spi1Tx => 38,
            DmaRequestInput::Spi2Rx => 39,
            DmaRequestInput::Spi2Tx => 40,
            DmaRequestInput::Usart2Rx => 43,
            DmaRequestInput::Usart2Tx => 44,
            DmaRequestInput::Usart3Rx => 45,
            DmaRequestInput::Usart3Tx => 46,
            DmaRequestInput::Tim8Ch1 => 47,
            DmaRequestInput::Tim8Ch2 => 48,
            DmaRequestInput::Tim8Ch3 => 49,
            DmaRequestInput::Tim8Ch4 => 50,
            DmaRequestInput::Tim8Up => 51,
            DmaRequestInput::Tim8Trig => 52,
            DmaRequestInput::Tim8Com => 53,
            DmaRequestInput::Tim5Ch1 => 55,
            DmaRequestInput::Tim5Ch2 => 56,
            DmaRequestInput::Tim5Ch3 => 57,
            DmaRequestInput::Tim5Ch4 => 58,
            DmaRequestInput::Tim5Up => 59,
            DmaRequestInput::Tim5Trig => 60,
            DmaRequestInput::Spi3Rx => 61,
            DmaRequestInput::Spi3Tx => 62,
            DmaRequestInput::Uart4Rx => 63,
            DmaRequestInput::Uart4Tx => 64,
            DmaRequestInput::Uart5Rx => 65,
            DmaRequestInput::Uart5Tx => 66,
            DmaRequestInput::DacCh1 => 67,
            DmaRequestInput::DacCh2 => 68,
            DmaRequestInput::Tim6Up => 69,
            DmaRequestInput::Tim7Up => 70,
            DmaRequestInput::Usart6Rx => 71,
            DmaRequestInput::Usart6Tx => 72,
            DmaRequestInput::I2c3Rx => 73,
            DmaRequestInput::I2c3Tx => 74,
            DmaRequestInput::Dcmi => 75,
            DmaRequestInput::Cryp2In => 76,
            DmaRequestInput::Cryp2Out => 77,
            DmaRequestInput::Hash2In => 78,
            DmaRequestInput::Uart7Rx => 79,
            DmaRequestInput::Uart7Tx => 80,
            DmaRequestInput::Uart8Rx => 81,
            DmaRequestInput::Uart8Tx => 82,
            DmaRequestInput::Spi4Rx => 83,
            DmaRequestInput::Spi4Tx => 84,
            DmaRequestInput::Spi5Rx => 85,
            DmaRequestInput::Spi5Tx => 86,
            DmaRequestInput::Sai1A => 87,
            DmaRequestInput::Sai1B => 88,
            DmaRequestInput::Sai2A => 89,
            DmaRequestInput::Sai2B => 90,
            DmaRequestInput::Dfsdm1Flt4 => 91,
            DmaRequestInput::Dfsdm1Flt5 => 92,
            DmaRequestInput::SpdifRxDt => 93,
            DmaRequestInput::SpdifRxCs => 94,
            DmaRequestInput::Sai4A => 99,
            DmaRequestInput::Sai4B => 100,
            DmaRequestInput::Dfsdm1Flt0 => 101,
            DmaRequestInput::Dfsdm1Flt1 => 102,
            DmaRequestInput::Dfsdm1Flt2 => 103,
            DmaRequestInput::Dfsdm1Flt3 => 104,
            DmaRequestInput::Tim15Ch1 => 105,
            DmaRequestInput::Tim15Up => 106,
            DmaRequestInput::Tim15Trig => 107,
            DmaRequestInput::Tim15Com => 108,
            DmaRequestInput::Tim16Ch1 => 109,
            DmaRequestInput::Tim16Up => 110,
            DmaRequestInput::Tim17Ch1 => 111,
            DmaRequestInput::Tim17Up => 112,
            DmaRequestInput::Sai3A => 113,
            DmaRequestInput::Sai3B => 114,
            DmaRequestInput::I2c5Rx => 115,
            DmaRequestInput::I2c5Tx => 116,
        }
    }
}

/// DMA request synchronization inputs.
#[derive(Debug, Clone, Copy, PartialEq, Eq, Structural)]
pub enum DmaSyncInput {
    /// DMAMUX1 channel 0 event.
    Event0,
    /// DMAMUX1 channel 1 event..
    Event1,
    /// DMAMUX1 channel 2 event..
    Event2,
    /// LPTIMER1 output.
    LpTimer1Out,
    /// LPTIMER2 output.
    LpTimer2Out,
    /// LPTIMER3 output.
    LpTimer3Out,
    /// EXT IO interrupt.
    ExtIo,
    /// TIM12 trigger output.
    Tim12Trgo,
}

/// The multiplexer input number of each variant.
pub open spec fn spec_dma_sync_input_number(value: DmaSyncInput) -> u8 {
    match value {
        DmaSyncInput::Event0 => 0,
        DmaSyncInput::Event1 => 1,
        DmaSyncInput::Event2 => 2,
        DmaSyncInput::LpTimer1Out => 3,
        DmaSyncInput::LpTimer2Out => 4,
        DmaSyncInput::LpTimer3Out => 5,
        DmaSyncInput::ExtIo => 6,
        DmaSyncInput::Tim12Trgo => 7,
    }
}

impl DmaSyncInput {
    /// Returns the multiplexer input number.
    pub fn number(&self) -> (r: u8)
        ensures
            r == spec_dma_sync_input_number(*self),
    {
        match self {
            DmaSyncInput::Event0 => 0,
            DmaSyncInput::Event1 => 1,
            DmaSyncInput::Event2 => 2,
            DmaSyncInput::LpTimer1Out => 3,
            DmaSyncInput::LpTimer2Out => 4,
            DmaSyncInput::LpTimer3Out => 5,
            DmaSyncInput::ExtIo => 6,
            DmaSyncInput::Tim12Trgo => 7,
        }
    }
}
} // verus!
