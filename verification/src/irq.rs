//! Interrupts.
//!
//! The interrupt numbers of the platform, and the routing operations the
//! boot and wake protocol performs on the shared interrupt controller.

use vstd::prelude::*;

use crate::gic;
use crate::gic::GicState;
use crate::gic::MAX_IRQ;

verus! {

/// IRQ numbers.
#[allow(non_camel_case_types)]
#[derive(Debug, Clone, Copy, PartialEq, Eq, Structural)]
pub enum Irqn {
    /// Software Generated Interrupt  0.
    SGI0,
    /// Software Generated Interrupt  1.
    SGI1,
    /// Software Generated Interrupt  2.
    SGI2,
    /// Software Generated Interrupt  3.
    SGI3,
    /// Software Generated Interrupt  4.
    SGI4,
    /// Software Generated Interrupt  5.
    SGI5,
    /// Software Generated Interrupt  6.
    SGI6,
    /// Software Generated Interrupt  7.
    SGI7,
    /// Software Generated Interrupt  8.
    SGI8,
    /// Software Generated Interrupt  9.
    SGI9,
    /// Software Generated Interrupt 10.
    SGI10,
    /// Software Generated Interrupt 11.
    SGI11,
    /// Software Generated Interrupt 12.
    SGI12,
    /// Software Generated Interrupt 13.
    SGI13,
    /// Software Generated Interrupt 14.
    SGI14,
    /// Software Generated Interrupt 15.
    SGI15,
    /// Virtual Maintenance Interrupt.
    VirtualMaintenanceInterrupt,
    /// Hypervisor Timer Interrupt.
    HypervisorTimer,
    /// Virtual Timer Interrupt.
    VirtualTimer,
    /// Legacy nFIQ Interrupt.
    Legacy_nFIQ,
    /// Secure Physical Timer Interrupt.
    SecurePhysicalTimer,
    /// Non-Secure Physical Timer Interrupt.
    NonSecurePhysicalTimer,
    /// Legacy nIRQ Interrupt.
    Legacy_nIRQ,
    /// Window WatchDog Interrupt.
    WWDG1,
    /// PVD & AVD detector through EXTI.
    PVD_AVD,
    /// Tamper interrupts through the EXTI line.
    TAMP,
    /// RTC Wakeup and Alarm (A & B) interrupt through the EXTI line.
    RTC_WKUP_ALARM,
    /// TrustZone DDR address space controller.
    TZC_IT,
    /// RCC global Interrupt.
    RCC,
    /// EXTI Line0 Interrupt.
    EXTI0,
    /// EXTI Line1 Interrupt.
    EXTI1,
    /// EXTI Line2 Interrupt.
    EXTI2,
    /// EXTI Line3 Interrupt.
    EXTI3,
    /// EXTI Line4 Interrupt.
    EXTI4,
    /// DMA1 Stream 0 global Interrupt.
    DMA1_Stream0,
    /// DMA1 Stream 1 global Interrupt.
    DMA1_Stream1,
    /// DMA1 Stream 2 global Interrupt.
    DMA1_Stream2,
    /// DMA1 Stream 3 global Interrupt.
    DMA1_Stream3,
    /// DMA1 Stream 4 global Interrupt.
    DMA1_Stream4,
    /// DMA1 Stream 5 global Interrupt.
    DMA1_Stream5,
    /// DMA1 Stream 6 global Interrupt.
    DMA1_Stream6,
    /// ADC1 global Interrupts.
    ADC1,
    /// FDCAN1 Interrupt line 0.
    FDCAN1_IT0,
    /// FDCAN2 Interrupt line 0.
    FDCAN2_IT0,
    /// FDCAN1 Interrupt line 1.
    FDCAN1_IT1,
    /// FDCAN2 Interrupt line 1.
    FDCAN2_IT1,
    /// External Line[9:5] Interrupts.
    EXTI5,
    /// TIM1 Break interrupt.
    TIM1_BRK,
    /// TIM1 Update interrupt.
    TIM1_UP,
    /// TIM1 Trigger and Commutation interrupt.
    TIM1_TRG_COM,
    /// TIM1 Capture Compare interrupt.
    TIM1_CC,
    /// TIM2 global interrupt.
    TIM2,
    /// TIM3 global interrupt.
    TIM3,
    /// TIM4 global interrupt.
    TIM4,
    /// I2C1 Event interrupt.
    I2C1_EV,
    /// I2C1 Error interrupt.
    I2C1_ER,
    /// I2C2 Event interrupt.
    I2C2_EV,
    /// I2C2 Error interrupt.
    I2C2_ER,
    /// SPI1 global interrupt.
    SPI1,
    /// SPI2 global interrupt.
    SPI2,
    /// USART1 global interrupt.
    USART1,
    /// USART2 global interrupt.
    USART2,
    /// USART3 global interrupt.
    USART3,
    /// EXTI Line 10 interrupt.
    EXTI10,
    /// RTC TimeStamp through EXTI Line interrupt.
    RTC_TIMESTAMP,
    /// EXTI Line 11 interrupt.
    EXTI11,
    /// TIM8 Break interrupt.
    TIM8_BRK,
    /// TIM8 Update interrupt.
    TIM8_UP,
    /// TIM8 Trigger and Commutation interrupt.
    TIM8_TRG_COM,
    /// TIM8 Capture Compare interrupt.
    TIM8_CC,
    /// DMA1 Stream7 interrupt.
    DMA1_Stream7,
    /// FMC global interrupt.
    FMC,
    /// SDMMC1 global interrupt.
    SDMMC1,
    /// TIM5 global interrupt.
    TIM5,
    /// SPI3 global interrupt.
    SPI3,
    /// UART4 global interrupt.
    UART4,
    /// UART5 global interrupt.
    UART5,
    /// TIM6 global interrupt.
    TIM6,
    /// TIM7 global interrupt.
    TIM7,
    /// DMA2 Stream 0 global interrupt.
    DMA2_Stream0,
    /// DMA2 Stream 1 global interrupt.
    DMA2_Stream1,
    /// DMA2 Stream 2 global interrupt.
    DMA2_Stream2,
    /// GPDMA2 Stream 3 global interrupt.
    DMA2_Stream3,
    /// GPDMA2 Stream 4 global interrupt.
    DMA2_Stream4,
    /// Ethernet global interrupt.
    ETH1,
    /// Ethernet Wakeup through EXTI line interrupt.
    ETH1_WKUP,
    /// CAN calibration unit interrupt.
    FDCAN_CAL,
    /// EXTI Line 6 interrupt.
    EXTI6,
    /// EXTI Line 7 interrupt.
    EXTI7,
    /// EXTI Line 8 interrupt.
    EXTI8,
    /// EXTI Line 9 interrupt.
    EXTI9,
    /// DMA2 Stream 5 global interrupt.
    DMA2_Stream5,
    /// DMA2 Stream 6 global interrupt
    DMA2_Stream6,
    /// DMA2 Stream 7 global interrupt
    DMA2_Stream7,
    /// USART6 global interrupt.
    USART6,
    /// I2C3 event interrupt.
    I2C3_EV,
    /// I2C3 error interrupt.
    I2C3_ER,
    /// USB OHCI global interrupt.
    USBH_OHCI,
    /// USB EHCI global interrupt.
    USBH_EHCI,
    /// EXTI Line 76 interrupt.
    EXTI12,
    /// EXTI Line 77 interrupt.
    EXTI13,
    /// DCMI global interrupt.
    DCMI,
    /// CRYP crypto global interrupt.
    CRYP1,
    /// Hash global interrupt.
    HASH1,
    /// reserved
    RESERVED_113,
    /// UART7 global interrupt.
    UART7,
    /// UART8 global interrupt.
    UART8,
    /// SPI4 global interrupt.
    SPI4,
    /// SPI5 global interrupt.
    SPI5,
    /// SPI6 global interrupt.
    SPI6,
    /// SAI1 global interrupt.
    SAI1,
    /// LTDC global interrupt.
    LTDC,
    /// LTDC Error global interrupt.
    LTDC_ER,
    /// ADC2 global interrupt.
    ADC2,
    /// SAI2 global interrupt.
    SAI2,
    /// Quad SPI global interrupt.
    QUADSPI,
    /// LP TIM1 interrupt.
    LPTIM1,
    /// HDMI-CEC global interrupt.
    CEC,
    /// I2C4 Event interrupt.
    I2C4_EV,
    /// I2C4 Error interrupt.
    I2C4_ER,
    /// SPDIF-RX global interrupt.
    SPDIF_RX,
    /// USB On The Go global interrupt.
    OTG,
    /// RESERVED interrupt.
    RESERVED_131,
    /// IPCC RX0 Occupied interrupt (interrupt going to AIEC input as well).
    IPCC_RX0,
    /// IPCC TX0 Free interrupt (interrupt going to AIEC input as well).
    IPCC_TX0,
    /// DMAMUX1 Overrun interrupt.
    DMAMUX1_OVR,
    /// IPCC RX1 Occupied interrupt (interrupt going to AIEC input as well).
    IPCC_RX1,
    /// IPCC TX1 Free interrupt (interrupt going to AIEC input as well).
    IPCC_TX1,
    /// CRYP2 crypto global interrupt.
    CRYP2,
    /// Crypto Hash2 interrupt.
    HASH2,
    /// I2C5 Event interrupt.
    I2C5_EV,
    /// I2C5 Error interrupt.
    I2C5_ER,
    /// GPU global interrupt.
    GPU,
    /// DFSDM Filter1 interrupt.
    DFSDM1_FLT0,
    /// DFSDM Filter2 interrupt.
    DFSDM1_FLT1,
    /// DFSDM Filter3 interrupt.
    DFSDM1_FLT2,
    /// DFSDM Filter4 interrupt.
    DFSDM1_FLT3,
    /// SAI3 global interrupt.
    SAI3,
    /// DFSDM Filter5 interrupt.
    DFSDM1_FLT4,
    /// TIM15 global interrupt.
    TIM15,
    /// TIM16 global interrupt.
    TIM16,
    /// TIM17 global interrupt.
    TIM17,
    /// TIM12 global interrupt.
    TIM12,
    /// MDIOS global interrupt.
    MDIOS,
    /// EXTI Line 14 interrupt.
    EXTI14,
    /// MDMA global interrupt.
    MDMA,
    /// DSI global interrupt.
    DSI,
    /// SDMMC2 global interrupt.
    SDMMC2,
    /// HSEM Semaphore interrupt 1.
    HSEM_IT1,
    /// DFSDM Filter6 interrupt.
    DFSDM1_FLT5,
    /// EXTI Line 15 Interrupts.
    EXTI15,
    /// MDMA global Secure interrupt.
    MDMA_SEC_IT,
    /// MCU local Reset Request.
    SYSRESETQ,
    /// TIM13 global interrupt.
    TIM13,
    /// TIM14 global interrupt.
    TIM14,
    /// DAC1 and DAC2 underrun error interrupt.
    DAC,
    /// RNG1 interrupt.
    RNG1,
    /// RNG2 interrupt.
    RNG2,
    /// I2C6 Event interrupt.
    I2C6_EV,
    /// I2C6 Error interrupt.
    I2C6_ER,
    /// SDMMC3 global interrupt.
    SDMMC3,
    /// LP TIM2 global interrupt.
    LPTIM2,
    /// LP TIM3 global interrupt.
    LPTIM3,
    /// LP TIM4 global interrupt.
    LPTIM4,
    /// LP TIM5 global interrupt.
    LPTIM5,
    /// ETH1_LPI interrupt (LPI: lpi_intr_o).
    ETH1_LPI,
    /// Window Watchdog 1 Reset through AIEC.
    WWDG1_RST,
    /// MCU Send Event interrupt.
    MCU_SEV,
    /// RCC Wake up interrupt.
    RCC_WAKEUP,
    /// SAI4 global interrupt.
    SAI4,
    /// Temperature sensor Global interrupt.
    DTS,
    /// reserved.
    RESERVED_180,
    /// Interrupt for all 6 wake-up pins.
    WAKEUP_PIN,
    /// IWDG1 Early interrupt.
    IWDG1,
    /// IWDG2 Early interrupt.
    IWDG2,
    /// TAMP Tamper and Security Error Secure interrupts.
    TAMP_SERR_S,
    /// RTC Wakeup Timer and Alarms (A and B) Secure interrupt.
    RTC_WKUP_ALARM_S,
    /// RTC TimeStamp and Security Error Secure interrupt.
    RTC_TS_SERR_S,
}

/// The interrupt number of each interrupt line.
pub open spec fn spec_irq_number(irqn: Irqn) -> u32 {
    match irqn {
        Irqn::SGI0 => 0,
        Irqn::SGI1 => 1,
        Irqn::SGI2 => 2,
        Irqn::SGI3 => 3,
        Irqn::SGI4 => 4,
        Irqn::SGI5 => 5,
        Irqn::SGI6 => 6,
        Irqn::SGI7 => 7,
        Irqn::SGI8 => 8,
        Irqn::SGI9 => 9,
        Irqn::SGI10 => 10,
        Irqn::SGI11 => 11,
        Irqn::SGI12 => 12,
        Irqn::SGI13 => 13,
        Irqn::SGI14 => 14,
        Irqn::SGI15 => 15,
        Irqn::VirtualMaintenanceInterrupt => 25,
        Irqn::HypervisorTimer => 26,
        Irqn::VirtualTimer => 27,
        Irqn::Legacy_nFIQ => 28,
        Irqn::SecurePhysicalTimer => 29,
        Irqn::NonSecurePhysicalTimer => 30,
        Irqn::Legacy_nIRQ => 31,
        Irqn::WWDG1 => 32,
        Irqn::PVD_AVD => 33,
        Irqn::TAMP => 34,
        Irqn::RTC_WKUP_ALARM => 35,
        Irqn::TZC_IT => 36,
        Irqn::RCC => 37,
        Irqn::EXTI0 => 38,
        Irqn::EXTI1 => 39,
        Irqn::EXTI2 => 40,
        Irqn::EXTI3 => 41,
        Irqn::EXTI4 => 42,
        Irqn::DMA1_Stream0 => 43,
        Irqn::DMA1_Stream1 => 44,
        Irqn::DMA1_Stream2 => 45,
        Irqn::DMA1_Stream3 => 46,
        Irqn::DMA1_Stream4 => 47,
        Irqn::DMA1_Stream5 => 48,
        Irqn::DMA1_Stream6 => 49,
        Irqn::ADC1 => 50,
        Irqn::FDCAN1_IT0 => 51,
        Irqn::FDCAN2_IT0 => 52,
        Irqn::FDCAN1_IT1 => 53,
        Irqn::FDCAN2_IT1 => 54,
        Irqn::EXTI5 => 55,
        Irqn::TIM1_BRK => 56,
        Irqn::TIM1_UP => 57,
        Irqn::TIM1_TRG_COM => 58,
        Irqn::TIM1_CC => 59,
        Irqn::TIM2 => 60,
        Irqn::TIM3 => 61,
        Irqn::TIM4 => 62,
        Irqn::I2C1_EV => 63,
        Irqn::I2C1_ER => 64,
        Irqn::I2C2_EV => 65,
        Irqn::I2C2_ER => 66,
        Irqn::SPI1 => 67,
        Irqn::SPI2 => 68,
        Irqn::USART1 => 69,
        Irqn::USART2 => 70,
        Irqn::USART3 => 71,
        Irqn::EXTI10 => 72,
        Irqn::RTC_TIMESTAMP => 73,
        Irqn::EXTI11 => 74,
        Irqn::TIM8_BRK => 75,
        Irqn::TIM8_UP => 76,
        Irqn::TIM8_TRG_COM => 77,
        Irqn::TIM8_CC => 78,
        Irqn::DMA1_Stream7 => 79,
        Irqn::FMC => 80,
        Irqn::SDMMC1 => 81,
        Irqn::TIM5 => 82,
        Irqn::SPI3 => 83,
        Irqn::UART4 => 84,
        Irqn::UART5 => 85,
        Irqn::TIM6 => 86,
        Irqn::TIM7 => 87,
        Irqn::DMA2_Stream0 => 88,
        Irqn::DMA2_Stream1 => 89,
        Irqn::DMA2_Stream2 => 90,
        Irqn::DMA2_Stream3 => 91,
        Irqn::DMA2_Stream4 => 92,
        Irqn::ETH1 => 93,
        Irqn::ETH1_WKUP => 94,
        Irqn::FDCAN_CAL => 95,
        Irqn::EXTI6 => 96,
        Irqn::EXTI7 => 97,
        Irqn::EXTI8 => 98,
        Irqn::EXTI9 => 99,
        Irqn::DMA2_Stream5 => 100,
        Irqn::DMA2_Stream6 => 101,
        Irqn::DMA2_Stream7 => 102,
        Irqn::USART6 => 103,
        Irqn::I2C3_EV => 104,
        Irqn::I2C3_ER => 105,
        Irqn::USBH_OHCI => 106,
        Irqn::USBH_EHCI => 107,
        Irqn::EXTI12 => 108,
        Irqn::EXTI13 => 109,
        Irqn::DCMI => 110,
        Irqn::CRYP1 => 111,
        Irqn::HASH1 => 112,
        Irqn::RESERVED_113 => 113,
        Irqn::UART7 => 114,
        Irqn::UART8 => 115,
        Irqn::SPI4 => 116,
        Irqn::SPI5 => 117,
        Irqn::SPI6 => 118,
        Irqn::SAI1 => 119,
        Irqn::LTDC => 120,
        Irqn::LTDC_ER => 121,
        Irqn::ADC2 => 122,
        Irqn::SAI2 => 123,
        Irqn::QUADSPI => 124,
        Irqn::LPTIM1 => 125,
        Irqn::CEC => 126,
        Irqn::I2C4_EV => 127,
        Irqn::I2C4_ER => 128,
        Irqn::SPDIF_RX => 129,
        Irqn::OTG => 130,
        Irqn::RESERVED_131 => 131,
        Irqn::IPCC_RX0 => 132,
        Irqn::IPCC_TX0 => 133,
        Irqn::DMAMUX1_OVR => 134,
        Irqn::IPCC_RX1 => 135,
        Irqn::IPCC_TX1 => 136,
        Irqn::CRYP2 => 137,
        Irqn::HASH2 => 138,
        Irqn::I2C5_EV => 139,
        Irqn::I2C5_ER => 140,
        Irqn::GPU => 141,
        Irqn::DFSDM1_FLT0 => 142,
        Irqn::DFSDM1_FLT1 => 143,
        Irqn::DFSDM1_FLT2 => 144,
        Irqn::DFSDM1_FLT3 => 145,
        Irqn::SAI3 => 146,
        Irqn::DFSDM1_FLT4 => 147,
        Irqn::TIM15 => 148,
        Irqn::TIM16 => 149,
        Irqn::TIM17 => 150,
        Irqn::TIM12 => 151,
        Irqn::MDIOS => 152,
        Irqn::EXTI14 => 153,
        Irqn::MDMA => 154,
        Irqn::DSI => 155,
        Irqn::SDMMC2 => 156,
        Irqn::HSEM_IT1 => 157,
        Irqn::DFSDM1_FLT5 => 158,
        Irqn::EXTI15 => 159,
        Irqn::MDMA_SEC_IT => 160,
        Irqn::SYSRESETQ => 161,
        Irqn::TIM13 => 162,
        Irqn::TIM14 => 163,
        Irqn::DAC => 164,
        Irqn::RNG1 => 165,
        Irqn::RNG2 => 166,
        Irqn::I2C6_EV => 167,
        Irqn::I2C6_ER => 168,
        Irqn::SDMMC3 => 169,
        Irqn::LPTIM2 => 170,
        Irqn::LPTIM3 => 171,
        Irqn::LPTIM4 => 172,
        Irqn::LPTIM5 => 173,
        Irqn::ETH1_LPI => 174,
        Irqn::WWDG1_RST => 175,
        Irqn::MCU_SEV => 176,
        Irqn::RCC_WAKEUP => 177,
        Irqn::SAI4 => 178,
        Irqn::DTS => 179,
        Irqn::RESERVED_180 => 180,
        Irqn::WAKEUP_PIN => 181,
        Irqn::IWDG1 => 182,
        Irqn::IWDG2 => 183,
        Irqn::TAMP_SERR_S => 229,
        Irqn::RTC_WKUP_ALARM_S => 230,
        Irqn::RTC_TS_SERR_S => 231,
    }
}

impl Irqn {
    /// Returns the interrupt number of this line.
    pub fn number(&self) -> (r: u32)
        ensures
            r == spec_irq_number(*self),
            r < MAX_IRQ,
    {
        match self {
            Irqn::SGI0 => 0,
            Irqn::SGI1 => 1,
            Irqn::SGI2 => 2,
            Irqn::SGI3 => 3,
            Irqn::SGI4 => 4,
            Irqn::SGI5 => 5,
            Irqn::SGI6 => 6,
            Irqn::SGI7 => 7,
            Irqn::SGI8 => 8,
            Irqn::SGI9 => 9,
            Irqn::SGI10 => 10,
            Irqn::SGI11 => 11,
            Irqn::SGI12 => 12,
            Irqn::SGI13 => 13,
            Irqn::SGI14 => 14,
            Irqn::SGI15 => 15,
            Irqn::VirtualMaintenanceInterrupt => 25,
            Irqn::HypervisorTimer => 26,
            Irqn::VirtualTimer => 27,
            Irqn::Legacy_nFIQ => 28,
            Irqn::SecurePhysicalTimer => 29,
            Irqn::NonSecurePhysicalTimer => 30,
            Irqn::Legacy_nIRQ => 31,
            Irqn::WWDG1 => 32,
            Irqn::PVD_AVD => 33,
            Irqn::TAMP => 34,
            Irqn::RTC_WKUP_ALARM => 35,
            Irqn::TZC_IT => 36,
            Irqn::RCC => 37,
            Irqn::EXTI0 => 38,
            Irqn::EXTI1 => 39,
            Irqn::EXTI2 => 40,
            Irqn::EXTI3 => 41,
            Irqn::EXTI4 => 42,
            Irqn::DMA1_Stream0 => 43,
            Irqn::DMA1_Stream1 => 44,
            Irqn::DMA1_Stream2 => 45,
            Irqn::DMA1_Stream3 => 46,
            Irqn::DMA1_Stream4 => 47,
            Irqn::DMA1_Stream5 => 48,
            Irqn::DMA1_Stream6 => 49,
            Irqn::ADC1 => 50,
            Irqn::FDCAN1_IT0 => 51,
            Irqn::FDCAN2_IT0 => 52,
            Irqn::FDCAN1_IT1 => 53,
            Irqn::FDCAN2_IT1 => 54,
            Irqn::EXTI5 => 55,
            Irqn::TIM1_BRK => 56,
            Irqn::TIM1_UP => 57,
            Irqn::TIM1_TRG_COM => 58,
            Irqn::TIM1_CC => 59,
            Irqn::TIM2 => 60,
            Irqn::TIM3 => 61,
            Irqn::TIM4 => 62,
            Irqn::I2C1_EV => 63,
            Irqn::I2C1_ER => 64,
            Irqn::I2C2_EV => 65,
            Irqn::I2C2_ER => 66,
            Irqn::SPI1 => 67,
            Irqn::SPI2 => 68,
            Irqn::USART1 => 69,
            Irqn::USART2 => 70,
            Irqn::USART3 => 71,
            Irqn::EXTI10 => 72,
            Irqn::RTC_TIMESTAMP => 73,
            Irqn::EXTI11 => 74,
            Irqn::TIM8_BRK => 75,
            Irqn::TIM8_UP => 76,
            Irqn::TIM8_TRG_COM => 77,
            Irqn::TIM8_CC => 78,
            Irqn::DMA1_Stream7 => 79,
            Irqn::FMC => 80,
            Irqn::SDMMC1 => 81,
            Irqn::TIM5 => 82,
            Irqn::SPI3 => 83,
            Irqn::UART4 => 84,
            Irqn::UART5 => 85,
            Irqn::TIM6 => 86,
            Irqn::TIM7 => 87,
            Irqn::DMA2_Stream0 => 88,
            Irqn::DMA2_Stream1 => 89,
            Irqn::DMA2_Stream2 => 90,
            Irqn::DMA2_Stream3 => 91,
            Irqn::DMA2_Stream4 => 92,
            Irqn::ETH1 => 93,
            Irqn::ETH1_WKUP => 94,
            Irqn::FDCAN_CAL => 95,
            Irqn::EXTI6 => 96,
            Irqn::EXTI7 => 97,
            Irqn::EXTI8 => 98,
            Irqn::EXTI9 => 99,
            Irqn::DMA2_Stream5 => 100,
            Irqn::DMA2_Stream6 => 101,
            Irqn::DMA2_Stream7 => 102,
            Irqn::USART6 => 103,
            Irqn::I2C3_EV => 104,
            Irqn::I2C3_ER => 105,
            Irqn::USBH_OHCI => 106,
            Irqn::USBH_EHCI => 107,
            Irqn::EXTI12 => 108,
            Irqn::EXTI13 => 109,
            Irqn::DCMI => 110,
            Irqn::CRYP1 => 111,
            Irqn::HASH1 => 112,
            Irqn::RESERVED_113 => 113,
            Irqn::UART7 => 114,
            Irqn::UART8 => 115,
            Irqn::SPI4 => 116,
            Irqn::SPI5 => 117,
            Irqn::SPI6 => 118,
            Irqn::SAI1 => 119,
            Irqn::LTDC => 120,
            Irqn::LTDC_ER => 121,
            Irqn::ADC2 => 122,
            Irqn::SAI2 => 123,
            Irqn::QUADSPI => 124,
            Irqn::LPTIM1 => 125,
            Irqn::CEC => 126,
            Irqn::I2C4_EV => 127,
            Irqn::I2C4_ER => 128,
            Irqn::SPDIF_RX => 129,
            Irqn::OTG => 130,
            Irqn::RESERVED_131 => 131,
            Irqn::IPCC_RX0 => 132,
            Irqn::IPCC_TX0 => 133,
            Irqn::DMAMUX1_OVR => 134,
            Irqn::IPCC_RX1 => 135,
            Irqn::IPCC_TX1 => 136,
            Irqn::CRYP2 => 137,
            Irqn::HASH2 => 138,
            Irqn::I2C5_EV => 139,
            Irqn::I2C5_ER => 140,
            Irqn::GPU => 141,
            Irqn::DFSDM1_FLT0 => 142,
            Irqn::DFSDM1_FLT1 => 143,
            Irqn::DFSDM1_FLT2 => 144,
            Irqn::DFSDM1_FLT3 => 145,
            Irqn::SAI3 => 146,
            Irqn::DFSDM1_FLT4 => 147,
            Irqn::TIM15 => 148,
            Irqn::TIM16 => 149,
            Irqn::TIM17 => 150,
            Irqn::TIM12 => 151,
            Irqn::MDIOS => 152,
            Irqn::EXTI14 => 153,
            Irqn::MDMA => 154,
            Irqn::DSI => 155,
            Irqn::SDMMC2 => 156,
            Irqn::HSEM_IT1 => 157,
            Irqn::DFSDM1_FLT5 => 158,
            Irqn::EXTI15 => 159,
            Irqn::MDMA_SEC_IT => 160,
            Irqn::SYSRESETQ => 161,
            Irqn::TIM13 => 162,
            Irqn::TIM14 => 163,
            Irqn::DAC => 164,
            Irqn::RNG1 => 165,
            Irqn::RNG2 => 166,
            Irqn::I2C6_EV => 167,
            Irqn::I2C6_ER => 168,
            Irqn::SDMMC3 => 169,
            Irqn::LPTIM2 => 170,
            Irqn::LPTIM3 => 171,
            Irqn::LPTIM4 => 172,
            Irqn::LPTIM5 => 173,
            Irqn::ETH1_LPI => 174,
            Irqn::WWDG1_RST => 175,
            Irqn::MCU_SEV => 176,
            Irqn::RCC_WAKEUP => 177,
            Irqn::SAI4 => 178,
            Irqn::DTS => 179,
            Irqn::RESERVED_180 => 180,
            Irqn::WAKEUP_PIN => 181,
            Irqn::IWDG1 => 182,
            Irqn::IWDG2 => 183,
            Irqn::TAMP_SERR_S => 229,
            Irqn::RTC_WKUP_ALARM_S => 230,
            Irqn::RTC_TS_SERR_S => 231,
        }
    }
}

/// Enables an interrupt.
pub fn enable_irq(g: &mut GicState, irqn: Irqn)
    requires
        old(g).wf(),
    ensures
        final(g).wf(),
        *final(g) == (GicState { isenabler: final(g).isenabler, ..*old(g) }),
        final(g).spec_enabled(spec_irq_number(irqn)) == 1,
        forall|m: u32|
            m < MAX_IRQ && m != spec_irq_number(irqn) ==> final(g).spec_enabled(m) == old(
                g,
            ).spec_enabled(m),
{
    gic::enable_irq(g, irqn.number());
}

/// Disables an interrupt.
pub fn disable_irq(g: &mut GicState, irqn: Irqn)
    requires
        old(g).wf(),
    ensures
        final(g).wf(),
        *final(g) == (GicState { isenabler: final(g).isenabler, ..*old(g) }),
        final(g).spec_enabled(spec_irq_number(irqn)) == 0,
        forall|m: u32|
            m < MAX_IRQ && m != spec_irq_number(irqn) ==> final(g).spec_enabled(m) == old(
                g,
            ).spec_enabled(m),
{
    gic::disable_irq(g, irqn.number());
}

/// Sends a software generated interrupt to a specific core.
/// - `0`: MPU0
/// - `1`: MPU1
pub fn send_sgi(g: &mut GicState, irqn: Irqn, core_id: u32)
    requires
        core_id < 32,
    ensures
        *final(g) == (
        GicState {
            sgir: ((1u32 << core_id) & 0xFF) << 16 | (spec_irq_number(irqn) & 0x0F),
            ..*old(g)
        }),
{
    gic::send_sgi(g, irqn.number(), 1 << core_id, 0);
    proof {
        let t = 1u32 << core_id;
        let n = spec_irq_number(irqn);
        assert((0u32 & 0x03) << 24 | ((t & 0xFF) << 16) | (n & 0x0F) == ((t & 0xFF) << 16) | (n
            & 0x0F)) by (bit_vector);
    }
}

/// Initializes the interrupt controller: brings up the distributor and this
/// core's interface, clears every shared peripheral line's active and
/// pending state, resets the active priority state, opens the priority mask
/// and sets the binary point.  Re-arming the acknowledge/end handshake of a
/// handler that was halted mid-interrupt is the hardware layer's part.
pub fn init(g: &mut GicState)
    requires
        old(g).wf(),
    ensures
        final(g).wf(),
        final(g).dist_enabled,
        final(g).iface_enabled,
        final(g).typer == old(g).typer,
        final(g).apr0 == 0,
        final(g).pmr == 0xFF,
        final(g).bpr == 4,
        forall|i: u32| i < old(g).spec_num_irq() ==> final(g).spec_enabled(i) == 0,
        forall|i: u32| i < old(g).spec_num_irq() ==> final(g).spec_priority(i) == 0x7F,
        forall|i: u32| 16 <= i < old(g).spec_num_irq() ==> final(g).spec_config(i) == 0,
        forall|i: u32| 32 <= i < old(g).spec_num_irq() ==> final(g).spec_target(i) == 1,
        forall|i: u32| 32 <= i < old(g).spec_num_irq() ==> final(g).spec_active(i) == 0,
        forall|i: u32| 32 <= i < old(g).spec_num_irq() ==> final(g).spec_pending(i) == 0,
{
    let ghost g0 = *old(g);
    gic::enable(g);
    let ghost g1 = *g;

    let num_irq: u32 = 32 * ((gic::distributor_info(g) & 0x1F) + 1);

    let mut i: u32 = 32;
    while i < num_irq
        invariant
            g.wf(),
            num_irq == g0.spec_num_irq(),
            num_irq <= MAX_IRQ,
            32 <= i <= num_irq,
            g.typer == g1.typer,
            g.dist_enabled == g1.dist_enabled,
            g.iface_enabled == g1.iface_enabled,
            g.pmr == g1.pmr,
            g.bpr == g1.bpr,
            g.apr0 == g1.apr0,
            g.sgir == g1.sgir,
            g.isenabler@ == g1.isenabler@,
            g.spendsgir@ == g1.spendsgir@,
            g.icfgr@ == g1.icfgr@,
            g.ipriorityr@ == g1.ipriorityr@,
            g.itargetsr@ == g1.itargetsr@,
            g.igroupr@ == g1.igroupr@,
            forall|j: u32| 32 <= j < i ==> g.spec_active(j) == 0,
            forall|j: u32| 32 <= j < i ==> g.spec_pending(j) == 0,
        decreases num_irq - i,
    {
        let ghost gs = *g;

        let act_pend: u32 = gic::get_irq_status(g, i);
        let active: bool = ((act_pend & 0b10) >> 1) != 0;
        let pending: bool = (act_pend & 0b01) != 0;

        if active {
            gic::clear_active_irq(g, i);
        }
        let ghost s1 = *g;

        if pending {
            gic::clear_pending_irq(g, i);
        }

        proof {
            lemma_bit_bound(gs.isactiver@[(i / 32) as int], (i % 32) as u32);
            lemma_bit_bound(gs.ispendr@[(i / 32) as int], (i % 32) as u32);
            lemma_status_bits(gs.spec_active(i), gs.spec_pending(i));
            assert forall|j: u32| #![trigger g.spec_active(j)] 32 <= j < MAX_IRQ && j != i implies g.spec_active(
                j,
            ) == gs.spec_active(j) by {
                assert(s1.spec_active(j) == gs.spec_active(j));
                assert(g.spec_active(j) == s1.spec_active(j));
            }
            assert forall|j: u32| #![trigger g.spec_pending(j)] 32 <= j < MAX_IRQ && j != i implies g.spec_pending(
                j,
            ) == gs.spec_pending(j) by {
                assert(s1.spec_pending(j) == gs.spec_pending(j));
                assert(g.spec_pending(j) == s1.spec_pending(j));
            }
            assert(g.spec_active(i) == 0);
            assert(g.spec_pending(i) == 0);
        }

        i = i + 1;
    }

    let ghost ge = *g;

    // Reset the active priority register, in case execution halted or reset
    // during an interrupt handler.
    g.apr0 = 0;

    // Writing 255 to the priority mask always sets it to the largest
    // supported priority field value.
    gic::set_interface_priority_mask(g, 0xFF);

    gic::set_binary_point(g, 4);

    proof {
        assert(0xFFu32 & 0xFF == 0xFF && 4u32 & 7 == 4) by (bit_vector);
        assert forall|j: u32| #![trigger g.spec_active(j)] 32 <= j < g0.spec_num_irq() implies g.spec_active(
            j,
        ) == 0 by {
            assert(g.spec_active(j) == ge.spec_active(j));
        }
        assert forall|j: u32| #![trigger g.spec_pending(j)] 32 <= j < g0.spec_num_irq() implies g.spec_pending(
            j,
        ) == 0 by {
            assert(g.spec_pending(j) == ge.spec_pending(j));
        }
        assert forall|j: u32| #![trigger g.spec_enabled(j)] j < g0.spec_num_irq() implies g.spec_enabled(j) == g1.spec_enabled(j) by {
            assert(g.spec_enabled(j) == g1.spec_enabled(j));
        }
        assert forall|j: u32| #![trigger g.spec_priority(j)] j < g0.spec_num_irq() implies g.spec_priority(j) == g1.spec_priority(j) by {
            assert(g.spec_priority(j) == g1.spec_priority(j));
        }
        assert forall|j: u32| #![trigger g.spec_config(j)] j < g0.spec_num_irq() implies g.spec_config(j) == g1.spec_config(j) by {
            assert(g.spec_config(j) == g1.spec_config(j));
        }
        assert forall|j: u32| #![trigger g.spec_target(j)] j < g0.spec_num_irq() implies g.spec_target(j) == g1.spec_target(j) by {
            assert(g.spec_target(j) == g1.spec_target(j));
        }
    }
}

/// A single extracted bit is at most one.
proof fn lemma_bit_bound(w: u32, s: u32)
    by (bit_vector)
    ensures
        ((w >> s) & 1) <= 1,
{
}

/// How the two status bits relate to the packed status word.
proof fn lemma_status_bits(a: u32, p: u32)
    by (bit_vector)
    requires
        a <= 1,
        p <= 1,
    ensures
        ((((a << 1) | p) & 0b10) >> 1 != 0) == (a == 1),
        (((a << 1) | p) & 0b01 != 0) == (p == 1),
{
}

} // verus!
