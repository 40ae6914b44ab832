//! Bring-up for the Cortex-M4 co-processor.

use vstd::prelude::*;

use crate::mpu_ca7::Platform;

verus! {

/// ID for the MCU as a bus master of the hardware semaphores; distinct
/// from the application cores' shared id.
pub const MCU_CPU_ID: u8 = 2;

/// Initializes the HAL for the co-processor: enables the peripheral clock
/// gates its drivers rely on.
///
/// This function must be called once at the beginning of the main function.
pub fn init(p: &mut Platform)
    ensures
        *final(p) == (
        Platform { gpio_clocks_enabled: true, dma_clocks_enabled: true, ..*old(p) }),
{
    p.gpio_clocks_enabled = true;
    p.dma_clocks_enabled = true;
}

} // verus!
