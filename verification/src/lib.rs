//! Hardware-abstraction layer for a dual-core Cortex-A7 / Cortex-M4 SoC.
//!
//! The crate models the hardware state that the boot and synchronization
//! subsystem manipulates (translation tables, the interrupt controller's
//! register file, the hardware semaphore, the backup-register rendezvous
//! channel) as explicit values, and verifies the logic that computes and
//! updates that state.  The thin layer that copies the computed values to
//! the memory-mapped registers of a real board lives outside the library.

pub mod bitworker;
pub mod critical_section_impl;
pub mod dma;
pub mod dmamux;
pub mod gic;
pub mod gpio;
pub mod i2c;
pub mod irq;
pub mod iwdg;
pub mod ltdc;
pub mod mcu_cm4;
pub mod memory;
pub mod mpu_ca7;
pub mod rcc;
pub mod sai;
pub mod sdmmc;
pub mod spi;
pub mod stgen;
pub mod time;
pub mod usart;

use vstd::prelude::*;

verus! {

/// Bus-master id used by both Cortex-A7 cores when talking to the
/// hardware semaphore block.
pub const CPU_ID: u32 = 1;

/// Returns the 0-based core number encoded in the affinity register value.
/// - `0`: MPU0
/// - `1`: MPU1
pub fn core_id(mpidr: u32) -> (r: u32)
    ensures
        r == mpidr & 0xFF,
{
    mpidr & 0xFF
}

} // verus!
