//! Boot orchestration: core dispatch, readiness gating and the wake
//! protocol's register writes and ordering.

use mp1_hal::mpu_ca7::core_id;
use mp1_hal::mpu_ca7::init;
use mp1_hal::mpu_ca7::is_mpu0_initialized;
use mp1_hal::mpu_ca7::is_mpu1_initialized;
use mp1_hal::mpu_ca7::reset_mcu;
use mp1_hal::mpu_ca7::reset_mpu1;
use mp1_hal::mpu_ca7::reset_system;
use mp1_hal::mpu_ca7::start_mcu;
use mp1_hal::mpu_ca7::start_mpu1;
use mp1_hal::mpu_ca7::HalConfig;
use mp1_hal::mpu_ca7::HalError;
use mp1_hal::mpu_ca7::Platform;
use mp1_hal::mpu_ca7::WakeStep;
use mp1_hal::mpu_ca7::WAKE_MAGIC;
use mp1_hal::memory::MemoryRegion;
use mp1_hal::gic;

const GIC_TYPER: u32 = 7;

fn classify(addr: u32) -> MemoryRegion {
    if addr < 0x0010_0000 {
        MemoryRegion::Code
    } else {
        MemoryRegion::Device
    }
}

#[test]
fn core_id_reads_the_affinity_byte() {
    assert_eq!(core_id(0x8000_0000), 0);
    assert_eq!(core_id(0x8000_0001), 1);
    assert_eq!(core_id(0x0000_0102), 2);
}

#[test]
fn starting_the_secondary_before_the_primary_is_rejected() {
    let mut p = Platform::new(GIC_TYPER);
    assert!(!is_mpu0_initialized(&p));

    let r = start_mpu1(&mut p, 0x1000_0000);
    assert_eq!(r, Err(HalError::Mpu0NotInitialized));

    // the rejected call changes nothing
    assert!(!p.backup_protection_disabled);
    assert_eq!(p.backup_registers[4], 0);
    assert_eq!(p.backup_registers[5], 0);
    assert_eq!(gic::get_enable_irq(&p.gic, 0), 0);
}

#[test]
fn primary_init_brings_up_the_shared_fabric() {
    let mut p = Platform::new(GIC_TYPER);
    let r = init(&mut p, HalConfig { memory_region_mapper: classify }, 0x8000_0000);
    assert_eq!(r, Ok(()));
    assert!(is_mpu0_initialized(&p));
    assert!(!is_mpu1_initialized(&p));
    assert!(p.scu_enabled);
    assert!(p.peripherals_unsecured);
    assert!(p.hsem_clock_enabled);
    assert!(p.mpu0_mmu_enabled);
    assert!(p.gic.dist_enabled);
    assert!(p.gic.iface_enabled);
    assert_eq!(p.mpu0_table[0] >> 20, 0);
    assert_eq!(p.mpu0_table[4095] >> 20, 4095);
}

#[test]
fn secondary_init_touches_only_its_own_side() {
    let mut p = Platform::new(GIC_TYPER);
    let r = init(&mut p, HalConfig { memory_region_mapper: classify }, 0x8000_0001);
    assert_eq!(r, Ok(()));
    assert!(is_mpu1_initialized(&p));
    assert!(!is_mpu0_initialized(&p));
    assert!(p.mpu1_mmu_enabled);
    assert!(!p.mpu0_mmu_enabled);
    // the shared distributor is left to the primary
    assert!(!p.gic.dist_enabled);
    assert!(p.gic.iface_enabled);
}

#[test]
fn unknown_core_ids_are_rejected() {
    let mut p = Platform::new(GIC_TYPER);
    let r = init(&mut p, HalConfig { memory_region_mapper: classify }, 0x8000_0005);
    assert_eq!(r, Err(HalError::InvalidCoreId));
}

#[test]
fn wake_protocol_writes_the_rendezvous_channel_then_signals() {
    let mut p = Platform::new(GIC_TYPER);
    init(&mut p, HalConfig { memory_region_mapper: classify }, 0x8000_0000).unwrap();

    let steps = start_mpu1(&mut p, 0x1000_0000).unwrap();

    // the exact protocol order: protection off, registers written, then
    // and only then the wake interrupt
    assert_eq!(
        steps,
        vec![
            WakeStep::DisableBackupProtection,
            WakeStep::UnprotectBackupRegisters,
            WakeStep::WriteEntryAddress,
            WakeStep::WriteWakeMagic,
            WakeStep::EnableWakeInterrupt,
            WakeStep::SendWakeInterrupt,
        ]
    );
    assert_eq!(steps.last(), Some(&WakeStep::SendWakeInterrupt));

    assert!(p.backup_protection_disabled);
    assert!(p.backup_registers_unprotected);
    assert_eq!(p.backup_registers[5], 0x1000_0000);
    assert_eq!(p.backup_registers[4], WAKE_MAGIC);
    assert_eq!(p.backup_registers[4], 0xCA7FACE1);
    // the wake interrupt line is enabled and routed at the second core
    assert_eq!(gic::get_enable_irq(&p.gic, 0), 1);
    assert_eq!(p.gic.sgir, (1 << 1) << 16);
}

#[test]
fn reset_pulses_are_recorded() {
    let mut p = Platform::new(GIC_TYPER);
    reset_mpu1(&mut p);
    start_mcu(&mut p);
    reset_mcu(&mut p);
    reset_system(&mut p);
    assert!(p.mpu1_reset_requested);
    assert!(p.mcu_boot_pulsed);
    assert!(p.mcu_reset_requested);
    assert!(p.system_reset_requested);
}
