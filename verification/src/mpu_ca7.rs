//! Boot orchestration for the Cortex-A7 application cores MPU0 and MPU1.
//!
//! The two cores run independent bring-up sequences over shared hardware:
//! the primary core initializes the coherency fabric, the trust-zone
//! controller, the critical-section backing, its translation table and the
//! whole interrupt controller; the secondary core initializes only its own
//! table and its interrupt interface.  The primary wakes the secondary by
//! depositing an entry address and a magic value in the backup-register
//! rendezvous channel and raising a software-generated interrupt — in that
//! order, and only once it is itself initialized.
//!
//! Everything the sequences touch is carried in an explicit `Platform`
//! value; the hardware layer applies the recorded changes and the returned
//! wake steps to the memory-mapped registers in the order given.

use vstd::prelude::*;

use crate::gic;
use crate::gic::GicState;
use crate::irq;
use crate::irq::Irqn;
use crate::memory::mmu;
use crate::memory::mmu::TranslationTable;
use crate::memory::MemoryRegion;

verus! {

/// Magic value the primary deposits for the secondary core's startup code,
/// which trusts the entry address only after matching it.
pub const WAKE_MAGIC: u32 = 0xCA7FACE1;

/// Backup register holding the wake magic value.
pub const WAKE_MAGIC_REGISTER: usize = 4;

/// Backup register holding the secondary core's entry-point address.
pub const WAKE_ENTRY_REGISTER: usize = 5;

/// Number of backup registers in the backup domain.
pub const BACKUP_REGISTER_COUNT: usize = 32;

/// Configuration settings.
#[derive(Debug)]
pub struct HalConfig<F> {
    /// Function to return the memory region for an address.
    pub memory_region_mapper: F,
}

/// Errors of the boot orchestrator; a bare-metal build treats both as
/// programming errors that abort.
#[derive(Debug, Clone, Copy, PartialEq, Eq, Structural)]
pub enum HalError {
    /// The affinity register named a core this platform does not have.
    InvalidCoreId,
    /// The secondary core can only be started when the primary core is
    /// initialized.
    Mpu0NotInitialized,
}

/// One hardware operation of the wake protocol, in the order the sequence
/// performs them.
#[derive(Debug, Clone, Copy, PartialEq, Eq, Structural)]
pub enum WakeStep {
    /// Clear the backup-domain write protection and poll until the hardware
    /// confirms it off.
    DisableBackupProtection,
    /// Clear the write protection of the backup registers themselves, which
    /// the boot ROM may have re-armed.
    UnprotectBackupRegisters,
    /// Write the secondary core's entry-point address to its backup
    /// register.
    WriteEntryAddress,
    /// Write the wake magic value to its backup register.
    WriteWakeMagic,
    /// Enable the wake software-generated interrupt at the distributor.
    EnableWakeInterrupt,
    /// Send the wake software-generated interrupt to the secondary core.
    SendWakeInterrupt,
}

/// The wake protocol's hardware operations in their required order.
pub open spec fn spec_wake_steps() -> Seq<WakeStep> {
    seq![
        WakeStep::DisableBackupProtection,
        WakeStep::UnprotectBackupRegisters,
        WakeStep::WriteEntryAddress,
        WakeStep::WriteWakeMagic,
        WakeStep::EnableWakeInterrupt,
        WakeStep::SendWakeInterrupt,
    ]
}

/// Wake-protocol ordering: the software-generated interrupt is the last
/// step, coming only after both backup registers are written, and those
/// writes come only after the write protection is confirmed off.
pub proof fn lemma_wake_protocol_ordering()
    ensures
        ({
            let s = spec_wake_steps();
            &&& s.len() == 6
            &&& s[5] == WakeStep::SendWakeInterrupt
            &&& forall|j: int| 0 <= j < 5 ==> s[j] != WakeStep::SendWakeInterrupt
            &&& s[2] == WakeStep::WriteEntryAddress
            &&& s[3] == WakeStep::WriteWakeMagic
            &&& forall|j: int|
                0 <= j < s.len() && (s[j] == WakeStep::WriteEntryAddress || s[j]
                    == WakeStep::WriteWakeMagic) ==> 2 <= j <= 3
            &&& s[0] == WakeStep::DisableBackupProtection
            &&& s[1] == WakeStep::UnprotectBackupRegisters
        }),
{
}

/// The platform state the boot orchestrator manipulates: coherency and
/// security fabric switches, clock gates, the two cores' translation
/// tables, the shared interrupt controller, the backup-domain rendezvous
/// channel, reset pulses and the two initialization flags.
pub struct Platform {
    /// Snoop control unit switched on (cache coherency between the cores).
    pub scu_enabled: bool,
    /// RAM and default-secure peripherals opened in the trust-zone
    /// controller.
    pub peripherals_unsecured: bool,
    /// Clock of the hardware-semaphore block that backs the critical
    /// section.
    pub hsem_clock_enabled: bool,
    /// Clock gates of the GPIO ports.
    pub gpio_clocks_enabled: bool,
    /// Clock gates of the DMA controllers.
    pub dma_clocks_enabled: bool,
    /// Translation table of the primary core.
    pub mpu0_table: TranslationTable,
    /// Translation table of the secondary core.
    pub mpu1_table: TranslationTable,
    /// The primary core's MMU and caches are on.
    pub mpu0_mmu_enabled: bool,
    /// The secondary core's MMU and caches are on.
    pub mpu1_mmu_enabled: bool,
    /// The shared interrupt controller.
    pub gic: GicState,
    /// The backup-domain write protection is off.
    pub backup_protection_disabled: bool,
    /// The backup registers' own write protection is off.
    pub backup_registers_unprotected: bool,
    /// The backup registers.
    pub backup_registers: Vec<u32>,
    /// The primary core finished its bring-up.
    pub mpu0_initialized: bool,
    /// The secondary core finished its bring-up.
    pub mpu1_initialized: bool,
    /// A reset pulse was requested for the secondary core.
    pub mpu1_reset_requested: bool,
    /// A boot pulse was sent to the co-processor.
    pub mcu_boot_pulsed: bool,
    /// A reset pulse was requested for the co-processor.
    pub mcu_reset_requested: bool,
    /// A whole-system reset pulse was requested.
    pub system_reset_requested: bool,
}

impl Platform {
    /// The tables and register banks have their architectural sizes.
    pub open spec fn wf(&self) -> bool {
        &&& self.mpu0_table@.len() == mmu::TRANSLATION_TABLE_LENGTH
        &&& self.mpu1_table@.len() == mmu::TRANSLATION_TABLE_LENGTH
        &&& self.backup_registers@.len() == BACKUP_REGISTER_COUNT
        &&& self.gic.wf()
    }

    /// Returns a platform in its reset state: nothing enabled, nothing
    /// initialized, tables and backup registers zeroed.
    /// - `gic_typer`: value of the interrupt controller's read-only type
    ///   register.
    pub fn new(gic_typer: u32) -> (r: Self)
        requires
            (gic_typer & 0x1F) < 9,
        ensures
            r.wf(),
            !r.mpu0_initialized,
            !r.mpu1_initialized,
            !r.scu_enabled,
            !r.mpu0_mmu_enabled,
            !r.mpu1_mmu_enabled,
            !r.backup_protection_disabled,
            r.gic.typer == gic_typer,
            forall|i: int|
                0 <= i < BACKUP_REGISTER_COUNT ==> r.backup_registers@[i] == 0,
    {
        Self {
            scu_enabled: false,
            peripherals_unsecured: false,
            hsem_clock_enabled: false,
            gpio_clocks_enabled: false,
            dma_clocks_enabled: false,
            mpu0_table: zero_table(),
            mpu1_table: zero_table(),
            mpu0_mmu_enabled: false,
            mpu1_mmu_enabled: false,
            gic: GicState::new(gic_typer),
            backup_protection_disabled: false,
            backup_registers_unprotected: false,
            backup_registers: zero_backup_registers(),
            mpu0_initialized: false,
            mpu1_initialized: false,
            mpu1_reset_requested: false,
            mcu_boot_pulsed: false,
            mcu_reset_requested: false,
            system_reset_requested: false,
        }
    }
}

/// Returns a zero-initialized translation table, as the program image's
/// static storage holds it at load time.
fn zero_table() -> (r: TranslationTable)
    ensures
        r@.len() == mmu::TRANSLATION_TABLE_LENGTH,
        forall|i: int| 0 <= i < mmu::TRANSLATION_TABLE_LENGTH ==> r@[i] == 0,
{
    let mut v: Vec<u32> = Vec::new();
    let mut i: usize = 0;
    while i < mmu::TRANSLATION_TABLE_LENGTH
        invariant
            i <= mmu::TRANSLATION_TABLE_LENGTH,
            v@.len() == i,
            forall|j: int| 0 <= j < i ==> v@[j] == 0,
        decreases mmu::TRANSLATION_TABLE_LENGTH - i,
    {
        v.push(0);
        i = i + 1;
    }
    v
}

/// Returns the backup registers zeroed.
fn zero_backup_registers() -> (r: Vec<u32>)
    ensures
        r@.len() == BACKUP_REGISTER_COUNT,
        forall|i: int| 0 <= i < BACKUP_REGISTER_COUNT ==> r@[i] == 0,
{
    let mut v: Vec<u32> = Vec::new();
    let mut i: usize = 0;
    while i < BACKUP_REGISTER_COUNT
        invariant
            i <= BACKUP_REGISTER_COUNT,
            v@.len() == i,
            forall|j: int| 0 <= j < i ==> v@[j] == 0,
        decreases BACKUP_REGISTER_COUNT - i,
    {
        v.push(0);
        i = i + 1;
    }
    v
}

/// Returns the core id for the current core, from the affinity register
/// value.
/// - `0`: MPU0
/// - `1`: MPU1
pub fn core_id(mpidr: u32) -> (r: u32)
    ensures
        r == mpidr & 0xFF,
{
    crate::core_id(mpidr)
}

/// Returns if MPU0 is initialized.
pub fn is_mpu0_initialized(p: &Platform) -> (r: bool)
    ensures
        r == p.mpu0_initialized,
{
    p.mpu0_initialized
}

/// Returns if MPU1 is initialized.
pub fn is_mpu1_initialized(p: &Platform) -> (r: bool)
    ensures
        r == p.mpu1_initialized,
{
    p.mpu1_initialized
}

/// Initializes the HAL for the core the affinity register names.
///
/// This function must be called once at the beginning of the main function
/// for each MPU; an affinity value naming neither core is a programming
/// error and is rejected.
pub fn init<F: Fn(u32) -> MemoryRegion>(
    p: &mut Platform,
    config: HalConfig<F>,
    mpidr: u32,
) -> (r: Result<(), HalError>)
    requires
        old(p).wf(),
        forall|addr: u32| #[trigger] call_requires(config.memory_region_mapper, (addr,)),
    ensures
        final(p).wf(),
        r is Err <==> mpidr & 0xFF > 1,
        r is Err ==> r == Result::<(), HalError>::Err(HalError::InvalidCoreId),
        r is Err ==> *final(p) == *old(p),
        mpidr & 0xFF == 0 ==> final(p).mpu0_initialized,
        mpidr & 0xFF == 0 ==> final(p).scu_enabled && final(p).peripherals_unsecured,
        mpidr & 0xFF == 0 ==> final(p).hsem_clock_enabled && final(p).mpu0_mmu_enabled,
        mpidr & 0xFF == 0 ==> mmu::spec_table_built(final(p).mpu0_table@),
        mpidr & 0xFF == 0 ==> final(p).gic.dist_enabled && final(p).gic.iface_enabled,
        mpidr & 0xFF == 0 ==> final(p).mpu1_initialized == old(p).mpu1_initialized,
        mpidr & 0xFF == 1 ==> final(p).mpu1_initialized && final(p).mpu1_mmu_enabled,
        mpidr & 0xFF == 1 ==> mmu::spec_table_built(final(p).mpu1_table@),
        mpidr & 0xFF == 1 ==> final(p).gic.iface_enabled,
        mpidr & 0xFF == 1 ==> final(p).mpu0_initialized == old(p).mpu0_initialized,
{
    let id: u32 = core_id(mpidr);
    if id == 0 {
        init_mpu0(p, config);
        Ok(())
    } else if id == 1 {
        init_mpu1(p, config);
        Ok(())
    } else {
        Err(HalError::InvalidCoreId)
    }
}

/// Initializes MPU0.
///
/// This function is called from `init` for MPU0.
/// It performs the following tasks:
/// - Enables the coherency fabric and unsecures RAM and peripherals.
/// - Enables the critical-section backing clock.
/// - Builds the primary core's translation table and turns its MMU on.
/// - Enables the peripheral clock gates and the whole interrupt controller.
fn init_mpu0<F: Fn(u32) -> MemoryRegion>(p: &mut Platform, config: HalConfig<F>)
    requires
        old(p).wf(),
        forall|addr: u32| #[trigger] call_requires(config.memory_region_mapper, (addr,)),
    ensures
        final(p).wf(),
        final(p).scu_enabled,
        final(p).peripherals_unsecured,
        final(p).hsem_clock_enabled,
        mmu::spec_table_built(final(p).mpu0_table@),
        final(p).mpu0_mmu_enabled,
        final(p).gpio_clocks_enabled,
        final(p).dma_clocks_enabled,
        final(p).gic.dist_enabled,
        final(p).gic.iface_enabled,
        final(p).mpu0_initialized,
        final(p).mpu1_initialized == old(p).mpu1_initialized,
        final(p).backup_registers@ == old(p).backup_registers@,
{
    p.scu_enabled = true;
    p.peripherals_unsecured = true;

    // Critical-section backing: enable the hardware-semaphore clock.
    p.hsem_clock_enabled = true;

    mmu::init_translation_table(&mut p.mpu0_table, config.memory_region_mapper);
    let _steps = mmu::enable(&p.mpu0_table);
    p.mpu0_mmu_enabled = true;

    p.gpio_clocks_enabled = true;
    p.dma_clocks_enabled = true;
    irq::init(&mut p.gic);

    p.mpu0_initialized = true;
}

/// Initializes MPU1.
///
/// This function is called from `init` for MPU1.
/// It performs the following tasks:
/// - Builds the secondary core's translation table and turns its MMU on.
/// - Initializes only the per-core interrupt interface; the shared
///   distributor was already configured by the primary and is not
///   re-touched.
fn init_mpu1<F: Fn(u32) -> MemoryRegion>(p: &mut Platform, config: HalConfig<F>)
    requires
        old(p).wf(),
        forall|addr: u32| #[trigger] call_requires(config.memory_region_mapper, (addr,)),
    ensures
        final(p).wf(),
        mmu::spec_table_built(final(p).mpu1_table@),
        final(p).mpu1_mmu_enabled,
        final(p).gic.iface_enabled,
        final(p).gic.dist_enabled == old(p).gic.dist_enabled,
        final(p).mpu1_initialized,
        final(p).mpu0_initialized == old(p).mpu0_initialized,
        final(p).backup_registers@ == old(p).backup_registers@,
{
    mmu::init_translation_table(&mut p.mpu1_table, config.memory_region_mapper);
    let _steps = mmu::enable(&p.mpu1_table);
    p.mpu1_mmu_enabled = true;

    gic::cpu_interface_init(&mut p.gic);

    p.mpu1_initialized = true;
}

/// Starts MPU1.
///
/// The secondary core can only be started after the primary is initialized;
/// before that the call is rejected and changes nothing, since proceeding
/// would race the primary's own interrupt-controller bring-up.  On success
/// the backup-domain protection is dropped, the entry-point address and the
/// wake magic value are deposited in the rendezvous registers, the wake
/// interrupt is enabled and sent to the secondary core, and the performed
/// hardware steps are returned in their order.
/// - `entry_address`: address of the startup code the secondary core's
///   reset stub branches to.
pub fn start_mpu1(p: &mut Platform, entry_address: u32) -> (r: Result<Vec<WakeStep>, HalError>)
    requires
        old(p).wf(),
    ensures
        final(p).wf(),
        r is Err <==> !old(p).mpu0_initialized,
        r is Err ==> r == Result::<Vec<WakeStep>, HalError>::Err(HalError::Mpu0NotInitialized),
        r is Err ==> *final(p) == *old(p),
        r matches Ok(steps) ==> steps@ == spec_wake_steps(),
        r is Ok ==> final(p).backup_protection_disabled && final(p).backup_registers_unprotected,
        r is Ok ==> final(p).backup_registers@ == old(p).backup_registers@.update(
            WAKE_ENTRY_REGISTER as int,
            entry_address,
        ).update(WAKE_MAGIC_REGISTER as int, WAKE_MAGIC),
        r is Ok ==> final(p).gic.spec_enabled(0) == 1,
        r is Ok ==> forall|m: u32|
            0 < m < gic::MAX_IRQ ==> final(p).gic.spec_enabled(m) == old(p).gic.spec_enabled(m),
        r is Ok ==> final(p).gic.sgir == ((1u32 << 1) & 0xFF) << 16,
        r is Ok ==> final(p).mpu0_initialized,
        r is Ok ==> final(p).mpu1_initialized == old(p).mpu1_initialized,
{
    if !is_mpu0_initialized(p) {
        return Err(HalError::Mpu0NotInitialized);
    }

    let mut steps: Vec<WakeStep> = Vec::new();

    // Turn on the Disable Backup Protection bit, to allow writes to the
    // backup registers, and wait until the hardware confirms it.  This is
    // already on after a cold boot, but not after a manual reset while
    // debugging.
    p.backup_protection_disabled = true;
    steps.push(WakeStep::DisableBackupProtection);

    // Turn off write protection on the backup registers themselves; the
    // boot ROM re-arms it for the low registers during start-up.
    p.backup_registers_unprotected = true;
    steps.push(WakeStep::UnprotectBackupRegisters);

    // Write the entry point address to the entry backup register.
    p.backup_registers[WAKE_ENTRY_REGISTER] = entry_address;
    steps.push(WakeStep::WriteEntryAddress);

    // Write the magic number to the magic backup register.
    p.backup_registers[WAKE_MAGIC_REGISTER] = WAKE_MAGIC;
    steps.push(WakeStep::WriteWakeMagic);

    // Enable the wake software-generated interrupt.
    irq::enable_irq(&mut p.gic, Irqn::SGI0);
    steps.push(WakeStep::EnableWakeInterrupt);

    // Send it, targeted at exactly the secondary core's interface.
    irq::send_sgi(&mut p.gic, Irqn::SGI0, 1);
    steps.push(WakeStep::SendWakeInterrupt);

    proof {
        assert(steps@ =~= spec_wake_steps());
        assert((((1u32 << 1) & 0xFF) << 16) | (0u32 & 0x0F) == ((1u32 << 1) & 0xFF) << 16) by (
        bit_vector);
    }

    Ok(steps)
}

/// Resets MPU1.
pub fn reset_mpu1(p: &mut Platform)
    ensures
        *final(p) == (Platform { mpu1_reset_requested: true, ..*old(p) }),
{
    p.mpu1_reset_requested = true;
}

/// Starts the MCU.
///
/// The MCU starts execution in its retention RAM; after a reset it is on
/// hold again until the next boot pulse.
pub fn start_mcu(p: &mut Platform)
    ensures
        *final(p) == (Platform { mcu_boot_pulsed: true, ..*old(p) }),
{
    p.mcu_boot_pulsed = true;
}

/// Resets the MCU.
///
/// The MCU will not be started again after reset before calling `start_mcu`.
pub fn reset_mcu(p: &mut Platform)
    ensures
        *final(p) == (Platform { mcu_reset_requested: true, ..*old(p) }),
{
    p.mcu_reset_requested = true;
}

/// Resets the system.
pub fn reset_system(p: &mut Platform)
    ensures
        *final(p) == (Platform { system_reset_requested: true, ..*old(p) }),
{
    p.system_reset_requested = true;
}

} // verus!
