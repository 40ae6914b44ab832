//! MMU configuration.
//!
//! The MMU maps the virtual addresses to physical addresses using translation tables.
//! In the setup used here, no address translations are performed.
//! The MMU is only used to set memory attributes for different regions to enable caching.
//!
//! Only first level address translation (L1) via section entries is used.
//! Each entry in the table refers to a 1MB section. Accordingly, the full 4GB address space
//! consists of 4096 sections.

use vstd::prelude::*;

use crate::memory::MemoryRegion;

verus! {

/// Number of entries in the translation table.
pub const TRANSLATION_TABLE_LENGTH: usize = 4096;

/// Translation table type alias.  A table is valid once it holds one section
/// descriptor per 1 MiB of the address space.
pub type TranslationTable = Vec<u32>;

/// L1 table entry id for a section of 1MB.
pub const L1_ENTRY_SECTION: u32 = 0b10;

/// Section attribute: bufferable memory.
pub const ATTR_BUFFERABLE: u32 = 0b1 << 2;

/// Section attribute: cacheable memory.
pub const ATTR_CACHEABLE: u32 = 0b1 << 3;

/// Section attribute: no instruction fetches allowed.
pub const ATTR_EXECUTE_NEVER: u32 = 0b1 << 4;

/// Section attribute: full read/write access from any privilege level.
pub const ATTR_AP_FULL_ACCESS: u32 = 0b11 << 10;

/// Section attribute: shareable between cache-coherent observers.
pub const ATTR_SHAREABLE: u32 = 0b1 << 16;

/// Attribute bits for a section, a fixed function of its region kind alone.
pub open spec fn spec_section_attr(region: MemoryRegion) -> u32 {
    match region {
        // Code is normal memory with execute permissions.
        MemoryRegion::Code => ATTR_SHAREABLE | ATTR_CACHEABLE | ATTR_BUFFERABLE
            | ATTR_AP_FULL_ACCESS,
        // Data is normal memory without execute permissions.
        MemoryRegion::Data => ATTR_SHAREABLE | ATTR_CACHEABLE | ATTR_BUFFERABLE
            | ATTR_AP_FULL_ACCESS | ATTR_EXECUTE_NEVER,
        // Unbuffered data is normal memory without execute permissions.
        MemoryRegion::UnbufferedData => ATTR_SHAREABLE | ATTR_CACHEABLE | ATTR_AP_FULL_ACCESS
            | ATTR_EXECUTE_NEVER,
        // Default is device memory without execute permissions.
        MemoryRegion::Device => ATTR_BUFFERABLE | ATTR_AP_FULL_ACCESS | ATTR_EXECUTE_NEVER,
    }
}

/// The attribute bits of every region kind, as plain numbers, and their
/// common bound: all attribute bits lie below the 1 MiB section base field.
pub proof fn lemma_section_attr_values()
    ensures
        spec_section_attr(MemoryRegion::Code) == 0x10C0C,
        spec_section_attr(MemoryRegion::Data) == 0x10C1C,
        spec_section_attr(MemoryRegion::UnbufferedData) == 0x10C18,
        spec_section_attr(MemoryRegion::Device) == 0xC14,
        forall|region: MemoryRegion| spec_section_attr(region) < 0x100000,
{
    assert((0b1u32 << 16) | (0b1u32 << 3) | (0b1u32 << 2) | (0b11u32 << 10) == 0x10C0C) by (bit_vector);
    assert((0b1u32 << 16) | (0b1u32 << 3) | (0b1u32 << 2) | (0b11u32 << 10) | (0b1u32 << 4)
        == 0x10C1C) by (bit_vector);
    assert((0b1u32 << 16) | (0b1u32 << 3) | (0b11u32 << 10) | (0b1u32 << 4) == 0x10C18) by (bit_vector);
    assert((0b1u32 << 2) | (0b11u32 << 10) | (0b1u32 << 4) == 0xC14) by (bit_vector);
    assert forall|region: MemoryRegion| spec_section_attr(region) < 0x100000 by {
        match region {
            MemoryRegion::Code => {},
            MemoryRegion::Data => {},
            MemoryRegion::UnbufferedData => {},
            MemoryRegion::Device => {},
        }
    }
}

/// Returns the attribute bits for a memory region (fixed policy, not
/// caller-configurable): the same variant always yields the same bits,
/// whatever address it classifies.
pub fn section_attributes(region: &MemoryRegion) -> (r: u32)
    ensures
        r == spec_section_attr(*region),
{
    match region {
        MemoryRegion::Code => ATTR_SHAREABLE | ATTR_CACHEABLE | ATTR_BUFFERABLE
            | ATTR_AP_FULL_ACCESS,
        MemoryRegion::Data => ATTR_SHAREABLE | ATTR_CACHEABLE | ATTR_BUFFERABLE
            | ATTR_AP_FULL_ACCESS | ATTR_EXECUTE_NEVER,
        MemoryRegion::UnbufferedData => ATTR_SHAREABLE | ATTR_CACHEABLE | ATTR_AP_FULL_ACCESS
            | ATTR_EXECUTE_NEVER,
        MemoryRegion::Device => ATTR_BUFFERABLE | ATTR_AP_FULL_ACCESS | ATTR_EXECUTE_NEVER,
    }
}

/// Section descriptor for the 1 MiB section starting at `addr`, tagged with
/// a region's attributes: identity-mapped base address, attribute bits and
/// the section entry marker.
pub open spec fn spec_descriptor(addr: u32, region: MemoryRegion) -> u32 {
    addr | spec_section_attr(region) | L1_ENTRY_SECTION
}

/// The descriptor at index `i` carries one of the four region kinds'
/// attributes over the identity-mapped section base.
pub open spec fn spec_valid_descriptor(i: int, d: u32) -> bool {
    ||| d == spec_descriptor(((i as u32) << 20), MemoryRegion::Code)
    ||| d == spec_descriptor(((i as u32) << 20), MemoryRegion::Data)
    ||| d == spec_descriptor(((i as u32) << 20), MemoryRegion::UnbufferedData)
    ||| d == spec_descriptor(((i as u32) << 20), MemoryRegion::Device)
}

/// A table of 4096 section descriptors, one per 1 MiB section, each carrying
/// some region's attributes.
pub open spec fn spec_table_built(t: Seq<u32>) -> bool {
    &&& t.len() == TRANSLATION_TABLE_LENGTH
    &&& forall|i: int|
        0 <= i < TRANSLATION_TABLE_LENGTH ==> spec_valid_descriptor(i, #[trigger] t[i])
}

/// For one section base, different region kinds give different descriptors,
/// so a descriptor names its region kind unambiguously.
pub proof fn lemma_descriptor_injective(i: u32, r1: MemoryRegion, r2: MemoryRegion)
    requires
        i < 4096,
        spec_descriptor((i << 20), r1) == spec_descriptor((i << 20), r2),
    ensures
        r1 == r2,
{
    lemma_section_attr_values();
    assert(i < 4096 ==> ((i << 20) | 0x10C0Cu32 | 2) != ((i << 20) | 0x10C1Cu32 | 2) && ((i << 20)
        | 0x10C0Cu32 | 2) != ((i << 20) | 0x10C18u32 | 2) && ((i << 20) | 0x10C0Cu32 | 2) != ((i
        << 20) | 0xC14u32 | 2) && ((i << 20) | 0x10C1Cu32 | 2) != ((i << 20) | 0x10C18u32 | 2) && ((
    i << 20) | 0x10C1Cu32 | 2) != ((i << 20) | 0xC14u32 | 2) && ((i << 20) | 0x10C18u32 | 2) != ((i
        << 20) | 0xC14u32 | 2)) by (bit_vector);
}

/// Initializes a translation table.
///
/// The `map_fn` takes an address and returns the appropriate `MemoryRegion` for it.
/// The classifier is total: it must accept every section base address.
#[verifier::rlimit(60)]
pub fn init_translation_table<F: Fn(u32) -> MemoryRegion>(table: &mut TranslationTable, map_fn: F)
    requires
        old(table)@.len() == TRANSLATION_TABLE_LENGTH,
        forall|addr: u32| #[trigger] call_requires(map_fn, (addr,)),
    ensures
        final(table)@.len() == TRANSLATION_TABLE_LENGTH,
        spec_table_built(final(table)@),
        forall|i: int, region: MemoryRegion|
            0 <= i < TRANSLATION_TABLE_LENGTH && final(table)@[i] == #[trigger] spec_descriptor(
                ((i as u32) << 20),
                region,
            ) ==> call_ensures(map_fn, (((i as u32) << 20),), region),
{
    let ghost mut regions: Seq<MemoryRegion> = Seq::empty();
    let mut i: usize = 0;
    while i < TRANSLATION_TABLE_LENGTH
        invariant
            i <= TRANSLATION_TABLE_LENGTH,
            table@.len() == TRANSLATION_TABLE_LENGTH,
            regions.len() == i,
            forall|addr: u32| #[trigger] call_requires(map_fn, (addr,)),
            forall|j: int|
                0 <= j < i ==> #[trigger] call_ensures(map_fn, (((j as u32) << 20),), regions[j]),
            forall|j: int|
                0 <= j < i ==> #[trigger] table@[j] == spec_descriptor(
                    ((j as u32) << 20),
                    regions[j],
                ),
        decreases TRANSLATION_TABLE_LENGTH - i,
    {
        let addr: u32 = (i as u32) << 20;
        let region = map_fn(addr);

        let attr: u32 = section_attributes(&region);

        table[i] = addr | attr | L1_ENTRY_SECTION;

        proof {
            regions = regions.push(region);
            assert(call_ensures(map_fn, (((i as u32) << 20),), region));
            assert(table@[i as int] == spec_descriptor(((i as u32) << 20), region));
        }

        i = i + 1;
    }

    proof {
        assert forall|j: int| 0 <= j < TRANSLATION_TABLE_LENGTH implies spec_valid_descriptor(
            j,
            #[trigger] table@[j],
        ) by {
            assert(table@[j] == spec_descriptor(((j as u32) << 20), regions[j]));
        }
        assert forall|j: int, region: MemoryRegion|
            0 <= j < TRANSLATION_TABLE_LENGTH && table@[j] == #[trigger] spec_descriptor(
                ((j as u32) << 20),
                region,
            ) implies call_ensures(map_fn, (((j as u32) << 20),), region) by {
            assert(table@[j] == spec_descriptor(((j as u32) << 20), regions[j]));
            lemma_descriptor_injective((j as u32), region, regions[j]);
        }
    }
}

/// Identity mapping: in a built table, the base-address field of the
/// descriptor at index `i` encodes exactly the section base `i << 20` — the
/// table never translates an address to a different one.
pub proof fn lemma_identity_mapping(t: Seq<u32>)
    requires
        spec_table_built(t),
    ensures
        forall|i: int| 0 <= i < TRANSLATION_TABLE_LENGTH ==> (#[trigger] t[i]) >> 20 == i as u32,
{
    assert forall|i: int| 0 <= i < TRANSLATION_TABLE_LENGTH implies (#[trigger] t[i]) >> 20
        == i as u32 by {
        lemma_section_attr_values();
        lemma_descriptor_base(i as u32, spec_section_attr(MemoryRegion::Code));
        lemma_descriptor_base(i as u32, spec_section_attr(MemoryRegion::Data));
        lemma_descriptor_base(i as u32, spec_section_attr(MemoryRegion::UnbufferedData));
        lemma_descriptor_base(i as u32, spec_section_attr(MemoryRegion::Device));
    }
}

/// The attribute and marker bits of a section descriptor never disturb its
/// base-address field.
proof fn lemma_descriptor_base(a: u32, x: u32)
    by (bit_vector)
    requires
        a < 4096,
        x < 0x100000,
    ensures
        ((a << 20) | x | 2) >> 20 == a,
{
}

/// One hardware operation of the MMU enable sequence, in the order the
/// sequence performs them.
#[derive(Debug, Clone, Copy, PartialEq, Eq, Structural)]
pub enum MmuStep {
    /// Set the SMP/coherency-participation bit in the auxiliary control
    /// register, before any cache is enabled.
    SetSmpBit,
    /// Set translation-table domain 0 access to client.
    SetDomainClient,
    /// Select translation-table-base register 0 as always active.
    SelectTtbr0,
    /// Write the table's base address to the translation-table-base register
    /// and synchronize the instruction stream.
    SetTableBase,
    /// Invalidate stale translations.
    InvalidateTlb,
    /// Invalidate the whole data cache, after the stale translations are gone.
    InvalidateDataCache,
    /// Invalidate the whole instruction cache.
    InvalidateInstructionCache,
    /// Read-modify-write the system control register, setting the MMU,
    /// cache and branch-prediction enable bits in one write.
    EnableMmuCachesBranchPrediction,
}

/// Bits the enable sequence sets in the system control register: MMU enable,
/// data/instruction cache enables and branch prediction enable.
pub const SCTLR_ENABLE_BITS: u32 = 0x1805;

/// The MMU enable sequence, in its required order: coherency first, then
/// table selection and base, then invalidation of stale state (translations
/// before caches), and the one-write enable last.
pub open spec fn spec_mmu_enable_steps() -> Seq<MmuStep> {
    seq![
        MmuStep::SetSmpBit,
        MmuStep::SetDomainClient,
        MmuStep::SelectTtbr0,
        MmuStep::SetTableBase,
        MmuStep::InvalidateTlb,
        MmuStep::InvalidateDataCache,
        MmuStep::InvalidateInstructionCache,
        MmuStep::EnableMmuCachesBranchPrediction,
    ]
}

/// Enables the MMU with a translation table: returns the ordered hardware
/// operations to perform.  The translation table must be built before
/// calling this function, and its storage must be 16 KiB aligned when the
/// base address is written.
pub fn enable(table: &TranslationTable) -> (r: Vec<MmuStep>)
    requires
        spec_table_built(table@),
    ensures
        r@ == spec_mmu_enable_steps(),
{
    let mut steps: Vec<MmuStep> = Vec::new();
    steps.push(MmuStep::SetSmpBit);
    steps.push(MmuStep::SetDomainClient);
    steps.push(MmuStep::SelectTtbr0);
    steps.push(MmuStep::SetTableBase);
    steps.push(MmuStep::InvalidateTlb);
    steps.push(MmuStep::InvalidateDataCache);
    steps.push(MmuStep::InvalidateInstructionCache);
    steps.push(MmuStep::EnableMmuCachesBranchPrediction);
    proof {
        assert(steps@ =~= spec_mmu_enable_steps());
    }
    steps
}

} // verus!
