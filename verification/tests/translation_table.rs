//! Translation-table construction: identity mapping and the fixed
//! region-to-attributes policy.

use mp1_hal::memory::mmu::enable;
use mp1_hal::memory::mmu::init_translation_table;
use mp1_hal::memory::mmu::section_attributes;
use mp1_hal::memory::mmu::MmuStep;
use mp1_hal::memory::mmu::TRANSLATION_TABLE_LENGTH;
use mp1_hal::memory::MemoryRegion;

fn classify(addr: u32) -> MemoryRegion {
    if addr < 0x0010_0000 {
        MemoryRegion::Code
    } else if addr < 0x2000_0000 {
        MemoryRegion::Data
    } else if addr < 0x3000_0000 {
        MemoryRegion::UnbufferedData
    } else {
        MemoryRegion::Device
    }
}

#[test]
fn attributes_are_fixed_per_region() {
    assert_eq!(section_attributes(&MemoryRegion::Code), 0x10C0C);
    assert_eq!(section_attributes(&MemoryRegion::Data), 0x10C1C);
    assert_eq!(section_attributes(&MemoryRegion::UnbufferedData), 0x10C18);
    assert_eq!(section_attributes(&MemoryRegion::Device), 0xC14);
    // the attribute bits depend on the variant alone, not on any address
    assert_eq!(
        section_attributes(&classify(0)),
        section_attributes(&MemoryRegion::Code)
    );
}

#[test]
fn built_table_is_identity_mapped() {
    let mut table = vec![0u32; TRANSLATION_TABLE_LENGTH];
    init_translation_table(&mut table, classify);

    assert_eq!(table.len(), TRANSLATION_TABLE_LENGTH);
    for (i, entry) in table.iter().enumerate() {
        // the encoded base address always equals the section index
        assert_eq!(entry >> 20, i as u32);
        // the section marker is always present
        assert_eq!(entry & 0b11, 0b10);
    }
}

#[test]
fn built_table_carries_the_classified_attributes() {
    let mut table = vec![0u32; TRANSLATION_TABLE_LENGTH];
    init_translation_table(&mut table, classify);

    assert_eq!(table[0], 0x10C0C | 0b10);
    assert_eq!(table[1], (1 << 20) | 0x10C1C | 0b10);
    assert_eq!(table[0x1FF], (0x1FF << 20) | 0x10C1C | 0b10);
    assert_eq!(table[0x200] & 0xFFFFF, 0x10C18 | 0b10);
    assert_eq!(table[0x2FF] & 0xFFFFF, 0x10C18 | 0b10);
    assert_eq!(table[0x400] & 0xFFFFF, 0xC14 | 0b10);
    assert_eq!(table[4095] & 0xFFFFF, 0xC14 | 0b10);
}

#[test]
fn enable_returns_the_ordered_sequence() {
    let mut table = vec![0u32; TRANSLATION_TABLE_LENGTH];
    init_translation_table(&mut table, classify);
    let steps = enable(&table);
    assert_eq!(
        steps,
        vec![
            MmuStep::SetSmpBit,
            MmuStep::SetDomainClient,
            MmuStep::SelectTtbr0,
            MmuStep::SetTableBase,
            MmuStep::InvalidateTlb,
            MmuStep::InvalidateDataCache,
            MmuStep::InvalidateInstructionCache,
            MmuStep::EnableMmuCachesBranchPrediction,
        ]
    );
}
