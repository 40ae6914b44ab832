//! Bit-manipulation helper behaviour on concrete values.

use mp1_hal::bitworker::bitmask;
use mp1_hal::bitworker::BitWorker;

#[test]
fn bitmask_builds_contiguous_masks() {
    assert_eq!(bitmask(4, 2), 0b111100);
    assert_eq!(bitmask(0, 5), 0);
    assert_eq!(bitmask(1, 0), 1);
    assert_eq!(bitmask(31, 0), 0x7FFF_FFFF);
    assert_eq!(bitmask(16, 16), 0xFFFF_0000);
}

#[test]
fn subvalue_extracts_fields() {
    let w = BitWorker::new(0b11010100);
    assert_eq!(w.subvalue(3, 4), 0b1010);
    assert_eq!(w.subvalue(0, 3), 0b100);
    assert_eq!(w.value(), 0b11010100);
}

#[test]
fn is_set_reads_single_bits() {
    let w = BitWorker::new(0b01100100);
    assert!(w.is_set(5));
    assert!(!w.is_set(0));
    assert!(w.is_set(2));
}

#[test]
fn set_and_clear_flip_single_bits() {
    let mut w = BitWorker::new(0b11000001);
    w.set(3);
    assert_eq!(w.value(), 0b11001001);

    let mut w = BitWorker::new(0b11000001);
    w.clear(6);
    assert_eq!(w.value(), 0b10000001);
}

#[test]
fn replace_substitutes_fields() {
    let mut w = BitWorker::new(0b10010100);
    w.replace(0b1110, 3, 3);
    assert_eq!(w.value(), 0b10110100);
}

#[test]
fn mask_keeps_only_masked_bits() {
    let mut w = BitWorker::new(0b11001011);
    w.mask(0b01100001);
    assert_eq!(w.value(), 0b01000001);
}

#[test]
fn chained_bit_edits_compose() {
    let mut w = BitWorker::new(0);
    w.set(0).set(4).replace(0b11, 8, 2);
    assert_eq!(w.value(), 0b11_0001_0001);
}
