//! Cache-maintenance computations: the set/way sweep order and coverage,
//! the level selection and the ranged clean.

use mp1_hal::memory::cache::clean_dcache_by_range;
use mp1_hal::memory::cache::invalidate_dcache_all;
use mp1_hal::memory::cache::l1c_maintain_dcache_set_way;
use mp1_hal::memory::cache::log2_up;

#[test]
fn log2_up_matches_its_table() {
    assert_eq!(log2_up(0), 0);
    assert_eq!(log2_up(1), 0);
    assert_eq!(log2_up(2), 1);
    assert_eq!(log2_up(3), 2);
    assert_eq!(log2_up(4), 2);
    assert_eq!(log2_up(5), 3);
    assert_eq!(log2_up(16), 4);
    assert_eq!(log2_up(32), 5);
}

#[test]
fn set_way_sweep_visits_every_pair_downwards() {
    // synthetic geometry: 4 ways, 8 sets, 16-byte lines
    let ccsidr: u32 = (7 << 13) | (3 << 3);
    let ops = l1c_maintain_dcache_set_way(1, ccsidr);

    // every (way, set) pair appears exactly once
    assert_eq!(ops.len(), 32);

    // descending ways outside, descending sets inside, exactly as the
    // completion ordering requires
    let mut expected: Vec<u32> = Vec::new();
    for way in (0..4u32).rev() {
        for set in (0..8u32).rev() {
            expected.push((1 << 1) | (set << 4) | (way << 30));
        }
    }
    assert_eq!(ops, expected);
}

#[test]
fn sweep_of_a_single_way_and_set_is_one_word() {
    // 1 way, 1 set
    let ops = l1c_maintain_dcache_set_way(0, 0);
    assert_eq!(ops, vec![0]);
}

#[test]
fn dcache_levels_follow_the_type_fields() {
    // level 0: separate data cache, level 1: unified, level 2: instruction
    let clidr: u32 = 3 | (4 << 3) | (1 << 6);
    assert_eq!(invalidate_dcache_all(clidr), vec![0, 1]);
    // no data or unified caches at all
    assert_eq!(invalidate_dcache_all(1 | (1 << 3)), Vec::<u32>::new());
}

#[test]
fn ranged_clean_covers_the_range_per_stride() {
    // an unaligned start is rounded down to the stride
    assert_eq!(
        clean_dcache_by_range(0x1003, 0x1020),
        vec![0x1000, 0x1008, 0x1010, 0x1018]
    );
    // an empty range still cleans the line holding the start
    assert_eq!(clean_dcache_by_range(0x2000, 0x2000), vec![0x2000]);
}
