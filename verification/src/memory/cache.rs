//! Cache control.
//!
//! Whole-cache maintenance walks the cache by (way, set) coordinates: the
//! geometry of each level is decoded from its size-identification register
//! value, and the maintenance words are issued for every (way, set) pair
//! from the highest way and set downwards.  That descending order is
//! architecturally required for completion ordering and is pinned down by
//! the contracts here; the hardware layer issues the returned words in the
//! order given.

use vstd::prelude::*;

verus! {

/// Floor of the base-2 logarithm: 0 for inputs below 2, otherwise one more
/// than the floor logarithm of the input halved.
pub open spec fn spec_floor_log2(n: u32) -> int
    decreases n,
{
    if n < 2 {
        0
    } else {
        1 + spec_floor_log2((n / 2) as u32)
    }
}

/// The value `log2_up` computes: the floor logarithm, plus one for odd
/// inputs above one.
pub open spec fn spec_log2_up(n: u32) -> int {
    if n < 2 {
        0
    } else if n % 2 == 1 {
        spec_floor_log2(n) + 1
    } else {
        spec_floor_log2(n)
    }
}

/// The floor logarithm of a 32-bit value never exceeds 31, and two to its
/// power never exceeds the value.
proof fn lemma_floor_log2_bound(n: u32)
    ensures
        0 <= spec_floor_log2(n) <= 31,
        n >= 1 ==> (1u64 << (spec_floor_log2(n) as u64)) <= n as u64,
    decreases n,
{
    if n < 2 {
        assert(1u64 << 0u64 == 1) by (bit_vector);
    } else {
        let h = (n / 2) as u32;
        lemma_floor_log2_bound(h);
        let f2 = spec_floor_log2(h);
        let e = f2 as u64;
        assert(e <= 31 ==> (1u64 << (e + 1)) == 2 * (1u64 << e) && (1u64 << e) >= 1) by (
        bit_vector);
        if f2 == 31 {
            assert(1u64 << 31u64 == 0x80000000) by (bit_vector);
        }
        assert(spec_floor_log2(n) == f2 + 1);
        assert((f2 + 1) as u64 == e + 1);
        assert((1u64 << (e + 1)) <= 2 * (h as u64));
        assert(2 * (h as u64) <= n as u64);
    }
}

/// Calculate log2 rounded up.
///
/// - log(0)  => 0
/// - log(1)  => 0
/// - log(2)  => 1
/// - log(3)  => 2
/// - log(4)  => 2
/// - log(5)  => 3
///       :      :
/// - log(16) => 4
/// - log(32) => 5
///       :      :
pub fn log2_up(n: u32) -> (r: u8)
    ensures
        r == spec_log2_up(n),
        r <= 32,
{
    if n < 2 {
        return 0;
    }
    let mut log: u8 = 0;
    let mut t: u32 = n;

    while t > 1
        invariant
            1 <= t <= n,
            spec_floor_log2(n) == log + spec_floor_log2(t),
            log <= 31,
        decreases t,
    {
        proof {
            lemma_floor_log2_bound(n);
            lemma_floor_log2_bound(t);
            lemma_floor_log2_bound((t / 2) as u32);
            assert(t >> 1u32 == t / 2) by (bit_vector);
        }
        log += 1;
        t >>= 1;
    }

    if n & 1 != 0 {
        proof {
            lemma_floor_log2_bound(n);
            let m = n;
            assert((m & 1 != 0) == (m % 2 == 1)) by (bit_vector);
        }
        log += 1;
    } else {
        proof {
            let m = n;
            assert((m & 1 != 0) == (m % 2 == 1)) by (bit_vector);
        }
    }

    log
}

/// Number of sets a size-identification register value describes.
pub open spec fn spec_num_sets(ccsidr: u32) -> u32 {
    ((((ccsidr & 0x0FFFE000) >> 13) + 1) as u32)
}

/// Number of ways a size-identification register value describes.
pub open spec fn spec_num_ways(ccsidr: u32) -> u32 {
    ((((ccsidr & 0x00001FF8) >> 3) + 1) as u32)
}

/// Base-2 logarithm of the line size in bytes a size-identification
/// register value describes.
pub open spec fn spec_log2_linesize(ccsidr: u32) -> u32 {
    (((ccsidr & 0x00000007) + 2 + 2) as u32)
}

/// The set and way fields never overflow their registers: the set count
/// fits in 15 bits, the way count in 10, and the line-size logarithm is
/// at most 11.
proof fn lemma_geometry_bounds(ccsidr: u32)
    ensures
        (ccsidr & 0x0FFFE000) >> 13 <= 0x7FFF,
        (ccsidr & 0x00001FF8) >> 3 <= 0x3FF,
        ccsidr & 0x00000007 <= 7,
        1 <= spec_num_sets(ccsidr) <= 0x8000,
        1 <= spec_num_ways(ccsidr) <= 0x400,
        4 <= spec_log2_linesize(ccsidr) <= 11,
{
    let c = ccsidr;
    assert((c & 0x0FFFE000) >> 13 <= 0x7FFF) by (bit_vector);
    assert((c & 0x00001FF8) >> 3 <= 0x3FF) by (bit_vector);
    assert(c & 0x00000007 <= 7) by (bit_vector);
}

/// The maintenance word for one (way, set) coordinate of a cache level:
/// the level field, the set shifted to the line-size offset and the way
/// shifted to the top of the word.  A single way (a zero-width way field)
/// contributes nothing.
pub open spec fn spec_set_way_word(level: u32, ccsidr: u32, way: u32, set: u32) -> u32 {
    (level << 1) | (set << spec_log2_linesize(ccsidr)) | (if spec_log2_up(spec_num_ways(ccsidr))
        == 0 {
        0u32
    } else {
        way << ((32 - spec_log2_up(spec_num_ways(ccsidr))) as u32)
    })
}

/// The maintenance word at position `k` of the sweep: ways are walked from
/// the highest downwards, and for each way every set from the highest
/// downwards.
pub open spec fn spec_sweep_word(level: u32, ccsidr: u32, k: int) -> u32 {
    spec_set_way_word(
        level,
        ccsidr,
        ((spec_num_ways(ccsidr) - 1 - k / (spec_num_sets(ccsidr) as int)) as u32),
        ((spec_num_sets(ccsidr) - 1 - k % (spec_num_sets(ccsidr) as int)) as u32),
    )
}

/// Apply cache maintenance to given cache level: returns the maintenance
/// words for every (way, set) pair of the level, highest way and set first,
/// in the exact order the hardware layer must issue them.
/// - `level:` cache level to be maintained.
/// - `ccsidr:` the level's size-identification register value.
pub fn l1c_maintain_dcache_set_way(level: u32, ccsidr: u32) -> (r: Vec<u32>)
    requires
        level < 8,
    ensures
        r@.len() == spec_num_ways(ccsidr) * spec_num_sets(ccsidr),
        forall|k: int| 0 <= k < r@.len() ==> r@[k] == spec_sweep_word(level, ccsidr, k),
{
    proof {
        lemma_geometry_bounds(ccsidr);
    }
    let num_sets: u32 = ((ccsidr & 0x0FFFE000) >> 13) + 1;
    let num_ways: u32 = ((ccsidr & 0x00001FF8) >> 3) + 1;
    let log2_linesize: u32 = (ccsidr & 0x00000007) + 2 + 2;
    let log2_num_ways: u8 = log2_up(num_ways);

    let mut ops: Vec<u32> = Vec::new();

    let mut way: u32 = num_ways;
    while way > 0
        invariant
            level < 8,
            way <= num_ways,
            num_sets == spec_num_sets(ccsidr),
            num_ways == spec_num_ways(ccsidr),
            log2_linesize == spec_log2_linesize(ccsidr),
            log2_num_ways == spec_log2_up(num_ways),
            log2_num_ways <= 32,
            1 <= num_sets <= 0x8000,
            1 <= num_ways <= 0x400,
            4 <= log2_linesize <= 11,
            ops@.len() == (num_ways - way) * num_sets,
            forall|k: int| 0 <= k < ops@.len() ==> ops@[k] == spec_sweep_word(level, ccsidr, k),
        decreases way,
    {
        way = way - 1;
        let mut set: u32 = num_sets;
        while set > 0
            invariant
                level < 8,
                way < num_ways,
                set <= num_sets,
                num_sets == spec_num_sets(ccsidr),
                num_ways == spec_num_ways(ccsidr),
                log2_linesize == spec_log2_linesize(ccsidr),
                log2_num_ways == spec_log2_up(num_ways),
                log2_num_ways <= 32,
                1 <= num_sets <= 0x8000,
                1 <= num_ways <= 0x400,
                4 <= log2_linesize <= 11,
                ops@.len() == (num_ways - 1 - way) * num_sets + (num_sets - set),
                forall|k: int| 0 <= k < ops@.len() ==> ops@[k] == spec_sweep_word(level, ccsidr, k),
            decreases set,
        {
            set = set - 1;
            let way_bits: u32 = if log2_num_ways == 0 {
                0
            } else {
                let shift_way: u32 = 32 - (log2_num_ways as u32);
                way << shift_way
            };
            let dummy: u32 = (level << 1) | (set << log2_linesize) | way_bits;

            proof {
                let k = ops@.len() as int;
                assert(k == (num_ways - 1 - way) * num_sets + (num_sets - 1 - set)) by (
                nonlinear_arith)
                    requires
                        k == (num_ways - 1 - way) * num_sets + (num_sets - set) - 1,
                        set < num_sets,
                ;
                assert(k / (num_sets as int) == num_ways - 1 - way && k % (num_sets as int)
                    == num_sets - 1 - set) by (nonlinear_arith)
                    requires
                        k == (num_ways - 1 - way) * num_sets + (num_sets - 1 - set),
                        0 <= num_sets - 1 - set < num_sets,
                        way < num_ways,
                        num_sets >= 1,
                ;
                assert(dummy == spec_sweep_word(level, ccsidr, k));
            }

            ops.push(dummy);
        }

        proof {
            assert((num_ways - 1 - way) * num_sets + num_sets == (num_ways - way) * num_sets) by (
            nonlinear_arith);
        }
    }

    proof {
        assert(ops@.len() == num_ways * num_sets) by (nonlinear_arith)
            requires
                ops@.len() == (num_ways - 0) * num_sets + (num_sets - num_sets)
                    || ops@.len() == (num_ways - 0) * num_sets,
                num_ways >= 1,
        ;
    }

    ops
}

/// Set/way sweep completeness: every (way, set) pair of a level's geometry
/// is visited by the sweep, at the one position that walks ways from the
/// highest downwards and, within a way, sets from the highest downwards.
/// The position decodes back to the pair, so no pair appears twice.
pub proof fn lemma_sweep_complete(level: u32, ccsidr: u32, way: u32, set: u32)
    requires
        way < spec_num_ways(ccsidr),
        set < spec_num_sets(ccsidr),
    ensures
        ({
            let k = (spec_num_ways(ccsidr) - 1 - way) * spec_num_sets(ccsidr) + (spec_num_sets(
                ccsidr,
            ) - 1 - set);
            &&& 0 <= k < spec_num_ways(ccsidr) * spec_num_sets(ccsidr)
            &&& spec_sweep_word(level, ccsidr, k) == spec_set_way_word(level, ccsidr, way, set)
        }),
{
    lemma_geometry_bounds(ccsidr);
    let w = spec_num_ways(ccsidr) as int;
    let n = spec_num_sets(ccsidr) as int;
    let k = (w - 1 - way) * n + (n - 1 - set);
    assert(0 <= k < w * n && k / n == w - 1 - way && k % n == n - 1 - set) by (nonlinear_arith)
        requires
            k == (w - 1 - way) * n + (n - 1 - set),
            0 <= way < w,
            0 <= set < n,
            0 <= n - 1 - set < n,
    ;
}

/// Cache type field of a level in the cache level descriptor register:
/// 3 bits per level.
pub open spec fn spec_cache_type(clidr: u32, level: u32) -> u32 {
    (clidr >> (level * 3)) & 0x07
}

/// The data and unified cache levels a cache level descriptor register
/// names, in ascending order, starting at `level`.
pub open spec fn spec_dcache_levels(clidr: u32, level: int) -> Seq<u32>
    decreases 7 - level,
{
    if level < 0 || level >= 7 {
        Seq::empty()
    } else if 2 <= spec_cache_type(clidr, level as u32) <= 4 {
        seq![level as u32] + spec_dcache_levels(clidr, level + 1)
    } else {
        spec_dcache_levels(clidr, level + 1)
    }
}

/// Invalidate all data caches: returns the cache levels whose whole set/way
/// range must be swept, in the ascending order the sweeps are issued.  A
/// level is swept when its type field names a data or unified cache.
/// - `clidr:` the cache level descriptor register value.
pub fn invalidate_dcache_all(clidr: u32) -> (r: Vec<u32>)
    ensures
        r@ == spec_dcache_levels(clidr, 0),
        forall|k: int| 0 <= k < r@.len() ==> 2 <= spec_cache_type(clidr, #[trigger] r@[k]) <= 4,
        forall|k: int| 0 <= k < r@.len() ==> r@[k] < 7,
{
    let mut levels: Vec<u32> = Vec::new();
    let mut i: u32 = 0;
    while i < 7
        invariant
            i <= 7,
            levels@ + spec_dcache_levels(clidr, i as int) =~= spec_dcache_levels(clidr, 0),
            forall|k: int| 0 <= k < levels@.len() ==> 2 <= spec_cache_type(clidr, #[trigger] levels@[k]) <= 4,
            forall|k: int| 0 <= k < levels@.len() ==> levels@[k] < 7,
        decreases 7 - i,
    {
        proof {
            let c = clidr;
            let l = i;
            assert(l < 7 ==> (c >> (l * 3)) & 0x07 <= 7) by (bit_vector);
        }
        let cache_type: u32 = (clidr >> (i * 3)) & 0x07;
        if 2 <= cache_type && cache_type <= 4 {
            levels.push(i);
        }
        i = i + 1;
    }
    proof {
        assert(levels@ + spec_dcache_levels(clidr, 7) =~= levels@);
    }
    levels
}

/// Clean data cache for an address range: returns the addresses to clean by
/// virtual address, one per 8-byte maintenance stride, starting at the range
/// start rounded down to the stride and continuing while the previous
/// address lies below the range end.  At least one address is always
/// cleaned.
pub fn clean_dcache_by_range(start_addr: u32, end_addr: u32) -> (r: Vec<u32>)
    requires
        end_addr <= 0xFFFFFFF8,
    ensures
        r@.len() >= 1,
        forall|k: int| 0 <= k < r@.len() ==> r@[k] == (start_addr & !7u32) + 8 * k,
        r@[r@.len() - 1] + 8 >= end_addr,
        forall|k: int| 0 <= k < r@.len() - 1 ==> r@[k] + 8 < end_addr,
{
    proof {
        let s = start_addr;
        assert((s & !7u32) <= s && (s & !7u32) <= 0xFFFFFFF8) by (bit_vector);
    }
    let base: u32 = start_addr & !7;
    let mut addr: u32 = base;
    let mut ops: Vec<u32> = Vec::new();
    ops.push(addr);

    while addr < end_addr && end_addr - addr > 8
        invariant
            end_addr <= 0xFFFFFFF8,
            ops@.len() >= 1,
            addr == base + 8 * (ops@.len() - 1),
            addr <= 0xFFFFFFF8,
            forall|k: int| 0 <= k < ops@.len() ==> ops@[k] == base + 8 * k,
            forall|k: int| 0 <= k < ops@.len() - 1 ==> ops@[k] + 8 < end_addr,
        decreases end_addr - addr,
    {
        addr = addr + 8;
        ops.push(addr);
    }

    ops
}

} // verus!
