//! Global interrupt controller.
//!
//! The controller consists of the shared distributor and a per-core CPU
//! interface.  All of its observable state lives in hardware registers; the
//! driver keeps no software-side state.  `GicState` models that register
//! file as plain words, with the same bank layout and write semantics
//! (set-enable/clear-enable pairs, byte-packed priority and target banks),
//! so every routing and packing computation below is checked against it.

use vstd::prelude::*;

verus! {

/// Number of words in the enable, pending, active and group banks
/// (32 interrupt lines each, 288 lines in all).
pub const IRQ_WORDS: usize = 9;

/// Number of words in the priority and target banks (4 lines per word).
pub const BYTE_WORDS: usize = 72;

/// Number of words in the configuration bank (16 lines per word).
pub const CFG_WORDS: usize = 18;

/// Number of words in the software-generated-interrupt pending bank.
pub const SGI_WORDS: usize = 4;

/// Number of interrupt lines the register banks can describe.
pub const MAX_IRQ: u32 = 288;

/// Model of the interrupt controller's register file.
pub struct GicState {
    /// Distributor group-0 forwarding enable (CTLR).
    pub dist_enabled: bool,
    /// Read-only type register (TYPER); bits [4:0] give the number of
    /// implemented 32-line blocks minus one.
    pub typer: u32,
    /// Interrupt enable bits (ISENABLER bank; writes to ICENABLER clear them).
    pub isenabler: Vec<u32>,
    /// Interrupt pending bits (ISPENDR bank; writes to ICPENDR clear them).
    pub ispendr: Vec<u32>,
    /// Interrupt active bits (ISACTIVER bank; writes to ICACTIVER clear them).
    pub isactiver: Vec<u32>,
    /// Software-generated-interrupt pending bytes (SPENDSGIR bank).
    pub spendsgir: Vec<u32>,
    /// Interrupt configuration fields, 2 bits per line (ICFGR bank).
    pub icfgr: Vec<u32>,
    /// Interrupt priority bytes (IPRIORITYR bank).
    pub ipriorityr: Vec<u32>,
    /// Interrupt target bytes (ITARGETSR bank; the first 8 words are read-only).
    pub itargetsr: Vec<u32>,
    /// Interrupt group bits (IGROUPR bank).
    pub igroupr: Vec<u32>,
    /// Last value written to the software-generated-interrupt register (SGIR).
    pub sgir: u32,
    /// CPU interface group-0 forwarding enable (CTLR).
    pub iface_enabled: bool,
    /// CPU interface priority mask (PMR).
    pub pmr: u32,
    /// CPU interface binary point (BPR).
    pub bpr: u32,
    /// CPU interface active priority bits (APR0).
    pub apr0: u32,
}

impl GicState {
    /// The register banks have their architectural sizes and the type
    /// register describes no more lines than the banks can hold.
    pub open spec fn wf(&self) -> bool {
        &&& self.isenabler@.len() == IRQ_WORDS
        &&& self.ispendr@.len() == IRQ_WORDS
        &&& self.isactiver@.len() == IRQ_WORDS
        &&& self.spendsgir@.len() == SGI_WORDS
        &&& self.icfgr@.len() == CFG_WORDS
        &&& self.ipriorityr@.len() == BYTE_WORDS
        &&& self.itargetsr@.len() == BYTE_WORDS
        &&& self.igroupr@.len() == IRQ_WORDS
        &&& (self.typer & 0x1F) < 9
    }

    /// Number of interrupt lines the distributor reports: 32 lines per
    /// implemented block.
    pub open spec fn spec_num_irq(&self) -> u32 {
        ((32 * ((self.typer & 0x1F) + 1)) as u32)
    }

    /// Enable bit of line `n`.
    pub open spec fn spec_enabled(&self, n: u32) -> u32 {
        (self.isenabler@[(n / 32) as int] >> (n % 32)) & 1
    }

    /// Pending bit of line `n` (peripheral lines only).
    pub open spec fn spec_pending(&self, n: u32) -> u32 {
        (self.ispendr@[(n / 32) as int] >> (n % 32)) & 1
    }

    /// Active bit of line `n`.
    pub open spec fn spec_active(&self, n: u32) -> u32 {
        (self.isactiver@[(n / 32) as int] >> (n % 32)) & 1
    }

    /// Pending byte of software-generated interrupt `n` (one bit per
    /// requesting core).
    pub open spec fn spec_sgi_pending(&self, n: u32) -> u32 {
        (self.spendsgir@[(n / 4) as int] >> ((n % 4) * 8)) & 0xFF
    }

    /// Configuration field of line `n` (2 bits).
    pub open spec fn spec_config(&self, n: u32) -> u32 {
        (self.icfgr@[(n / 16) as int] >> ((n % 16) * 2)) & 3
    }

    /// Priority byte of line `n`.
    pub open spec fn spec_priority(&self, n: u32) -> u32 {
        (self.ipriorityr@[(n / 4) as int] >> ((n % 4) * 8)) & 0xFF
    }

    /// Target byte of line `n` (one bit per CPU interface).
    pub open spec fn spec_target(&self, n: u32) -> u32 {
        (self.itargetsr@[(n / 4) as int] >> ((n % 4) * 8)) & 0xFF
    }

    /// Group bit of line `n`.
    pub open spec fn spec_group(&self, n: u32) -> u32 {
        (self.igroupr@[(n / 32) as int] >> (n % 32)) & 1
    }

    /// Returns a register file in its reset state.
    /// - `typer`: value of the read-only type register; its low five bits
    ///   must describe at most the 288 lines the banks can hold.
    pub fn new(typer: u32) -> (r: Self)
        requires
            (typer & 0x1F) < 9,
        ensures
            r.wf(),
            r.typer == typer,
            !r.dist_enabled,
            !r.iface_enabled,
            r.sgir == 0,
            r.pmr == 0,
            r.bpr == 0,
            r.apr0 == 0,
            forall|i: int| 0 <= i < IRQ_WORDS ==> r.isenabler@[i] == 0,
            forall|i: int| 0 <= i < IRQ_WORDS ==> r.ispendr@[i] == 0,
            forall|i: int| 0 <= i < IRQ_WORDS ==> r.isactiver@[i] == 0,
            forall|i: int| 0 <= i < SGI_WORDS ==> r.spendsgir@[i] == 0,
            forall|i: int| 0 <= i < CFG_WORDS ==> r.icfgr@[i] == 0,
            forall|i: int| 0 <= i < BYTE_WORDS ==> r.ipriorityr@[i] == 0,
            forall|i: int| 0 <= i < BYTE_WORDS ==> r.itargetsr@[i] == 0,
            forall|i: int| 0 <= i < IRQ_WORDS ==> r.igroupr@[i] == 0,
    {
        Self {
            dist_enabled: false,
            typer,
            isenabler: zero_words(IRQ_WORDS),
            ispendr: zero_words(IRQ_WORDS),
            isactiver: zero_words(IRQ_WORDS),
            spendsgir: zero_words(SGI_WORDS),
            icfgr: zero_words(CFG_WORDS),
            ipriorityr: zero_words(BYTE_WORDS),
            itargetsr: zero_words(BYTE_WORDS),
            igroupr: zero_words(IRQ_WORDS),
            sgir: 0,
            iface_enabled: false,
            pmr: 0,
            bpr: 0,
            apr0: 0,
        }
    }
}

/// Returns a vector of `n` zeroed words.
fn zero_words(n: usize) -> (r: Vec<u32>)
    ensures
        r@.len() == n,
        forall|i: int| 0 <= i < n ==> r@[i] == 0,
{
    let mut v: Vec<u32> = Vec::new();
    let mut i: usize = 0;
    while i < n
        invariant
            i <= n,
            v@.len() == i,
            forall|j: int| 0 <= j < i ==> v@[j] == 0,
        decreases n - i,
    {
        v.push(0);
        i = i + 1;
    }
    v
}

/// Enable the interrupt distributor using the GIC's CTLR register.
pub fn enable_distributor(g: &mut GicState)
    ensures
        *final(g) == (GicState { dist_enabled: true, ..*old(g) }),
{
    g.dist_enabled = true;
}

/// Disable the interrupt distributor using the GIC's CTLR register.
pub fn disable_distributor(g: &mut GicState)
    ensures
        *final(g) == (GicState { dist_enabled: false, ..*old(g) }),
{
    g.dist_enabled = false;
}

/// Reads the GIC's TYPER register.
pub fn distributor_info(g: &GicState) -> (r: u32)
    ensures
        r == g.typer,
{
    g.typer
}

/// Enables the CPU's interrupt interface.
pub fn enable_interface(g: &mut GicState)
    ensures
        *final(g) == (GicState { iface_enabled: true, ..*old(g) }),
{
    g.iface_enabled = true;
}

/// Disables the CPU's interrupt interface.
pub fn disable_interface(g: &mut GicState)
    ensures
        *final(g) == (GicState { iface_enabled: false, ..*old(g) }),
{
    g.iface_enabled = false;
}

/// Sets the interrupt priority mask using CPU's PMR register.
/// - `priority`: Priority mask to be set.
pub fn set_interface_priority_mask(g: &mut GicState, priority: u32)
    ensures
        *final(g) == (GicState { pmr: priority & 0xFF, ..*old(g) }),
{
    g.pmr = priority & 0xFF;
}

/// Reads the current interrupt priority mask from CPU's PMR register.
pub fn get_interface_priority_mask(g: &GicState) -> (r: u32)
    ensures
        r == g.pmr,
{
    g.pmr
}

/// Configures the group priority and subpriority split point using CPU's BPR register.
/// - `binary_point`: Amount of bits used as subpriority.
pub fn set_binary_point(g: &mut GicState, binary_point: u32)
    ensures
        *final(g) == (GicState { bpr: binary_point & 7, ..*old(g) }),
{
    g.bpr = binary_point & 7;
}

/// Reads the current group priority and subpriority split point from CPU's BPR register.
pub fn get_binary_point(g: &GicState) -> (r: u32)
    ensures
        r == g.bpr,
{
    g.bpr
}

// ------------------------- interrupt line access -------------------------

/// Enables the given interrupt using GIC's ISENABLER register.
/// - `irqn`: The interrupt to be enabled.
pub fn enable_irq(g: &mut GicState, irqn: u32)
    requires
        old(g).wf(),
        irqn < MAX_IRQ,
    ensures
        final(g).wf(),
        *final(g) == (GicState { isenabler: final(g).isenabler, ..*old(g) }),
        final(g).spec_enabled(irqn) == 1,
        forall|m: u32| #![trigger final(g).spec_enabled(m)] m < MAX_IRQ && m != irqn ==> final(g).spec_enabled(m) == old(g).spec_enabled(
            m,
        ),
{
    set_isenabler(g, (irqn / 32) as usize, 1 << (irqn % 32));
    proof {
        let s: u32 = (irqn % 32) as u32;
        lemma_bit_set(old(g).isenabler@[(irqn / 32) as int], s, s);
        assert forall|m: u32| m < MAX_IRQ && m != irqn implies g.spec_enabled(m) == old(
            g,
        ).spec_enabled(m) by {
            if m / 32 == irqn / 32 {
                lemma_distinct_bit_offsets(irqn, m);
                lemma_bit_set(old(g).isenabler@[(irqn / 32) as int], s, (m % 32) as u32);
            }
        }
    }
}

/// Gets interrupt enable status using GIC's ISENABLER register.
/// - `irqn`: The interrupt to be queried.
/// - Returns:
///   - 0 - interrupt is not enabled
///   - 1 - interrupt is enabled
pub fn get_enable_irq(g: &GicState, irqn: u32) -> (r: u32)
    requires
        g.wf(),
        irqn < MAX_IRQ,
    ensures
        r == g.spec_enabled(irqn),
{
    (isenabler(g, (irqn / 32) as usize) >> (irqn % 32)) & 1
}

/// Disables the given interrupt using GIC's ICENABLER register.
/// - `irqn`: The interrupt to be disabled.
pub fn disable_irq(g: &mut GicState, irqn: u32)
    requires
        old(g).wf(),
        irqn < MAX_IRQ,
    ensures
        final(g).wf(),
        *final(g) == (GicState { isenabler: final(g).isenabler, ..*old(g) }),
        final(g).spec_enabled(irqn) == 0,
        forall|m: u32| #![trigger final(g).spec_enabled(m)] m < MAX_IRQ && m != irqn ==> final(g).spec_enabled(m) == old(g).spec_enabled(
            m,
        ),
{
    set_icenabler(g, (irqn / 32) as usize, 1 << (irqn % 32));
    proof {
        let s: u32 = (irqn % 32) as u32;
        lemma_bit_clear(old(g).isenabler@[(irqn / 32) as int], s, s);
        assert forall|m: u32| m < MAX_IRQ && m != irqn implies g.spec_enabled(m) == old(
            g,
        ).spec_enabled(m) by {
            if m / 32 == irqn / 32 {
                lemma_distinct_bit_offsets(irqn, m);
                lemma_bit_clear(old(g).isenabler@[(irqn / 32) as int], s, (m % 32) as u32);
            }
        }
    }
}

/// Gets interrupt pending status from GIC's ISPENDR register.
/// - `irqn`: The interrupt to be queried.
/// - Returns:
///   - 0 - interrupt is not pending
///   - 1 - interrupt is pendig.
pub fn get_pending_irq(g: &GicState, irqn: u32) -> (r: u32)
    requires
        g.wf(),
        irqn < MAX_IRQ,
    ensures
        irqn >= 16 ==> r == g.spec_pending(irqn),
        irqn < 16 ==> r == (if g.spec_sgi_pending(irqn) != 0 {
            1u32
        } else {
            0u32
        }),
{
    let mut pend: u32;

    if irqn >= 16 {
        pend = (ispendr(g, (irqn / 32) as usize) >> (irqn % 32)) & 1;
    } else {
        // INTID 0-15 Software Generated Interrupt
        pend = (spendsgir(g, (irqn / 4) as usize) >> ((irqn % 4) * 8)) & 0xFF;

        // No CPU identification offered
        if pend != 0 {
            pend = 1;
        } else {
            pend = 0;
        }
    }

    pend
}

/// Sets the given interrupt as pending using GIC's ISPENDR register.
/// - `irqn`: The interrupt to be enabled.
pub fn set_pending_irq(g: &mut GicState, irqn: u32)
    requires
        old(g).wf(),
        irqn < MAX_IRQ,
    ensures
        final(g).wf(),
        irqn >= 16 ==> *final(g) == (GicState { ispendr: final(g).ispendr, ..*old(g) }),
        irqn >= 16 ==> final(g).spec_pending(irqn) == 1,
        irqn >= 16 ==> forall|m: u32|
            #![trigger final(g).spec_pending(m)]
            16 <= m < MAX_IRQ && m != irqn ==> final(g).spec_pending(m) == old(g).spec_pending(m),
        irqn < 16 ==> *final(g) == (GicState { spendsgir: final(g).spendsgir, ..*old(g) }),
        irqn < 16 ==> final(g).spec_sgi_pending(irqn) == (old(g).spec_sgi_pending(irqn) | 1),
        irqn < 16 ==> forall|m: u32|
            #![trigger final(g).spec_sgi_pending(m)]
            m < 16 && m != irqn ==> final(g).spec_sgi_pending(m) == old(g).spec_sgi_pending(m),
{
    if irqn >= 16 {
        set_ispendr(g, (irqn / 32) as usize, 1 << (irqn % 32));
        proof {
            let s: u32 = (irqn % 32) as u32;
            lemma_bit_set(old(g).ispendr@[(irqn / 32) as int], s, s);
            assert forall|m: u32| 16 <= m < MAX_IRQ && m != irqn implies g.spec_pending(m) == old(
                g,
            ).spec_pending(m) by {
                if m / 32 == irqn / 32 {
                    lemma_distinct_bit_offsets(irqn, m);
                    lemma_bit_set(old(g).ispendr@[(irqn / 32) as int], s, (m % 32) as u32);
                }
            }
        }
    } else {
        // INTID 0-15 Software Generated Interrupt
        set_spendsgir(g, (irqn / 4) as usize, 1 << ((irqn % 4) * 8));
        proof {
            let s: u32 = ((irqn % 4) * 8) as u32;
            lemma_byte_or_bit(old(g).spendsgir@[(irqn / 4) as int], s, s);
            assert forall|m: u32| m < 16 && m != irqn implies g.spec_sgi_pending(m) == old(
                g,
            ).spec_sgi_pending(m) by {
                if m / 4 == irqn / 4 {
                    lemma_distinct_byte_offsets(irqn, m);
                    lemma_byte_or_bit(old(g).spendsgir@[(irqn / 4) as int], s, ((m % 4) * 8) as u32);
                }
            }
        }
    }
}

/// Clears the given interrupt from being pending using GIC's ICPENDR register.
/// - `irqn`: The interrupt to be cleared.
pub fn clear_pending_irq(g: &mut GicState, irqn: u32)
    requires
        old(g).wf(),
        irqn < MAX_IRQ,
    ensures
        final(g).wf(),
        irqn >= 16 ==> *final(g) == (GicState { ispendr: final(g).ispendr, ..*old(g) }),
        irqn >= 16 ==> final(g).spec_pending(irqn) == 0,
        irqn >= 16 ==> forall|m: u32|
            #![trigger final(g).spec_pending(m)]
            16 <= m < MAX_IRQ && m != irqn ==> final(g).spec_pending(m) == old(g).spec_pending(m),
        irqn < 16 ==> *final(g) == (GicState { spendsgir: final(g).spendsgir, ..*old(g) }),
        irqn < 16 ==> final(g).spec_sgi_pending(irqn) == (old(g).spec_sgi_pending(irqn) & !1u32),
        irqn < 16 ==> forall|m: u32|
            #![trigger final(g).spec_sgi_pending(m)]
            m < 16 && m != irqn ==> final(g).spec_sgi_pending(m) == old(g).spec_sgi_pending(m),
{
    if irqn >= 16 {
        set_icpendr(g, (irqn / 32) as usize, 1 << (irqn % 32));
        proof {
            let s: u32 = (irqn % 32) as u32;
            lemma_bit_clear(old(g).ispendr@[(irqn / 32) as int], s, s);
            assert forall|m: u32| 16 <= m < MAX_IRQ && m != irqn implies g.spec_pending(m) == old(
                g,
            ).spec_pending(m) by {
                if m / 32 == irqn / 32 {
                    lemma_distinct_bit_offsets(irqn, m);
                    lemma_bit_clear(old(g).ispendr@[(irqn / 32) as int], s, (m % 32) as u32);
                }
            }
        }
    } else {
        // INTID 0-15 Software Generated Interrupt
        set_cpendsgir(g, (irqn / 4) as usize, 1 << ((irqn % 4) * 8));
        proof {
            let s: u32 = ((irqn % 4) * 8) as u32;
            lemma_byte_or_bit(old(g).spendsgir@[(irqn / 4) as int], s, s);
            assert forall|m: u32| m < 16 && m != irqn implies g.spec_sgi_pending(m) == old(
                g,
            ).spec_sgi_pending(m) by {
                if m / 4 == irqn / 4 {
                    lemma_distinct_byte_offsets(irqn, m);
                    lemma_byte_or_bit(old(g).spendsgir@[(irqn / 4) as int], s, ((m % 4) * 8) as u32);
                }
            }
        }
    }
}

/// Clears the given interrupt from being active using GIC's ICACTIVER register.
/// Software-generated interrupts (0-15) carry no per-line active state here
/// and are left untouched.
/// - `irqn`: The interrupt to be cleared.
pub fn clear_active_irq(g: &mut GicState, irqn: u32)
    requires
        old(g).wf(),
        irqn < MAX_IRQ,
    ensures
        final(g).wf(),
        *final(g) == (GicState { isactiver: final(g).isactiver, ..*old(g) }),
        irqn >= 16 ==> final(g).spec_active(irqn) == 0,
        irqn < 16 ==> final(g).isactiver@ == old(g).isactiver@,
        forall|m: u32|
            #![trigger final(g).spec_active(m)]
            16 <= m < MAX_IRQ && m != irqn ==> final(g).spec_active(m) == old(g).spec_active(m),
{
    if irqn >= 16 {
        set_icactiver(g, (irqn / 32) as usize, 1 << (irqn % 32));
        proof {
            let s: u32 = (irqn % 32) as u32;
            lemma_bit_clear(old(g).isactiver@[(irqn / 32) as int], s, s);
            assert forall|m: u32| 16 <= m < MAX_IRQ && m != irqn implies g.spec_active(m) == old(
                g,
            ).spec_active(m) by {
                if m / 32 == irqn / 32 {
                    lemma_distinct_bit_offsets(irqn, m);
                    lemma_bit_clear(old(g).isactiver@[(irqn / 32) as int], s, (m % 32) as u32);
                }
            }
        }
    } else {
        proof {
            assert(g.isactiver@ =~= old(g).isactiver@);
        }
    }
}

/// Sets the interrupt configuration using GIC's ICFGR register.
/// - `irqn`: The interrupt to be configured.
/// - `int_config`: Int_config field value.
///   - Bit 0: Reserved (0 - N-N model, 1 - 1-N model for some GIC before v1)
///   - Bit 1: 0 - level sensitive, 1 - edge triggered
pub fn set_configuration(g: &mut GicState, irqn: u32, int_config: u32)
    requires
        old(g).wf(),
        irqn < MAX_IRQ,
        int_config < 4,
    ensures
        final(g).wf(),
        *final(g) == (GicState { icfgr: final(g).icfgr, ..*old(g) }),
        final(g).spec_config(irqn) == int_config,
        forall|m: u32| #![trigger final(g).spec_config(m)] m < MAX_IRQ && m != irqn ==> final(g).spec_config(m) == old(g).spec_config(
            m,
        ),
{
    let mut word: u32 = icfgr(g, (irqn / 16) as usize);
    let shift: u32 = (irqn % 16) << 1;
    proof {
        let n = irqn;
        assert((n % 16) << 1 == (n % 16) * 2) by (bit_vector);
    }

    word &= !(3 << shift);
    word |= int_config << shift;

    set_icfgr(g, (irqn / 16) as usize, word);
    proof {
        let s: u32 = ((irqn % 16) * 2) as u32;
        assert((irqn % 16) << 1 == (irqn % 16) * 2) by (bit_vector);
        lemma_field2_replace(old(g).icfgr@[(irqn / 16) as int], int_config, s, s);
        assert forall|m: u32| m < MAX_IRQ && m != irqn implies g.spec_config(m) == old(
            g,
        ).spec_config(m) by {
            if m / 16 == irqn / 16 {
                lemma_distinct_cfg_offsets(irqn, m);
                lemma_field2_replace(old(g).icfgr@[(irqn / 16) as int], int_config, s, ((m % 16) * 2) as u32);
            }
        }
    }
}

/// Gets the interrupt configuration from the GIC's ICFGR register.
/// - `irqn`: Interrupt to acquire the configuration for.
/// - Returns Int_config field value.
///   - Bit 0: Reserved (0 - N-N model, 1 - 1-N model for some GIC before v1)
///   - Bit 1: 0 - level sensitive, 1 - edge triggered
pub fn get_configuration(g: &GicState, irqn: u32) -> (r: u32)
    requires
        g.wf(),
        irqn < MAX_IRQ,
    ensures
        r == g.spec_config(irqn),
{
    proof {
        let n = irqn;
        assert((n % 16) << 1 == (n % 16) * 2) by (bit_vector);
    }
    (icfgr(g, (irqn / 16) as usize) >> ((irqn % 16) << 1)) & 3
}

/// Sets the priority for the given interrupt in the GIC's IPRIORITYR register.
/// - `irqn`: The interrupt to be configured.
/// - `priority`: The priority for the interrupt, lower values denote higher priorities.
pub fn set_priority(g: &mut GicState, irqn: u32, priority: u32)
    requires
        old(g).wf(),
        irqn < MAX_IRQ,
    ensures
        final(g).wf(),
        *final(g) == (GicState { ipriorityr: final(g).ipriorityr, ..*old(g) }),
        final(g).spec_priority(irqn) == priority & 0xFF,
        forall|m: u32| #![trigger final(g).spec_priority(m)] m < MAX_IRQ && m != irqn ==> final(g).spec_priority(m) == old(
            g,
        ).spec_priority(m),
{
    let mask: u32 = ipriorityr(g, (irqn / 4) as usize) & !(0xFF << ((irqn % 4) * 8));
    set_ipriorityr(g, (irqn / 4) as usize, mask | ((priority & 0xFF) << ((irqn % 4) * 8)));
    proof {
        let s: u32 = ((irqn % 4) * 8) as u32;
        lemma_byte_replace(old(g).ipriorityr@[(irqn / 4) as int], priority, s, s);
        assert forall|m: u32| m < MAX_IRQ && m != irqn implies g.spec_priority(m) == old(
            g,
        ).spec_priority(m) by {
            if m / 4 == irqn / 4 {
                lemma_distinct_byte_offsets(irqn, m);
                lemma_byte_replace(old(g).ipriorityr@[(irqn / 4) as int], priority, s, ((m % 4) * 8) as u32);
            }
        }
    }
}

/// Reads the current interrupt priority from GIC's IPRIORITYR register.
/// - `irqn`: The interrupt to be queried.
pub fn get_priority(g: &GicState, irqn: u32) -> (r: u32)
    requires
        g.wf(),
        irqn < MAX_IRQ,
    ensures
        r == g.spec_priority(irqn),
{
    (ipriorityr(g, (irqn / 4) as usize) >> ((irqn % 4) * 8)) & 0xFF
}

/// Sets the GIC's ITARGETSR register for the given interrupt.  The targets
/// of the private lines (0-31) are read-only.
/// - `irqn`: Interrupt to be configured.
/// - `cpu_target`: CPU interfaces to assign this interrupt to.
pub fn set_target(g: &mut GicState, irqn: u32, cpu_target: u32)
    requires
        old(g).wf(),
        32 <= irqn < MAX_IRQ,
    ensures
        final(g).wf(),
        *final(g) == (GicState { itargetsr: final(g).itargetsr, ..*old(g) }),
        final(g).spec_target(irqn) == cpu_target & 0xFF,
        forall|m: u32| #![trigger final(g).spec_target(m)] m < MAX_IRQ && m != irqn ==> final(g).spec_target(m) == old(g).spec_target(
            m,
        ),
{
    let mask: u32 = itargetsr(g, (irqn / 4) as usize) & !(0xFF << ((irqn % 4) * 8));
    set_itargetsr(g, (irqn / 4) as usize, mask | ((cpu_target & 0xFF) << ((irqn % 4) * 8)));
    proof {
        let s: u32 = ((irqn % 4) * 8) as u32;
        lemma_byte_replace(old(g).itargetsr@[(irqn / 4) as int], cpu_target, s, s);
        assert forall|m: u32| m < MAX_IRQ && m != irqn implies g.spec_target(m) == old(
            g,
        ).spec_target(m) by {
            if m / 4 == irqn / 4 {
                lemma_distinct_byte_offsets(irqn, m);
                lemma_byte_replace(old(g).itargetsr@[(irqn / 4) as int], cpu_target, s, ((m % 4) * 8) as u32);
            }
        }
    }
}

/// Reads the GIC's ITARGETSR register.
/// - `irqn`: Interrupt to acquire the configuration for.
pub fn get_target(g: &GicState, irqn: u32) -> (r: u32)
    requires
        g.wf(),
        irqn < MAX_IRQ,
    ensures
        r == g.spec_target(irqn),
{
    (itargetsr(g, (irqn / 4) as usize) >> ((irqn % 4) * 8)) & 0xFF
}

/// Sets the interrupt group from the GIC's IGROUPR register.
/// - `irqn`: The interrupt to be queried.
/// - `group`:  Interrupt group number:
///   - 0 - Group 0
///   - 1 - Group 1
pub fn set_group(g: &mut GicState, irqn: u32, group: u32)
    requires
        old(g).wf(),
        irqn < MAX_IRQ,
    ensures
        final(g).wf(),
        *final(g) == (GicState { igroupr: final(g).igroupr, ..*old(g) }),
        final(g).spec_group(irqn) == group & 1,
        forall|m: u32| #![trigger final(g).spec_group(m)] m < MAX_IRQ && m != irqn ==> final(g).spec_group(m) == old(g).spec_group(m),
{
    let mut word: u32 = igroupr(g, (irqn / 32) as usize);
    let shift: u32 = irqn % 32;

    word &= !(1 << shift);
    word |= (group & 1) << shift;

    set_igroupr(g, (irqn / 32) as usize, word);
    proof {
        let s: u32 = (irqn % 32) as u32;
        lemma_bit_replace(old(g).igroupr@[(irqn / 32) as int], group, s, s);
        assert forall|m: u32| m < MAX_IRQ && m != irqn implies g.spec_group(m) == old(g).spec_group(
            m,
        ) by {
            if m / 32 == irqn / 32 {
                lemma_distinct_bit_offsets(irqn, m);
                lemma_bit_replace(old(g).igroupr@[(irqn / 32) as int], group, s, (m % 32) as u32);
            }
        }
    }
}

/// Gets the interrupt group from the GIC's IGROUPR register.
/// - `irqn`:  The interrupt to be queried.
/// - Returns:
///   - 0 - Group 0
///   - 1 - Group 1
pub fn gic_get_group(g: &GicState, irqn: u32) -> (r: u32)
    requires
        g.wf(),
        irqn < MAX_IRQ,
    ensures
        r == g.spec_group(irqn),
{
    (igroupr(g, (irqn / 32) as usize) >> (irqn % 32)) & 1
}

/// Gets the status for a given interrupt.
/// - `irqn`: The interrupt to get status for.
/// - Returns:
///   - 0 - not pending/active
///   - 1 - pending
///   - 2 - active
///   - 3 - pending and active
pub fn get_irq_status(g: &GicState, irqn: u32) -> (r: u32)
    requires
        g.wf(),
        irqn < MAX_IRQ,
    ensures
        r == (g.spec_active(irqn) << 1) | g.spec_pending(irqn),
{
    let active: u32 = (isactiver(g, (irqn / 32) as usize) >> (irqn % 32)) & 1;
    let pending: u32 = (ispendr(g, (irqn / 32) as usize) >> (irqn % 32)) & 1;

    (active << 1) | pending
}

/// Generates a software interrupt using GIC's SGIR register.
/// - `irqn` -  Software interrupt to be generated.
/// - `target_list`: List of CPUs the software interrupt should be forwarded to.
/// - `filter_list`: Filter to be applied to determine interrupt receivers.
pub fn send_sgi(g: &mut GicState, irqn: u32, target_list: u32, filter_list: u32)
    ensures
        *final(g) == (
        GicState {
            sgir: ((filter_list & 0x03) << 24) | ((target_list & 0xFF) << 16) | (irqn & 0x0F),
            ..*old(g)
        }),
{
    g.sgir = ((filter_list & 0x03) << 24) | ((target_list & 0xFF) << 16) | (irqn & 0x0F);
}

/// Priority packing round-trip: when `g2` is `g1` after the priority-bank
/// word write that stores priority `p` for line `n`, then line `n` reads
/// back exactly `p`'s low byte, and every other line's priority is
/// undisturbed — the lines sharing the same backing word included.
pub proof fn lemma_priority_roundtrip(g1: GicState, g2: GicState, n: u32, p: u32)
    requires
        g1.wf(),
        n < MAX_IRQ,
        g2.ipriorityr@ == g1.ipriorityr@.update(
            (n / 4) as int,
            (g1.ipriorityr@[(n / 4) as int] & !(0xFFu32 << (((n % 4) * 8) as u32))) | ((p & 0xFF)
                << (((n % 4) * 8) as u32)),
        ),
    ensures
        g2.spec_priority(n) == p & 0xFF,
        forall|m: u32| m < MAX_IRQ && m != n ==> g2.spec_priority(m) == g1.spec_priority(m),
{
    let s: u32 = ((n % 4) * 8) as u32;
    lemma_byte_replace(g1.ipriorityr@[(n / 4) as int], p, s, s);
    assert forall|m: u32| m < MAX_IRQ && m != n implies g2.spec_priority(m) == g1.spec_priority(
        m,
    ) by {
        if m / 4 == n / 4 {
            lemma_distinct_byte_offsets(n, m);
            lemma_byte_replace(g1.ipriorityr@[(n / 4) as int], p, s, ((m % 4) * 8) as u32);
        }
    }
}

// ------------------------- start-up sequences -------------------------

/// Constant byte masks the start-up sequences store through `set_priority`
/// and `set_target`.
proof fn lemma_byte_mask_consts()
    by (bit_vector)
    ensures
        0xFFu32 & 0xFF == 0xFF,
        0x7Fu32 & 0xFF == 0x7F,
        1u32 & 0xFF == 1,
        0u32 & 7 == 0,
{
}


/// Initializes the interrupt distributor: forwarding is switched off, the
/// implemented priority width is probed on line 0, and every shared
/// peripheral line is disabled, made level-sensitive, given the default
/// priority and targeted at CPU 0 before forwarding is switched on again.
pub fn dist_init(g: &mut GicState)
    requires
        old(g).wf(),
    ensures
        final(g).wf(),
        final(g).dist_enabled,
        final(g).typer == old(g).typer,
        final(g).iface_enabled == old(g).iface_enabled,
        final(g).pmr == old(g).pmr,
        final(g).bpr == old(g).bpr,
        final(g).apr0 == old(g).apr0,
        final(g).sgir == old(g).sgir,
        final(g).ispendr@ == old(g).ispendr@,
        final(g).isactiver@ == old(g).isactiver@,
        final(g).spendsgir@ == old(g).spendsgir@,
        final(g).igroupr@ == old(g).igroupr@,
        final(g).spec_priority(0) == 0xFF,
        forall|i: u32| 32 <= i < old(g).spec_num_irq() ==> final(g).spec_enabled(i) == 0,
        forall|i: u32| 32 <= i < old(g).spec_num_irq() ==> final(g).spec_config(i) == 0,
        forall|i: u32| 32 <= i < old(g).spec_num_irq() ==> final(g).spec_priority(i) == 0x7F,
        forall|i: u32| 32 <= i < old(g).spec_num_irq() ==> final(g).spec_target(i) == 1,
        forall|i: u32| #![trigger final(g).spec_enabled(i)] i < 32 ==> final(g).spec_enabled(i) == old(g).spec_enabled(i),
        forall|i: u32| #![trigger final(g).spec_config(i)] i < 32 ==> final(g).spec_config(i) == old(g).spec_config(i),
        forall|i: u32| #![trigger final(g).spec_priority(i)] 0 < i < 32 ==> final(g).spec_priority(i) == old(g).spec_priority(i),
{
    let ghost g0 = *old(g);
    proof {
        lemma_byte_mask_consts();
    }

    // A reset sets all bits in the IGROUPRs corresponding to the SPIs to 0,
    // configuring all of the interrupts as Secure.

    // Disable interrupt forwarding.
    disable_distributor(g);

    // Get the maximum number of interrupts that the GIC supports.
    let num_irq: u32 = 32 * ((distributor_info(g) & 0x1F) + 1);

    // Priority level is implementation defined.
    // To determine the number of priority bits implemented write 0xFF to an IPRIORITYR
    // priority field and read back the value stored.
    set_priority(g, 0, 0xFF);
    let priority_field: u32 = get_priority(g, 0);

    let mut i: u32 = 32;
    while i < num_irq
        invariant
            g.wf(),
            num_irq == g0.spec_num_irq(),
            num_irq <= MAX_IRQ,
            32 <= i <= num_irq,
            priority_field == 0xFF,
            g.typer == g0.typer,
            !g.dist_enabled,
            g.iface_enabled == g0.iface_enabled,
            g.pmr == g0.pmr,
            g.bpr == g0.bpr,
            g.apr0 == g0.apr0,
            g.sgir == g0.sgir,
            g.ispendr@ == g0.ispendr@,
            g.isactiver@ == g0.isactiver@,
            g.spendsgir@ == g0.spendsgir@,
            g.igroupr@ == g0.igroupr@,
            g.spec_priority(0) == 0xFF,
            forall|j: u32| 32 <= j < i ==> g.spec_enabled(j) == 0,
            forall|j: u32| 32 <= j < i ==> g.spec_config(j) == 0,
            forall|j: u32| 32 <= j < i ==> g.spec_priority(j) == 0x7F,
            forall|j: u32| 32 <= j < i ==> g.spec_target(j) == 1,
            forall|j: u32| j < 32 ==> g.spec_enabled(j) == g0.spec_enabled(j),
            forall|j: u32| j < 32 ==> g.spec_config(j) == g0.spec_config(j),
            forall|j: u32| 0 < j < 32 ==> g.spec_priority(j) == g0.spec_priority(j),
        decreases num_irq - i,
    {
        let ghost gs = *g;

        // Disable the SPI interrupt.
        disable_irq(g, i);
        let ghost s1 = *g;

        // Set level-sensitive (and N-N model).
        set_configuration(g, i, 0);
        let ghost s2 = *g;

        // Set priority
        set_priority(g, i, priority_field / 2);
        let ghost s3 = *g;

        // Set target list to CPU0
        set_target(g, i, 1);

        proof {
            lemma_byte_mask_consts();
            // Carry every untouched line's fields across the four writes.
            assert forall|j: u32| #![trigger g.spec_enabled(j)] j < MAX_IRQ && j != i implies g.spec_enabled(
                j,
            ) == gs.spec_enabled(j) by {
                assert(s1.spec_enabled(j) == gs.spec_enabled(j));
            }
            assert forall|j: u32| #![trigger g.spec_config(j)] j < MAX_IRQ && j != i implies g.spec_config(
                j,
            ) == gs.spec_config(j) by {
                assert(s1.spec_config(j) == gs.spec_config(j));
                assert(s2.spec_config(j) == s1.spec_config(j));
            }
            assert forall|j: u32| #![trigger g.spec_priority(j)] j < MAX_IRQ && j != i implies g.spec_priority(
                j,
            ) == gs.spec_priority(j) by {
                assert(s2.spec_priority(j) == gs.spec_priority(j));
                assert(s3.spec_priority(j) == s2.spec_priority(j));
            }
            assert forall|j: u32| #![trigger g.spec_target(j)] j < MAX_IRQ && j != i implies g.spec_target(
                j,
            ) == gs.spec_target(j) by {
                assert(s3.spec_target(j) == gs.spec_target(j));
                assert(g.spec_target(j) == s3.spec_target(j));
            }
            assert(g.spec_enabled(i) == 0);
            assert(g.spec_config(i) == 0);
            assert(g.spec_priority(i) == 0x7F);
            assert(g.spec_target(i) == 1);
        }

        i = i + 1;
    }

    // Enable distributor
    let ghost ge = *g;
    enable_distributor(g);

    proof {
        assert forall|j: u32| #![trigger g.spec_enabled(j)] 32 <= j < g0.spec_num_irq() implies g.spec_enabled(
            j,
        ) == 0 by {
            assert(g.spec_enabled(j) == ge.spec_enabled(j));
        }
        assert forall|j: u32| #![trigger g.spec_config(j)] j < MAX_IRQ implies g.spec_config(j)
            == ge.spec_config(j) by {
            assert(g.spec_config(j) == ge.spec_config(j));
        }
        assert forall|j: u32| #![trigger g.spec_priority(j)] j < MAX_IRQ implies g.spec_priority(j)
            == ge.spec_priority(j) by {
            assert(g.spec_priority(j) == ge.spec_priority(j));
        }
        assert forall|j: u32| #![trigger g.spec_target(j)] j < MAX_IRQ implies g.spec_target(j)
            == ge.spec_target(j) by {
            assert(g.spec_target(j) == ge.spec_target(j));
        }
        assert forall|j: u32| #![trigger g.spec_enabled(j)] j < 32 implies g.spec_enabled(j)
            == ge.spec_enabled(j) by {
            assert(g.spec_enabled(j) == ge.spec_enabled(j));
        }
    }
}

/// Initializes the CPU's interrupt interface: forwarding is switched off,
/// the implemented priority width is probed on line 0, every private line is
/// disabled and given the default priority (peripheral-private lines are also
/// made level-sensitive), and the interface is enabled with an open priority
/// mask.
pub fn cpu_interface_init(g: &mut GicState)
    requires
        old(g).wf(),
    ensures
        final(g).wf(),
        final(g).iface_enabled,
        final(g).bpr == 0,
        final(g).pmr == 0xFF,
        final(g).typer == old(g).typer,
        final(g).dist_enabled == old(g).dist_enabled,
        final(g).apr0 == old(g).apr0,
        final(g).sgir == old(g).sgir,
        final(g).ispendr@ == old(g).ispendr@,
        final(g).isactiver@ == old(g).isactiver@,
        final(g).spendsgir@ == old(g).spendsgir@,
        final(g).igroupr@ == old(g).igroupr@,
        final(g).itargetsr@ == old(g).itargetsr@,
        forall|i: u32| i < 32 ==> final(g).spec_enabled(i) == 0,
        forall|i: u32| i < 32 ==> final(g).spec_priority(i) == 0x7F,
        forall|i: u32| 16 <= i < 32 ==> final(g).spec_config(i) == 0,
        forall|i: u32| #![trigger final(g).spec_enabled(i)] 32 <= i < MAX_IRQ ==> final(g).spec_enabled(i) == old(g).spec_enabled(i),
        forall|i: u32| #![trigger final(g).spec_priority(i)] 32 <= i < MAX_IRQ ==> final(g).spec_priority(i) == old(g).spec_priority(i),
        forall|i: u32| #![trigger final(g).spec_config(i)] 32 <= i < MAX_IRQ ==> final(g).spec_config(i) == old(g).spec_config(i),
{
    let ghost g0 = *old(g);
    proof {
        lemma_byte_mask_consts();
    }

    // A reset sets all bits in the IGROUPRs corresponding to the SPIs to 0,
    // configuring all of the interrupts as Secure.

    // Disable interrupt forwarding.
    disable_interface(g);

    // Priority level is implementation defined.
    // To determine the number of priority bits implemented write 0xFF to an IPRIORITYR
    // priority field and read back the value stored.
    set_priority(g, 0, 0xFF);
    let priority_field: u32 = get_priority(g, 0);

    // SGI and PPI.
    let mut i: u32 = 0;
    while i < 32
        invariant
            g.wf(),
            i <= 32,
            priority_field == 0xFF,
            g.typer == g0.typer,
            g.dist_enabled == g0.dist_enabled,
            !g.iface_enabled,
            g.pmr == g0.pmr,
            g.bpr == g0.bpr,
            g.apr0 == g0.apr0,
            g.sgir == g0.sgir,
            g.ispendr@ == g0.ispendr@,
            g.isactiver@ == g0.isactiver@,
            g.spendsgir@ == g0.spendsgir@,
            g.igroupr@ == g0.igroupr@,
            g.itargetsr@ == g0.itargetsr@,
            forall|j: u32| j < i ==> g.spec_enabled(j) == 0,
            forall|j: u32| j < i ==> g.spec_priority(j) == 0x7F,
            forall|j: u32| 16 <= j < i ==> g.spec_config(j) == 0,
            forall|j: u32| 32 <= j < MAX_IRQ ==> g.spec_enabled(j) == g0.spec_enabled(j),
            forall|j: u32| 32 <= j < MAX_IRQ ==> g.spec_priority(j) == g0.spec_priority(j),
            forall|j: u32| 32 <= j < MAX_IRQ ==> g.spec_config(j) == g0.spec_config(j),
        decreases 32 - i,
    {
        let ghost gs = *g;

        if i > 15 {
            // Set level-sensitive (and N-N model) for PPI.
            set_configuration(g, i, 0);
        }
        let ghost s1 = *g;

        // Disable SGI and PPI interrupts.
        disable_irq(g, i);
        let ghost s2 = *g;

        // Set priority.
        set_priority(g, i, priority_field / 2);

        proof {
            lemma_byte_mask_consts();
            // Carry every untouched line's fields across the writes.
            assert forall|j: u32| #![trigger g.spec_config(j)] j < MAX_IRQ && j != i implies g.spec_config(
                j,
            ) == gs.spec_config(j) by {
                assert(s1.spec_config(j) == gs.spec_config(j));
                assert(s2.spec_config(j) == s1.spec_config(j));
            }
            assert forall|j: u32| #![trigger g.spec_enabled(j)] j < MAX_IRQ && j != i implies g.spec_enabled(
                j,
            ) == gs.spec_enabled(j) by {
                assert(s1.spec_enabled(j) == gs.spec_enabled(j));
                assert(s2.spec_enabled(j) == s1.spec_enabled(j));
            }
            assert forall|j: u32| #![trigger g.spec_priority(j)] j < MAX_IRQ && j != i implies g.spec_priority(
                j,
            ) == gs.spec_priority(j) by {
                assert(s2.spec_priority(j) == gs.spec_priority(j));
                assert(g.spec_priority(j) == s2.spec_priority(j));
            }
            assert(g.spec_enabled(i) == 0);
            assert(g.spec_priority(i) == 0x7F);
            assert(i > 15 ==> g.spec_config(i) == 0);
        }

        i = i + 1;
    }

    // Enable interface.
    let ghost ge = *g;
    enable_interface(g);

    // Set binary point to 0.
    set_binary_point(g, 0);

    // Set priority mask.
    set_interface_priority_mask(g, 0xFF);

    proof {
        assert forall|j: u32| #![trigger g.spec_enabled(j)] j < MAX_IRQ implies g.spec_enabled(j)
            == ge.spec_enabled(j) by {
            assert(g.spec_enabled(j) == ge.spec_enabled(j));
        }
        assert forall|j: u32| #![trigger g.spec_config(j)] j < MAX_IRQ implies g.spec_config(j)
            == ge.spec_config(j) by {
            assert(g.spec_config(j) == ge.spec_config(j));
        }
        assert forall|j: u32| #![trigger g.spec_priority(j)] j < MAX_IRQ implies g.spec_priority(j)
            == ge.spec_priority(j) by {
            assert(g.spec_priority(j) == ge.spec_priority(j));
        }
    }
}

/// Initializes and enable the GIC.
pub fn enable(g: &mut GicState)
    requires
        old(g).wf(),
    ensures
        final(g).wf(),
        final(g).dist_enabled,
        final(g).iface_enabled,
        final(g).bpr == 0,
        final(g).pmr == 0xFF,
        final(g).typer == old(g).typer,
        final(g).apr0 == old(g).apr0,
        final(g).sgir == old(g).sgir,
        final(g).ispendr@ == old(g).ispendr@,
        final(g).isactiver@ == old(g).isactiver@,
        final(g).spendsgir@ == old(g).spendsgir@,
        final(g).igroupr@ == old(g).igroupr@,
        forall|i: u32| i < old(g).spec_num_irq() ==> final(g).spec_enabled(i) == 0,
        forall|i: u32| i < old(g).spec_num_irq() ==> final(g).spec_priority(i) == 0x7F,
        forall|i: u32| 16 <= i < old(g).spec_num_irq() ==> final(g).spec_config(i) == 0,
        forall|i: u32| 32 <= i < old(g).spec_num_irq() ==> final(g).spec_target(i) == 1,
{
    dist_init(g);
    let ghost mid = *g;
    cpu_interface_init(g);  // per CPU

    proof {
        assert forall|j: u32| #![trigger g.spec_enabled(j)] j < old(g).spec_num_irq() implies g.spec_enabled(
            j,
        ) == 0 by {
            if j >= 32 {
                assert(g.spec_enabled(j) == mid.spec_enabled(j));
                assert(mid.spec_enabled(j) == 0);
            }
        }
        assert forall|j: u32| #![trigger g.spec_priority(j)] j < old(g).spec_num_irq() implies g.spec_priority(
            j,
        ) == 0x7F by {
            if j >= 32 {
                assert(g.spec_priority(j) == mid.spec_priority(j));
                assert(mid.spec_priority(j) == 0x7F);
            }
        }
        assert forall|j: u32| #![trigger g.spec_config(j)] 16 <= j < old(g).spec_num_irq() implies g.spec_config(
            j,
        ) == 0 by {
            if j >= 32 {
                assert(g.spec_config(j) == mid.spec_config(j));
                assert(mid.spec_config(j) == 0);
            }
        }
        assert forall|j: u32| #![trigger g.spec_target(j)] 32 <= j < old(g).spec_num_irq() implies g.spec_target(
            j,
        ) == 1 by {
            assert(g.spec_target(j) == mid.spec_target(j));
            assert(mid.spec_target(j) == 1);
        }
    }
}

// ------------------------- field update lemmas -------------------------

/// Setting or clearing the lowest bit of the byte at bit offset `s` of a
/// word changes only that byte.
proof fn lemma_byte_or_bit(w: u32, s: u32, t: u32)
    by (bit_vector)
    requires
        s < 32,
        s % 8 == 0,
        t < 32,
        t % 8 == 0,
    ensures
        (((w | (1u32 << s)) >> s) & 0xFF) == ((w >> s) & 0xFF) | 1,
        t != s ==> (((w | (1u32 << s)) >> t) & 0xFF) == (w >> t) & 0xFF,
        (((w & !(1u32 << s)) >> s) & 0xFF) == ((w >> s) & 0xFF) & !1u32,
        t != s ==> (((w & !(1u32 << s)) >> t) & 0xFF) == (w >> t) & 0xFF,
{
}


/// Replacing the byte at bit offset `s` of a word sets that byte and leaves
/// every other byte of the word unchanged.
proof fn lemma_byte_replace(w: u32, p: u32, s: u32, t: u32)
    by (bit_vector)
    requires
        s < 32,
        s % 8 == 0,
        t < 32,
        t % 8 == 0,
    ensures
        ((((w & !(0xFFu32 << s)) | ((p & 0xFF) << s)) >> s) & 0xFF) == p & 0xFF,
        t != s ==> ((((w & !(0xFFu32 << s)) | ((p & 0xFF) << s)) >> t) & 0xFF) == (w >> t) & 0xFF,
{
}

/// Setting the bit at offset `s` of a word makes it one and leaves every
/// other bit of the word unchanged.
proof fn lemma_bit_set(w: u32, s: u32, t: u32)
    by (bit_vector)
    requires
        s < 32,
        t < 32,
    ensures
        (((w | (1u32 << s)) >> s) & 1) == 1,
        t != s ==> (((w | (1u32 << s)) >> t) & 1) == (w >> t) & 1,
{
}

/// Clearing the bit at offset `s` of a word makes it zero and leaves every
/// other bit of the word unchanged.
proof fn lemma_bit_clear(w: u32, s: u32, t: u32)
    by (bit_vector)
    requires
        s < 32,
        t < 32,
    ensures
        (((w & !(1u32 << s)) >> s) & 1) == 0,
        t != s ==> (((w & !(1u32 << s)) >> t) & 1) == (w >> t) & 1,
{
}

/// Replacing the single bit at offset `s` of a word stores the bit's value
/// and leaves every other bit of the word unchanged.
proof fn lemma_bit_replace(w: u32, b: u32, s: u32, t: u32)
    by (bit_vector)
    requires
        s < 32,
        t < 32,
    ensures
        ((((w & !(1u32 << s)) | ((b & 1) << s)) >> s) & 1) == b & 1,
        t != s ==> ((((w & !(1u32 << s)) | ((b & 1) << s)) >> t) & 1) == (w >> t) & 1,
{
}

/// Replacing the 2-bit field at bit offset `s` of a word stores the field
/// and leaves every other 2-bit field of the word unchanged.
proof fn lemma_field2_replace(w: u32, c: u32, s: u32, t: u32)
    by (bit_vector)
    requires
        s < 32,
        s % 2 == 0,
        t < 32,
        t % 2 == 0,
        c < 4,
    ensures
        ((((w & !(3u32 << s)) | (c << s)) >> s) & 3) == c,
        t != s ==> ((((w & !(3u32 << s)) | (c << s)) >> t) & 3) == (w >> t) & 3,
{
}

/// Two different line numbers that share a priority- or target-bank word
/// sit at different byte offsets.
proof fn lemma_distinct_byte_offsets(n: u32, m: u32)
    requires
        n != m,
        n / 4 == m / 4,
    ensures
        (n % 4) * 8 != (m % 4) * 8,
        (n % 4) * 8 < 32,
        ((n % 4) * 8) % 8 == 0,
{
    assert(n == (n / 4) * 4 + n % 4) by (nonlinear_arith);
    assert(m == (m / 4) * 4 + m % 4) by (nonlinear_arith);
}

/// Two different line numbers that share an enable-bank word sit at
/// different bit offsets.
proof fn lemma_distinct_bit_offsets(n: u32, m: u32)
    requires
        n != m,
        n / 32 == m / 32,
    ensures
        n % 32 != m % 32,
        n % 32 < 32,
{
    assert(n == (n / 32) * 32 + n % 32) by (nonlinear_arith);
    assert(m == (m / 32) * 32 + m % 32) by (nonlinear_arith);
}

/// Two different line numbers that share a configuration-bank word sit at
/// different field offsets.
proof fn lemma_distinct_cfg_offsets(n: u32, m: u32)
    requires
        n != m,
        n / 16 == m / 16,
    ensures
        (n % 16) * 2 != (m % 16) * 2,
        (n % 16) * 2 < 32,
        ((n % 16) * 2) % 2 == 0,
{
    assert(n == (n / 16) * 16 + n % 16) by (nonlinear_arith);
    assert(m == (m / 16) * 16 + m % 16) by (nonlinear_arith);
}

// ------------------------- register bank access -------------------------

/// Reads the ISENABLER register for an index.
fn isenabler(g: &GicState, index: usize) -> (r: u32)
    requires
        g.wf(),
        index < IRQ_WORDS,
    ensures
        r == g.isenabler@[index as int],
{
    g.isenabler[index]
}

/// Sets the ISENABLER register for an index; each one bit written enables
/// the matching line.
fn set_isenabler(g: &mut GicState, index: usize, value: u32)
    requires
        old(g).wf(),
        index < IRQ_WORDS,
    ensures
        *final(g) == (GicState { isenabler: final(g).isenabler, ..*old(g) }),
        final(g).isenabler@ == old(g).isenabler@.update(
            index as int,
            old(g).isenabler@[index as int] | value,
        ),
{
    let word = g.isenabler[index] | value;
    g.isenabler[index] = word;
}

/// Sets the ICENABLER register for an index; each one bit written disables
/// the matching line.
fn set_icenabler(g: &mut GicState, index: usize, value: u32)
    requires
        old(g).wf(),
        index < IRQ_WORDS,
    ensures
        *final(g) == (GicState { isenabler: final(g).isenabler, ..*old(g) }),
        final(g).isenabler@ == old(g).isenabler@.update(
            index as int,
            old(g).isenabler@[index as int] & !value,
        ),
{
    let word = g.isenabler[index] & !value;
    g.isenabler[index] = word;
}

/// Reads the ISPENDR register for an index.
fn ispendr(g: &GicState, index: usize) -> (r: u32)
    requires
        g.wf(),
        index < IRQ_WORDS,
    ensures
        r == g.ispendr@[index as int],
{
    g.ispendr[index]
}

/// Sets the ISPENDR register for an index; each one bit written marks the
/// matching line pending.
fn set_ispendr(g: &mut GicState, index: usize, value: u32)
    requires
        old(g).wf(),
        index < IRQ_WORDS,
    ensures
        *final(g) == (GicState { ispendr: final(g).ispendr, ..*old(g) }),
        final(g).ispendr@ == old(g).ispendr@.update(
            index as int,
            old(g).ispendr@[index as int] | value,
        ),
{
    let word = g.ispendr[index] | value;
    g.ispendr[index] = word;
}

/// Sets the ICPENDR register for an index; each one bit written clears the
/// matching line's pending state.
fn set_icpendr(g: &mut GicState, index: usize, value: u32)
    requires
        old(g).wf(),
        index < IRQ_WORDS,
    ensures
        *final(g) == (GicState { ispendr: final(g).ispendr, ..*old(g) }),
        final(g).ispendr@ == old(g).ispendr@.update(
            index as int,
            old(g).ispendr@[index as int] & !value,
        ),
{
    let word = g.ispendr[index] & !value;
    g.ispendr[index] = word;
}

/// Reads the ISACTIVER register for an index.
fn isactiver(g: &GicState, index: usize) -> (r: u32)
    requires
        g.wf(),
        index < IRQ_WORDS,
    ensures
        r == g.isactiver@[index as int],
{
    g.isactiver[index]
}

/// Sets the ICACTIVER register for an index; each one bit written clears the
/// matching line's active state.
fn set_icactiver(g: &mut GicState, index: usize, value: u32)
    requires
        old(g).wf(),
        index < IRQ_WORDS,
    ensures
        *final(g) == (GicState { isactiver: final(g).isactiver, ..*old(g) }),
        final(g).isactiver@ == old(g).isactiver@.update(
            index as int,
            old(g).isactiver@[index as int] & !value,
        ),
{
    let word = g.isactiver[index] & !value;
    g.isactiver[index] = word;
}

/// Reads the SPENDSGIR register for an index.
fn spendsgir(g: &GicState, index: usize) -> (r: u32)
    requires
        g.wf(),
        index < SGI_WORDS,
    ensures
        r == g.spendsgir@[index as int],
{
    g.spendsgir[index]
}

/// Sets the SPENDSGIR register for an index; each one bit written marks the
/// matching software-generated interrupt pending for one requesting core.
fn set_spendsgir(g: &mut GicState, index: usize, value: u32)
    requires
        old(g).wf(),
        index < SGI_WORDS,
    ensures
        *final(g) == (GicState { spendsgir: final(g).spendsgir, ..*old(g) }),
        final(g).spendsgir@ == old(g).spendsgir@.update(
            index as int,
            old(g).spendsgir@[index as int] | value,
        ),
{
    let word = g.spendsgir[index] | value;
    g.spendsgir[index] = word;
}

/// Sets the CPENDSGIR register for an index; each one bit written clears the
/// matching software-generated interrupt's pending state.
fn set_cpendsgir(g: &mut GicState, index: usize, value: u32)
    requires
        old(g).wf(),
        index < SGI_WORDS,
    ensures
        *final(g) == (GicState { spendsgir: final(g).spendsgir, ..*old(g) }),
        final(g).spendsgir@ == old(g).spendsgir@.update(
            index as int,
            old(g).spendsgir@[index as int] & !value,
        ),
{
    let word = g.spendsgir[index] & !value;
    g.spendsgir[index] = word;
}

/// Returns the ICFGR register for an index.
fn icfgr(g: &GicState, index: usize) -> (r: u32)
    requires
        g.wf(),
        index < CFG_WORDS,
    ensures
        r == g.icfgr@[index as int],
{
    g.icfgr[index]
}

/// Sets the ICFGR register for an index.
fn set_icfgr(g: &mut GicState, index: usize, value: u32)
    requires
        old(g).wf(),
        index < CFG_WORDS,
    ensures
        *final(g) == (GicState { icfgr: final(g).icfgr, ..*old(g) }),
        final(g).icfgr@ == old(g).icfgr@.update(index as int, value),
{
    g.icfgr[index] = value;
}

/// Reads the ITARGETSR register for an index.
fn itargetsr(g: &GicState, index: usize) -> (r: u32)
    requires
        g.wf(),
        index < BYTE_WORDS,
    ensures
        r == g.itargetsr@[index as int],
{
    g.itargetsr[index]
}

/// Sets the ITARGETSR register for an index.  The first 8 words are the
/// read-only banked targets of the private lines and may not be written.
fn set_itargetsr(g: &mut GicState, index: usize, value: u32)
    requires
        old(g).wf(),
        8 <= index < BYTE_WORDS,
    ensures
        *final(g) == (GicState { itargetsr: final(g).itargetsr, ..*old(g) }),
        final(g).itargetsr@ == old(g).itargetsr@.update(index as int, value),
{
    g.itargetsr[index] = value;
}

/// Reads the IPRIORITYR register for an index.
fn ipriorityr(g: &GicState, index: usize) -> (r: u32)
    requires
        g.wf(),
        index < BYTE_WORDS,
    ensures
        r == g.ipriorityr@[index as int],
{
    g.ipriorityr[index]
}

/// Sets the IPRIORITYR register for an index.
fn set_ipriorityr(g: &mut GicState, index: usize, value: u32)
    requires
        old(g).wf(),
        index < BYTE_WORDS,
    ensures
        *final(g) == (GicState { ipriorityr: final(g).ipriorityr, ..*old(g) }),
        final(g).ipriorityr@ == old(g).ipriorityr@.update(index as int, value),
{
    g.ipriorityr[index] = value;
}

/// Returns the IGROUPR register for an index.
fn igroupr(g: &GicState, index: usize) -> (r: u32)
    requires
        g.wf(),
        index < IRQ_WORDS,
    ensures
        r == g.igroupr@[index as int],
{
    g.igroupr[index]
}

/// Sets the IGROUPR register for an index.
fn set_igroupr(g: &mut GicState, index: usize, value: u32)
    requires
        old(g).wf(),
        index < IRQ_WORDS,
    ensures
        *final(g) == (GicState { igroupr: final(g).igroupr, ..*old(g) }),
        final(g).igroupr@ == old(g).igroupr@.update(index as int, value),
{
    g.igroupr[index] = value;
}

} // verus!
