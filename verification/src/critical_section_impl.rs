//! Critical section implementations.
//!
//! Three variants guard shared state, one linked per build: a single-core
//! variant whose mutual exclusion is interrupt masking alone, a multi-core
//! spinlock variant for cores that share no hardware semaphore, and a
//! multi-core variant backed by a hardware semaphore register.  All three
//! share one contract: acquisition disables local interrupts and saves the
//! prior state in the returned token, nested acquisition on the same core
//! only counts, and the release that balances the first acquisition restores
//! the saved interrupt state.
//!
//! The processor's interrupt mask and the shared lock words live in hardware;
//! `InterruptControl`, `SpinLock` and `HsemRegister` model them as explicit
//! values, with the hardware semaphore's write-arbitration semantics spelled
//! out in `spec_hsem_write`.

use vstd::prelude::*;

use crate::CPU_ID;

verus! {

/// Bit of the processor status register that masks interrupts when set.
pub const CPSR_IRQ_MASK: u32 = 0x80;

/// Model of the processor's status register; only the interrupt mask bit
/// is interpreted.
#[derive(Debug, Clone, Copy, PartialEq, Eq, Structural)]
pub struct InterruptControl {
    /// Current status register value.
    pub cpsr: u32,
}

impl InterruptControl {
    /// Maskable interrupts reach the core while the mask bit is clear.
    pub open spec fn interrupts_enabled(&self) -> bool {
        self.cpsr & CPSR_IRQ_MASK == 0
    }
}

/// The state change of one `acquire` on the interrupt side: the prior status
/// register value becomes the token and the interrupt mask bit is set.
pub open spec fn spec_irq_save_disable(ic: InterruptControl) -> (InterruptControl, u32) {
    (InterruptControl { cpsr: ic.cpsr | CPSR_IRQ_MASK }, ic.cpsr)
}

/// The state change of the balancing `release` on the interrupt side: the
/// mask bit is cleared again only when the token recorded it clear.
pub open spec fn spec_irq_restore(ic: InterruptControl, token: u32) -> InterruptControl {
    if token & CPSR_IRQ_MASK == 0 {
        InterruptControl { cpsr: ic.cpsr & !CPSR_IRQ_MASK }
    } else {
        ic
    }
}

// ------------------------- single core -------------------------

/// Critical section for a single core: disabling local interrupts is the
/// entire mutual-exclusion mechanism, and a recursion counter makes the
/// section reentrant.
#[derive(Debug, Clone, Copy, PartialEq, Eq, Structural)]
pub struct SingleCoreCriticalSection {
    /// Recursion counter. Used to make the critical section reentrant.
    pub recursion_count: u32,
}

impl SingleCoreCriticalSection {
    /// Returns a section that nobody holds.
    pub fn new() -> (r: Self)
        ensures
            r.recursion_count == 0,
    {
        Self { recursion_count: 0 }
    }

    /// Enters the critical section: disables interrupts, counts the nesting
    /// level up and hands back the prior status register value as the token.
    pub fn acquire(&mut self, ic: &mut InterruptControl) -> (token: u32)
        requires
            old(self).recursion_count < 0xFFFFFFFF,
        ensures
            token == old(ic).cpsr,
            (*final(ic), token) == spec_irq_save_disable(*old(ic)),
            !final(ic).interrupts_enabled(),
            final(self).recursion_count == old(self).recursion_count + 1,
    {
        let token: u32 = ic.cpsr;
        ic.cpsr = ic.cpsr | CPSR_IRQ_MASK;
        proof {
            let c = token;
            assert((c | 0x80u32) & 0x80 != 0) by (bit_vector);
        }

        self.recursion_count = self.recursion_count + 1;

        token
    }

    /// Leaves the critical section: counts the nesting level down; only the
    /// release that balances the first acquisition restores the interrupt
    /// state saved in its token, every inner release changes nothing else.
    pub fn release(&mut self, ic: &mut InterruptControl, token: u32)
        requires
            old(self).recursion_count > 0,
        ensures
            final(self).recursion_count == old(self).recursion_count - 1,
            old(self).recursion_count > 1 ==> *final(ic) == *old(ic),
            old(self).recursion_count == 1 ==> *final(ic) == spec_irq_restore(*old(ic), token),
    {
        self.recursion_count = self.recursion_count - 1;
        if self.recursion_count > 0 {
            return ;
        }

        if token & CPSR_IRQ_MASK == 0 {
            ic.cpsr = ic.cpsr & !CPSR_IRQ_MASK;
        }
    }
}

/// Reentrancy of the single-core critical section: across the balanced call
/// sequence acquire, acquire, release, release, interrupts are disabled from
/// the first acquisition through the inner release, and only the final
/// release restores the interrupt state found before the first acquisition.
pub proof fn lemma_single_core_reentrancy(ic0: InterruptControl)
    ensures
        ({
            let (ic1, t1) = spec_irq_save_disable(ic0);
            let (ic2, t2) = spec_irq_save_disable(ic1);
            // the inner release (nesting level 2 to 1) leaves the interrupt
            // state untouched, so interrupts stay disabled throughout
            let ic3 = ic2;
            let ic4 = spec_irq_restore(ic3, t1);
            &&& !ic1.interrupts_enabled()
            &&& !ic2.interrupts_enabled()
            &&& !ic3.interrupts_enabled()
            &&& ic4.interrupts_enabled() == ic0.interrupts_enabled()
        }),
{
    let c = ic0.cpsr;
    assert((c | 0x80u32) & 0x80 != 0 && ((c | 0x80) | 0x80) & 0x80 != 0 && (((c | 0x80) | 0x80)
        & !0x80) & 0x80 == 0 && (c & 0x80 != 0 ==> (((c | 0x80) | 0x80) & 0x80 != 0))) by (
    bit_vector);
}

// ------------------------- multi core, spinlock -------------------------

/// Model of the shared one-bit spinlock word the multi-core spinlock variant
/// guards itself with.
#[derive(Debug, Clone, Copy, PartialEq, Eq, Structural)]
pub struct SpinLock {
    /// The lock word: some core holds the section while it is set.
    pub locked: bool,
}

/// Critical section for several cores without a hardware semaphore: a
/// compare-and-swap spinlock taken around the interrupt masking.
#[derive(Debug, Clone, Copy, PartialEq, Eq, Structural)]
pub struct MultiCoreCriticalSection {
    /// Recursion counter. Used to make the critical section reentrant.
    pub recursion_count: u32,
}

impl MultiCoreCriticalSection {
    /// Returns a section that this core does not hold.
    pub fn new() -> (r: Self)
        ensures
            r.recursion_count == 0,
    {
        Self { recursion_count: 0 }
    }

    /// Enters the critical section: disables interrupts, takes the shared
    /// lock word on the outermost entry, and counts the nesting level up.
    /// In this sequential model the call is specified for the states it
    /// returns from: the lock word free on the outermost entry.
    pub fn acquire(&mut self, lock: &mut SpinLock, ic: &mut InterruptControl) -> (token: u32)
        requires
            old(self).recursion_count < 0xFFFFFFFF,
            old(self).recursion_count == 0 ==> !old(lock).locked,
            old(self).recursion_count > 0 ==> old(lock).locked,
        ensures
            token == old(ic).cpsr,
            (*final(ic), token) == spec_irq_save_disable(*old(ic)),
            !final(ic).interrupts_enabled(),
            final(lock).locked,
            old(self).recursion_count > 0 ==> *final(lock) == *old(lock),
            final(self).recursion_count == old(self).recursion_count + 1,
    {
        let token: u32 = ic.cpsr;
        ic.cpsr = ic.cpsr | CPSR_IRQ_MASK;
        proof {
            let c = token;
            assert((c | 0x80u32) & 0x80 != 0) by (bit_vector);
        }

        if self.recursion_count == 0 {
            // The compare-and-swap succeeds exactly when the word is free.
            lock.locked = true;
        }

        self.recursion_count = self.recursion_count + 1;

        token
    }

    /// Leaves the critical section: counts the nesting level down; the
    /// release that balances the first acquisition clears the shared lock
    /// word and restores the interrupt state saved in its token.
    pub fn release(&mut self, lock: &mut SpinLock, ic: &mut InterruptControl, token: u32)
        requires
            old(self).recursion_count > 0,
        ensures
            final(self).recursion_count == old(self).recursion_count - 1,
            old(self).recursion_count > 1 ==> *final(ic) == *old(ic) && *final(lock) == *old(lock),
            old(self).recursion_count == 1 ==> !final(lock).locked && *final(ic)
                == spec_irq_restore(*old(ic), token),
    {
        self.recursion_count = self.recursion_count - 1;
        if self.recursion_count > 0 {
            return ;
        }

        lock.locked = false;

        if token & CPSR_IRQ_MASK == 0 {
            ic.cpsr = ic.cpsr & !CPSR_IRQ_MASK;
        }
    }
}

// ------------------------- multi core, hardware semaphore -------------------------

/// Model of the hardware semaphore register backing the critical section of
/// the application cores.  Writes are arbitrated by the hardware: of
/// concurrent lock attempts exactly one survives, and only the owner's
/// unlock is honoured.
#[derive(Debug, Clone, Copy, PartialEq, Eq, Structural)]
pub struct HsemRegister {
    /// Bus-master id of the owning core; 0 while free.
    pub coreid: u8,
    /// Process id the owning core wrote; 0 while free.
    pub procid: u8,
    /// The semaphore is taken while set.
    pub lock: bool,
}

/// The register value after one write reaches the semaphore: a lock write is
/// honoured only while the semaphore is free, an unlock write only when it
/// carries the exact owning pair, and every other write is ignored.
pub open spec fn spec_hsem_write(h: HsemRegister, coreid: u8, procid: u8, lock: bool) -> HsemRegister {
    if lock {
        if !h.lock {
            HsemRegister { coreid, procid, lock: true }
        } else {
            h
        }
    } else {
        if h.lock && h.coreid == coreid && h.procid == procid {
            HsemRegister { coreid: 0, procid: 0, lock: false }
        } else {
            h
        }
    }
}

/// The semaphore is held with process id `procid` on behalf of the
/// application cores' shared bus-master id.
pub open spec fn spec_holds(h: HsemRegister, procid: u8) -> bool {
    h.lock && h.coreid == CPU_ID as u8 && h.procid == procid
}

impl HsemRegister {
    /// Returns the semaphore in its reset state: free.
    pub fn new() -> (r: Self)
        ensures
            r == (HsemRegister { coreid: 0, procid: 0, lock: false }),
    {
        Self { coreid: 0, procid: 0, lock: false }
    }

    /// One write, as the hardware arbitrates it.
    pub fn write(&mut self, coreid: u8, procid: u8, lock: bool)
        ensures
            *final(self) == spec_hsem_write(*old(self), coreid, procid, lock),
    {
        if lock {
            if !self.lock {
                self.coreid = coreid;
                self.procid = procid;
                self.lock = true;
            }
        } else {
            if self.lock && self.coreid == coreid && self.procid == procid {
                self.coreid = 0;
                self.procid = 0;
                self.lock = false;
            }
        }
    }

    /// One read-back of the register.
    pub fn read(&self) -> (r: Self)
        ensures
            r == *self,
    {
        *self
    }
}

/// Process id a core writes into the semaphore: the core number plus one,
/// so that the id of an owner is never the free value 0.
pub fn hsem_proc_id(core_id: u32) -> (r: u8)
    ensures
        r == (core_id & 0x3) + 1,
        1 <= r <= 4,
    {
    proof {
        let c = core_id;
        assert(c & 0x3 <= 3) by (bit_vector);
    }
    ((core_id & 0x3) + 1) as u8
}

/// Critical section implementation using a hardware semaphore, shared by the
/// two application cores and told apart by their process ids.
///
/// **Important:** the semaphore block's clock must be enabled once before
/// any use of the critical section.
#[derive(Debug, Clone, Copy, PartialEq, Eq, Structural)]
pub struct HsemCriticalSection {
    /// Reentry counter.
    pub recursion_count: u32,
}

impl HsemCriticalSection {
    /// Returns a section that this core does not hold.
    pub fn new() -> (r: Self)
        ensures
            r.recursion_count == 0,
    {
        Self { recursion_count: 0 }
    }

    /// Enters the critical section: disables interrupts, then writes the
    /// core's owning pair into the semaphore and retries until the read-back
    /// reports exactly that pair, and counts the nesting level up.  In this
    /// sequential model the call is specified for the states it returns
    /// from: the semaphore free or already owned by this core.
    pub fn acquire(&mut self, hsem: &mut HsemRegister, ic: &mut InterruptControl, core_id: u32) -> (token:
        u32)
        requires
            old(self).recursion_count < 0xFFFFFFFF,
            !old(hsem).lock || spec_holds(*old(hsem), ((core_id & 0x3) + 1) as u8),
        ensures
            token == old(ic).cpsr,
            (*final(ic), token) == spec_irq_save_disable(*old(ic)),
            !final(ic).interrupts_enabled(),
            spec_holds(*final(hsem), ((core_id & 0x3) + 1) as u8),
            *final(hsem) == (
            HsemRegister {
                coreid: CPU_ID as u8,
                procid: ((core_id & 0x3) + 1) as u8,
                lock: true,
            }),
            final(self).recursion_count == old(self).recursion_count + 1,
    {
        let token: u32 = ic.cpsr;
        ic.cpsr = ic.cpsr | CPSR_IRQ_MASK;
        proof {
            let c = token;
            assert((c | 0x80u32) & 0x80 != 0) by (bit_vector);
        }

        let proc_id: u8 = hsem_proc_id(core_id);
        let core: u8 = CPU_ID as u8;

        let mut acquired: bool = false;
        while !acquired
            invariant
                !acquired ==> (!hsem.lock || spec_holds(*hsem, proc_id)),
                acquired ==> *hsem == (
                HsemRegister { coreid: CPU_ID as u8, procid: proc_id, lock: true }),
                core == CPU_ID as u8,
                proc_id == (core_id & 0x3) + 1,
            decreases (if acquired {
                0int
            } else {
                1int
            }),
        {
            hsem.write(core, proc_id, true);

            let r = hsem.read();

            if r.coreid == core && r.procid == proc_id && r.lock {
                acquired = true;
            }
        }

        self.recursion_count = self.recursion_count + 1;

        token
    }

    /// Leaves the critical section: counts the nesting level down; the
    /// release that balances the first acquisition writes the owning pair
    /// with the lock bit clear, retries until the read-back reports the
    /// semaphore free, and restores the interrupt state saved in its token.
    pub fn release(
        &mut self,
        hsem: &mut HsemRegister,
        ic: &mut InterruptControl,
        core_id: u32,
        token: u32,
    )
        requires
            old(self).recursion_count > 0,
            old(self).recursion_count == 1 ==> spec_holds(
                *old(hsem),
                ((core_id & 0x3) + 1) as u8,
            ),
        ensures
            final(self).recursion_count == old(self).recursion_count - 1,
            old(self).recursion_count > 1 ==> *final(ic) == *old(ic) && *final(hsem) == *old(hsem),
            old(self).recursion_count == 1 ==> !final(hsem).lock && *final(hsem) == (
            HsemRegister { coreid: 0, procid: 0, lock: false }) && *final(ic) == spec_irq_restore(
                *old(ic),
                token,
            ),
    {
        self.recursion_count = self.recursion_count - 1;
        if self.recursion_count > 0 {
            return ;
        }

        let proc_id: u8 = hsem_proc_id(core_id);
        let core: u8 = CPU_ID as u8;

        let mut released: bool = false;
        while !released
            invariant
                !released ==> spec_holds(*hsem, proc_id),
                released ==> *hsem == (HsemRegister { coreid: 0, procid: 0, lock: false }),
                core == CPU_ID as u8,
            decreases (if released {
                0int
            } else {
                1int
            }),
        {
            hsem.write(core, proc_id, false);

            if !hsem.read().lock {
                released = true;
            }
        }

        if token & CPSR_IRQ_MASK == 0 {
            ic.cpsr = ic.cpsr & !CPSR_IRQ_MASK;
        }
    }
}

/// Mutual exclusion of the hardware-semaphore critical section: of two
/// concurrent lock attempts on the free semaphore the arbitrated first one
/// succeeds; the semaphore never reports two owners at once; while one
/// process id owns it, a lock attempt under any other id leaves the
/// register unchanged, so the second core keeps spinning; and once the
/// owner's balanced release has freed the semaphore, the other core's next
/// lock attempt succeeds.
pub proof fn lemma_hsem_mutual_exclusion(h: HsemRegister, p1: u8, p2: u8)
    requires
        p1 != p2,
    ensures
        !h.lock ==> spec_holds(spec_hsem_write(h, CPU_ID as u8, p1, true), p1),
        !(spec_holds(h, p1) && spec_holds(h, p2)),
        spec_holds(h, p1) ==> spec_hsem_write(h, CPU_ID as u8, p2, true) == h && !spec_holds(
            spec_hsem_write(h, CPU_ID as u8, p2, true),
            p2,
        ),
        spec_holds(h, p1) ==> spec_holds(
            spec_hsem_write(spec_hsem_write(h, CPU_ID as u8, p1, false), CPU_ID as u8, p2, true),
            p2,
        ),
{
}

} // verus!
