//! Critical-section behaviour: reentrancy on one core and mutual exclusion
//! through the hardware semaphore.

use mp1_hal::critical_section_impl::hsem_proc_id;
use mp1_hal::critical_section_impl::HsemCriticalSection;
use mp1_hal::critical_section_impl::HsemRegister;
use mp1_hal::critical_section_impl::InterruptControl;
use mp1_hal::critical_section_impl::MultiCoreCriticalSection;
use mp1_hal::critical_section_impl::SingleCoreCriticalSection;
use mp1_hal::critical_section_impl::SpinLock;
use mp1_hal::CPU_ID;

#[test]
fn single_core_nested_sections_restore_interrupts_once() {
    let mut cs = SingleCoreCriticalSection::new();
    // interrupts enabled before the first acquisition
    let mut ic = InterruptControl { cpsr: 0 };

    let t1 = cs.acquire(&mut ic);
    assert_eq!(t1, 0);
    assert_eq!(ic.cpsr & 0x80, 0x80);

    let t2 = cs.acquire(&mut ic);
    assert_eq!(t2, 0x80);
    assert_eq!(ic.cpsr & 0x80, 0x80);

    cs.release(&mut ic, t2);
    // the inner release must not re-enable interrupts
    assert_eq!(ic.cpsr & 0x80, 0x80);

    cs.release(&mut ic, t1);
    // only the balancing release restores the initial state
    assert_eq!(ic.cpsr & 0x80, 0);
    assert_eq!(cs.recursion_count, 0);
}

#[test]
fn single_core_sections_keep_interrupts_disabled_when_they_were() {
    let mut cs = SingleCoreCriticalSection::new();
    // interrupts already disabled before the first acquisition
    let mut ic = InterruptControl { cpsr: 0x80 };

    let t1 = cs.acquire(&mut ic);
    cs.release(&mut ic, t1);
    assert_eq!(ic.cpsr & 0x80, 0x80);
}

#[test]
fn spinlock_section_takes_and_frees_the_shared_word() {
    let mut cs = MultiCoreCriticalSection::new();
    let mut lock = SpinLock { locked: false };
    let mut ic = InterruptControl { cpsr: 0 };

    let t1 = cs.acquire(&mut lock, &mut ic);
    assert!(lock.locked);
    assert_eq!(ic.cpsr & 0x80, 0x80);

    let t2 = cs.acquire(&mut lock, &mut ic);
    assert!(lock.locked);
    cs.release(&mut lock, &mut ic, t2);
    // the inner release leaves the lock held
    assert!(lock.locked);

    cs.release(&mut lock, &mut ic, t1);
    assert!(!lock.locked);
    assert_eq!(ic.cpsr & 0x80, 0);
}

#[test]
fn hsem_section_acquires_by_write_and_read_back() {
    let mut cs = HsemCriticalSection::new();
    let mut hsem = HsemRegister::new();
    let mut ic = InterruptControl { cpsr: 0 };

    let t1 = cs.acquire(&mut hsem, &mut ic, 0);
    assert!(hsem.lock);
    assert_eq!(hsem.coreid, CPU_ID as u8);
    assert_eq!(hsem.procid, hsem_proc_id(0));
    assert_eq!(ic.cpsr & 0x80, 0x80);

    // nested acquisition only counts
    let t2 = cs.acquire(&mut hsem, &mut ic, 0);
    assert_eq!(cs.recursion_count, 2);
    cs.release(&mut hsem, &mut ic, 0, t2);
    assert!(hsem.lock);

    cs.release(&mut hsem, &mut ic, 0, t1);
    assert!(!hsem.lock);
    assert_eq!(hsem.coreid, 0);
    assert_eq!(hsem.procid, 0);
    assert_eq!(ic.cpsr & 0x80, 0);
}

#[test]
fn hsem_arbitration_rejects_the_second_core_until_release() {
    let mut hsem = HsemRegister::new();
    let core = CPU_ID as u8;
    let proc0 = hsem_proc_id(0);
    let proc1 = hsem_proc_id(1);
    assert_ne!(proc0, proc1);

    // the first core's lock write is honoured on the free semaphore
    hsem.write(core, proc0, true);
    let r = hsem.read();
    assert!(r.lock && r.coreid == core && r.procid == proc0);

    // the second core's concurrent lock write loses the arbitration:
    // the register still names the first owner, so its read-back fails
    hsem.write(core, proc1, true);
    let r = hsem.read();
    assert!(r.lock && r.procid == proc0);
    assert_ne!(r.procid, proc1);

    // a mismatched unlock write is ignored as well
    hsem.write(core, proc1, false);
    assert!(hsem.read().lock);

    // after the owner's release the second core's attempt succeeds
    hsem.write(core, proc0, false);
    assert!(!hsem.read().lock);
    hsem.write(core, proc1, true);
    let r = hsem.read();
    assert!(r.lock && r.procid == proc1);
}
