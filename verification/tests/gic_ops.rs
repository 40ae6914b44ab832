//! Interrupt-controller model behaviour: field packing, isolation and the
//! start-up sequences.

use mp1_hal::gic;
use mp1_hal::gic::GicState;
use mp1_hal::irq;
use mp1_hal::irq::Irqn;

fn fresh() -> GicState {
    // seven 32-line blocks: 256 implemented lines
    GicState::new(7)
}

#[test]
fn priority_round_trips_for_every_byte_value() {
    let mut g = fresh();
    for p in 0..=255u32 {
        gic::set_priority(&mut g, 37, p);
        assert_eq!(gic::get_priority(&g, 37), p);
    }
}

#[test]
fn priority_write_leaves_word_neighbours_alone() {
    let mut g = fresh();
    // lines 36..=39 share one backing word
    gic::set_priority(&mut g, 36, 0x11);
    gic::set_priority(&mut g, 38, 0x33);
    gic::set_priority(&mut g, 39, 0x44);
    gic::set_priority(&mut g, 37, 0xAB);
    assert_eq!(gic::get_priority(&g, 36), 0x11);
    assert_eq!(gic::get_priority(&g, 37), 0xAB);
    assert_eq!(gic::get_priority(&g, 38), 0x33);
    assert_eq!(gic::get_priority(&g, 39), 0x44);
}

#[test]
fn enable_and_disable_track_single_lines() {
    let mut g = fresh();
    gic::enable_irq(&mut g, 77);
    assert_eq!(gic::get_enable_irq(&g, 77), 1);
    assert_eq!(gic::get_enable_irq(&g, 76), 0);
    assert_eq!(gic::get_enable_irq(&g, 78), 0);
    gic::disable_irq(&mut g, 77);
    assert_eq!(gic::get_enable_irq(&g, 77), 0);
}

#[test]
fn target_and_group_and_configuration_pack_per_line() {
    let mut g = fresh();
    gic::set_target(&mut g, 40, 0x3);
    assert_eq!(gic::get_target(&g, 40), 0x3);
    assert_eq!(gic::get_target(&g, 41), 0);

    gic::set_group(&mut g, 40, 1);
    assert_eq!(gic::gic_get_group(&g, 40), 1);
    assert_eq!(gic::gic_get_group(&g, 41), 0);

    gic::set_configuration(&mut g, 40, 0b10);
    assert_eq!(gic::get_configuration(&g, 40), 0b10);
    assert_eq!(gic::get_configuration(&g, 41), 0);
}

#[test]
fn pending_and_active_state_is_per_line() {
    let mut g = fresh();
    gic::set_pending_irq(&mut g, 50);
    assert_eq!(gic::get_pending_irq(&g, 50), 1);
    assert_eq!(gic::get_pending_irq(&g, 51), 0);
    assert_eq!(gic::get_irq_status(&g, 50), 1);
    gic::clear_pending_irq(&mut g, 50);
    assert_eq!(gic::get_pending_irq(&g, 50), 0);

    // software-generated interrupts pend per requesting core byte
    gic::set_pending_irq(&mut g, 3);
    assert_eq!(gic::get_pending_irq(&g, 3), 1);
    gic::clear_pending_irq(&mut g, 3);
    assert_eq!(gic::get_pending_irq(&g, 3), 0);
}

#[test]
fn distributor_init_configures_every_shared_line() {
    let mut g = fresh();
    gic::dist_init(&mut g);
    assert!(g.dist_enabled);
    for i in 32..256 {
        assert_eq!(gic::get_enable_irq(&g, i), 0);
        assert_eq!(gic::get_configuration(&g, i), 0);
        assert_eq!(gic::get_priority(&g, i), 0x7F);
        assert_eq!(gic::get_target(&g, i), 1);
    }
    // the probe of the implemented priority width stays visible on line 0
    assert_eq!(gic::get_priority(&g, 0), 0xFF);
}

#[test]
fn cpu_interface_init_configures_every_private_line() {
    let mut g = fresh();
    gic::cpu_interface_init(&mut g);
    assert!(g.iface_enabled);
    assert_eq!(g.bpr, 0);
    assert_eq!(g.pmr, 0xFF);
    for i in 0..32 {
        assert_eq!(gic::get_enable_irq(&g, i), 0);
        assert_eq!(gic::get_priority(&g, i), 0x7F);
    }
}

#[test]
fn full_enable_initializes_both_halves() {
    let mut g = fresh();
    gic::enable(&mut g);
    assert!(g.dist_enabled);
    assert!(g.iface_enabled);
    for i in 0..256 {
        assert_eq!(gic::get_enable_irq(&g, i), 0);
        assert_eq!(gic::get_priority(&g, i), 0x7F);
    }
}

#[test]
fn irq_init_clears_stale_peripheral_lines() {
    let mut g = fresh();
    gic::set_pending_irq(&mut g, 60);
    gic::set_pending_irq(&mut g, 61);
    irq::init(&mut g);
    assert!(g.dist_enabled);
    assert!(g.iface_enabled);
    assert_eq!(g.apr0, 0);
    assert_eq!(g.pmr, 0xFF);
    assert_eq!(g.bpr, 4);
    for i in 32..256 {
        assert_eq!(gic::get_pending_irq(&g, i), 0);
        assert_eq!(gic::get_irq_status(&g, i), 0);
    }
}

#[test]
fn interrupt_numbers_follow_the_platform_map() {
    assert_eq!(Irqn::SGI0.number(), 0);
    assert_eq!(Irqn::SGI15.number(), 15);
    assert_eq!(Irqn::WWDG1.number(), 32);
    assert_eq!(Irqn::TAMP.number(), 34);
    assert_eq!(Irqn::RTC_TS_SERR_S.number(), 231);
}

#[test]
fn irq_wrappers_route_by_interrupt_number() {
    let mut g = fresh();
    irq::enable_irq(&mut g, Irqn::TAMP);
    assert_eq!(gic::get_enable_irq(&g, 34), 1);
    irq::disable_irq(&mut g, Irqn::TAMP);
    assert_eq!(gic::get_enable_irq(&g, 34), 0);

    irq::send_sgi(&mut g, Irqn::SGI2, 1);
    assert_eq!(g.sgir, (1 << 1) << 16 | 2);
}
