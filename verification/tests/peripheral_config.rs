//! Peripheral configuration values: field encodings, divider factors,
//! defaults and register-field packing on concrete values.

use mp1_hal::dma::DataSize;
use mp1_hal::dma::DmaStream;
use mp1_hal::dma::DmaStreamConfig;
use mp1_hal::dma::DmaStreamRegisters;
use mp1_hal::dma::PriorityLevel;
use mp1_hal::dma::TransferDirection;
use mp1_hal::dma::BurstTransfer;
use mp1_hal::dma::CurrentTarget;
use mp1_hal::dmamux::DmaRequestInput;
use mp1_hal::gpio::afr;
use mp1_hal::gpio::bsrr;
use mp1_hal::gpio::modr;
use mp1_hal::gpio::ospeedr;
use mp1_hal::gpio::otyper;
use mp1_hal::gpio::pupdr;
use mp1_hal::gpio::Bus;
use mp1_hal::gpio::GpioRegisters;
use mp1_hal::gpio::OutputSpeed;
use mp1_hal::gpio::OutputType;
use mp1_hal::gpio::Pin;
use mp1_hal::gpio::PinMode;
use mp1_hal::gpio::Port;
use mp1_hal::gpio::PullMode;
use mp1_hal::i2c::I2cSpeed;
use mp1_hal::iwdg::Iwdg;
use mp1_hal::iwdg::Prescaler;
use mp1_hal::ltdc::Layer;
use mp1_hal::ltdc::Ltdc;
use mp1_hal::ltdc::LtdcRegisters;
use mp1_hal::ltdc::PixelFormat;
use mp1_hal::rcc::hse_frequency;
use mp1_hal::rcc::ApbDiv;
use mp1_hal::rcc::AxiDiv;
use mp1_hal::rcc::Csi;
use mp1_hal::rcc::HsiDiv;
use mp1_hal::rcc::McuDiv;
use mp1_hal::rcc::MpuDiv;
use mp1_hal::stgen::Stgen;
use mp1_hal::time::delay_ms_deadline;
use mp1_hal::time::micros;
use mp1_hal::time::millis;
use mp1_hal::usart::OverSampling;
use mp1_hal::usart::Parity;
use mp1_hal::usart::StopBits;
use mp1_hal::usart::UsartConfig;
use mp1_hal::usart::WordLength;

#[test]
fn clock_divider_values_match_their_factors() {
    assert_eq!(MpuDiv::Disabled.value(), 0);
    assert_eq!(MpuDiv::Div8.value(), 8);
    assert_eq!(MpuDiv::Div16.value(), 16);
    assert_eq!(AxiDiv::Div3.value(), 3);
    assert_eq!(McuDiv::Div512.value(), 512);
    assert_eq!(McuDiv::Div1.value(), 1);
    assert_eq!(ApbDiv::Div16.value(), 16);
    assert_eq!(HsiDiv::Div4.value(), 4);
    assert_eq!(HsiDiv::Div4.bits(), 0b10);
    assert_eq!(McuDiv::Div512.bits(), 0b1001);
}

#[test]
fn oscillator_frequencies_are_fixed() {
    assert_eq!(hse_frequency(), 24_000_000);
    assert_eq!(Csi::new().frequency(), 4_000_000);
}

#[test]
fn i2c_speeds_translate_to_hertz() {
    assert_eq!(I2cSpeed::Standard.hz(), 100_000);
    assert_eq!(I2cSpeed::Fast.hz(), 400_000);
    assert_eq!(I2cSpeed::FastPlus.hz(), 1_000_000);
}

#[test]
fn usart_defaults_and_encodings() {
    let c = UsartConfig::default();
    assert_eq!(c.baudrate, 115200);
    assert_eq!(c.parity, Parity::NoParity);
    assert_eq!(c.stop_bits, StopBits::Bits1);
    assert_eq!(c.word_length, WordLength::Bits8);
    assert_eq!(c.oversampling, OverSampling::Times16);
    assert!(c.fifo_mode);

    assert_eq!(WordLength::Bits8.bits(), (false, false));
    assert_eq!(WordLength::Bits9.bits(), (false, true));
    assert_eq!(WordLength::Bits7.bits(), (true, false));
    assert_eq!(StopBits::Bits1_5.bits(), 0b11);
    assert!(!OverSampling::Times16.bit());
    assert!(OverSampling::Times8.bit());
}

#[test]
fn gpio_register_fields_pack_per_pin() {
    assert_eq!(modr(0, 3, PinMode::Output), 0b01 << 6);
    assert_eq!(modr(0xFFFF_FFFF, 0, PinMode::Input), 0xFFFF_FFFC);
    assert_eq!(ospeedr(0, 2, OutputSpeed::VeryHigh), 0b11 << 4);
    assert_eq!(otyper(0, 5, OutputType::OpenDrain), 1 << 5);
    assert_eq!(pupdr(0, 1, PullMode::PullDown), 0b10 << 2);
    assert_eq!(afr(0, 3, 0x7), 0x7 << 12);
    assert_eq!(bsrr(3, true), 1 << 3);
    assert_eq!(bsrr(3, false), 1 << 19);
}

#[test]
fn gpio_pins_drive_the_modelled_port() {
    let mut regs = GpioRegisters {
        moder: 0,
        otyper: 0,
        ospeedr: 0,
        pupdr: 0,
        afrl: 0,
        afrh: 0,
        idr: 0b1010,
        odr: 0,
    };
    let mut pin = Pin::new(Port::A, 4);
    pin.set_mode(&mut regs, PinMode::Output);
    assert_eq!(regs.moder, 0b01 << 8);
    pin.set_output_state(&mut regs, true);
    assert_eq!(regs.odr, 1 << 4);
    pin.set_output_state(&mut regs, false);
    assert_eq!(regs.odr, 0);
    pin.set_alternate_function(&mut regs, 5);
    assert_eq!(regs.afrl, 5 << 16);

    let mut high_pin = Pin::new(Port::A, 9);
    high_pin.set_alternate_function(&mut regs, 3);
    assert_eq!(regs.afrh, 3 << 4);

    let probe = Pin::new(Port::A, 1);
    assert!(probe.get_input_state(&regs));
    let probe = Pin::new(Port::A, 2);
    assert!(!probe.get_input_state(&regs));

    let mut bus = Bus::new(Port::A, 0, 4);
    assert_eq!(bus.get_input(&regs), 0b1010);
    // the bus write folds both halves of the value into set requests at
    // the bus base, so the requested pins are driven high
    regs.odr = 0;
    bus.set_output(&mut regs, 0b0101);
    assert_eq!(regs.odr, 0b0101);
}

#[test]
fn dma_stream_control_packs_the_configuration() {
    let mut regs = DmaStreamRegisters { cr: 0, flags: 0x1F, m0ar: 0, par: 0, ndtr: 0, mux_request: 0 };
    let config = DmaStreamConfig {
        request_input: DmaRequestInput::Usart2Tx,
        transfer_direction: TransferDirection::MemoryToPeripheral,
        memory_data_size: DataSize::HalfWord,
        peripheral_data_size: DataSize::Word,
        circular: true,
        memory_increment: true,
        peripheral_increment: false,
        peripheral_increment_fixed: false,
        peripheral_flow_controller: false,
        transfer_complete_interrupt: true,
        half_transfer_interrupt: false,
        transfer_error_interrupt: false,
        direct_mode_error_interrupt: false,
        double_buffer: false,
        priority_level: PriorityLevel::VeryHigh,
        memory_burst_transfer: BurstTransfer::Incremental8,
        peripheral_burst_transfer: BurstTransfer::Single,
        bufferable_transfers: true,
        current_target: CurrentTarget::Memory1,
    };
    DmaStream::Dma1Stream3.init(&mut regs, config);

    let expected: u32 = (0b01 << 6)  // direction
        | (0b01 << 13)               // memory size
        | (0b10 << 11)               // peripheral size
        | (1 << 8)                   // circular
        | (1 << 10)                  // memory increment
        | (1 << 4)                   // transfer complete interrupt
        | (0b11 << 16)               // priority
        | (0b10 << 23)               // memory burst
        | (1 << 19)                  // current target
        | (1 << 20);                 // bufferable transfers
    assert_eq!(regs.cr, expected);
    assert_eq!(regs.mux_request, DmaRequestInput::Usart2Tx.number());
    // the stale flags are untouched by configuration
    assert_eq!(regs.flags, 0x1F);

    DmaStream::Dma1Stream3.start_transfer(&mut regs, 0x2400_0000, 0x4001_0000, 256);
    assert_eq!(regs.m0ar, 0x2400_0000);
    assert_eq!(regs.par, 0x4001_0000);
    assert_eq!(regs.ndtr, 256);
    assert_eq!(regs.cr, expected | 1);
    assert_eq!(regs.flags, 0);
    DmaStream::Dma1Stream3.stop_transfer(&mut regs);
    assert_eq!(regs.cr, expected);
}

#[test]
fn watchdog_registers_follow_the_key_protocol() {
    let mut w = Iwdg::new();
    assert_eq!(w.reload_value(), 0xFFF);
    assert_eq!(w.prescaler(), Prescaler::Div4);

    w.start();
    assert!(w.started);
    assert_eq!(w.kr, 0x0000CCCC);

    w.set_prescaler(Prescaler::Div256);
    assert_eq!(w.kr, 0x00005555);
    assert_eq!(w.prescaler(), Prescaler::Div256);

    w.set_reload_value(0x123);
    assert_eq!(w.reload_value(), 0x123);

    w.trigger();
    assert_eq!(w.kr, 0x0000AAAA);

    assert_eq!(Prescaler::from_bits(9), Prescaler::Div1024);
    assert_eq!(Prescaler::Div512.bits(), 0b0111);
}

#[test]
fn timer_counter_reads_back_both_halves() {
    let mut s = Stgen::new();
    s.set_base_frequency(24_000_000);
    s.start();
    assert!(s.enabled);
    let s = Stgen { counter: 0x1234_5678_9ABC_DEF0, ..s };
    assert_eq!(s.value(), 0x1234_5678_9ABC_DEF0);
    let mut s = s;
    s.stop();
    assert!(!s.enabled);
}

#[test]
fn display_controller_enables_and_reloads() {
    let mut regs = LtdcRegisters {
        enabled: false,
        immediate_reload: false,
        vertical_blanking_reload: false,
        layer1_enabled: false,
        layer2_enabled: false,
    };
    let mut ltdc = Ltdc::new();
    ltdc.enable(&mut regs);
    assert!(ltdc.is_enabled(&regs));
    ltdc.enable_layer(&mut regs, Layer::Layer1);
    assert!(regs.layer1_enabled);
    assert!(!regs.layer2_enabled);
    ltdc.reload_configuration_immediately(&mut regs);
    assert!(regs.immediate_reload);
    ltdc.reload_configuration_on_blanking(&mut regs);
    assert!(regs.vertical_blanking_reload);
    ltdc.disable_layer(&mut regs, Layer::Layer1);
    assert!(!regs.layer1_enabled);
    ltdc.deinit(&mut regs);
    assert!(!ltdc.is_enabled(&regs));

    assert_eq!(PixelFormat::Rgb565.bits(), 0b010);
    assert_eq!(PixelFormat::Rgb565.bytes_per_pixel(), 2);
    assert_eq!(PixelFormat::Argb8888.bytes_per_pixel(), 4);
}

#[test]
fn wall_time_derives_from_the_timer_count() {
    let s = Stgen { enabled: true, counter: 48_000_000, base_frequency: 24_000_000 };
    assert_eq!(millis(&s, 24_000_000), 2000);
    assert_eq!(micros(&s, 24_000_000), 2_000_000);
    assert_eq!(delay_ms_deadline(&s, 24_000_000, 10), 48_000_000 + 240_000);
}

#[test]
fn dma_stream_flags_read_and_clear_per_event() {
    let mut regs = DmaStreamRegisters {
        cr: 0,
        flags: (1 << 5) | (1 << 4) | (1 << 3) | (1 << 2) | 1,
        m0ar: 0,
        par: 0,
        ndtr: 0,
        mux_request: 0,
    };
    let s = DmaStream::Dma2Stream1;
    assert!(s.is_transfer_complete(&regs));
    assert!(s.is_half_transfer(&regs));
    assert!(s.is_transfer_error(&regs));
    assert!(s.is_direct_mode_error(&regs));
    assert!(s.is_fifo_error(&regs));

    s.clear_transfer_complete(&mut regs);
    assert!(!s.is_transfer_complete(&regs));
    assert!(s.is_half_transfer(&regs));
    s.clear_half_transfer(&mut regs);
    s.clear_transfer_error(&mut regs);
    s.clear_direct_mode_error(&mut regs);
    s.clear_fifo_error(&mut regs);
    assert_eq!(regs.flags, 0);
}

#[test]
fn gpio_pin_toggle_flips_the_output() {
    let mut regs = GpioRegisters {
        moder: 0,
        otyper: 0,
        ospeedr: 0,
        pupdr: 0,
        afrl: 0,
        afrh: 0,
        idr: 0,
        odr: 0,
    };
    let mut pin = Pin::new(Port::B, 7);
    pin.toggle(&mut regs);
    assert_eq!(regs.odr, 1 << 7);
    pin.toggle(&mut regs);
    assert_eq!(regs.odr, 0);
}
