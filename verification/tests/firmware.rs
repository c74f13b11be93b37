use blinkfw::boot;
use blinkfw::busy_loop;
use blinkfw::gpio::GpioBlock;
use blinkfw::gpio::GpioWrite;
use blinkfw::gpio::Pin;
use blinkfw::gpio::PinNumber;
use blinkfw::gpio::CONFIG_INPUT;
use blinkfw::gpio::CONFIG_OUTPUT;
use blinkfw::gpio::CONFIG_PULLUP;
use blinkfw::pins;
use blinkfw::serial::Serial;
use blinkfw::serial::UartBlock;
use blinkfw::serial::UartReg;
use blinkfw::serial::UartWrite;

fn booted() -> (GpioBlock, UartBlock) {
    let mut gpio = GpioBlock::new();
    let mut uart = UartBlock::new();
    Serial::init(&mut gpio, &mut uart);
    (gpio, uart)
}

#[test]
fn pin_mask_values() {
    assert_eq!(PinNumber(0).mask(), 1);
    assert_eq!(PinNumber(5).mask(), 32);
    assert_eq!(PinNumber(31).mask(), 0x8000_0000);
}

#[test]
fn set_high_then_low_touches_only_own_bit() {
    for n in 0u8..32 {
        let other = (n + 1) % 32;
        let mut gpio = GpioBlock::new();
        let background = Pin::output(&mut gpio, PinNumber(other));
        background.set_high(&mut gpio);
        let held = 1u32 << other;
        assert_eq!(gpio.out, held);

        let pin = Pin::output(&mut gpio, PinNumber(n));
        pin.set_high(&mut gpio);
        assert_eq!(gpio.out, held | (1u32 << n));
        pin.set_low(&mut gpio);
        assert_eq!(gpio.out, held & !(1u32 << n));
        assert_eq!(gpio.out & held, held, "other pin's bit was disturbed");
    }
}

#[test]
fn set_registers_receive_exact_masks() {
    let mut gpio = GpioBlock::new();
    let pin = Pin::output(&mut gpio, PinNumber(14));
    pin.set_high(&mut gpio);
    pin.set_low(&mut gpio);
    assert_eq!(
        gpio.writes,
        vec![
            GpioWrite::PinCnf(14, CONFIG_OUTPUT),
            GpioWrite::OutSet(1 << 14),
            GpioWrite::OutClr(1 << 14),
        ]
    );
}

#[test]
fn wait_zero_does_no_work() {
    assert_eq!(busy_loop::wait_approx_ms(0), 0);
}

#[test]
fn wait_work_is_strictly_monotonic() {
    assert_eq!(busy_loop::wait_approx_ms(1), 1500);
    let two = busy_loop::wait_approx_ms(2);
    let three = busy_loop::wait_approx_ms(3);
    assert_eq!(two, 3000);
    assert_eq!(three, 4500);
    assert!(three > two);
}

#[test]
fn init_configures_serial_pins() {
    let (gpio, _uart) = booted();
    assert_eq!(
        gpio.writes,
        vec![
            GpioWrite::PinCnf(pins::RX, CONFIG_INPUT | CONFIG_PULLUP),
            GpioWrite::PinCnf(pins::TX, CONFIG_OUTPUT | CONFIG_PULLUP),
        ]
    );
}

#[test]
fn init_programs_pin_select_after_enable_and_dummy_transmit() {
    let (_gpio, uart) = booted();
    assert_eq!(
        uart.writes,
        vec![
            UartWrite { reg: UartReg::Baudrate, value: 0x0027_5000 },
            UartWrite { reg: UartReg::Enable, value: 4 },
            UartWrite { reg: UartReg::TasksStartTx, value: 1 },
            UartWrite { reg: UartReg::TasksStartRx, value: 1 },
            UartWrite { reg: UartReg::Txd, value: 0 },
            UartWrite { reg: UartReg::PselRxd, value: pins::RX as u32 },
            UartWrite { reg: UartReg::PselTxd, value: pins::TX as u32 },
        ]
    );
    let enable_at = uart.writes.iter().position(|w| w.reg == UartReg::Enable).unwrap();
    let dummy_at = uart.writes.iter().position(|w| w.reg == UartReg::Txd).unwrap();
    for (i, w) in uart.writes.iter().enumerate() {
        if w.reg == UartReg::PselRxd || w.reg == UartReg::PselTxd {
            assert!(i > enable_at);
            assert!(i > dummy_at);
        }
    }
}

#[test]
fn init_dummy_transmit_leads_the_ready_flag() {
    let (_gpio, uart) = booted();
    assert_eq!(uart.events_txdrdy, 1);
    assert!(Serial::writable(&uart));
    assert_eq!(uart.tx_log, vec![0u8]);
}

#[test]
fn write_byte_clears_ready_flag_before_data() {
    let (_gpio, mut uart) = booted();
    let before = uart.writes.len();
    Serial::write_byte(&mut uart, 0x41);
    assert_eq!(
        &uart.writes[before..],
        &[
            UartWrite { reg: UartReg::EventsTxdrdy, value: 0 },
            UartWrite { reg: UartReg::Txd, value: 0x41 },
        ]
    );
    assert_eq!(*uart.tx_log.last().unwrap(), 0x41);
}

#[test]
fn write_stream_transmits_every_byte_in_order() {
    let (_gpio, mut uart) = booted();
    Serial::write_stream(&mut uart, b"Uptime: 7\n");
    let mut expected = vec![0u8];
    expected.extend_from_slice(b"Uptime: 7\n");
    assert_eq!(uart.tx_log, expected);
}

#[test]
fn boot_lights_row_and_blinks_column_on_fixed_cadence() {
    let mut gpio = GpioBlock::new();
    let mut uart = UartBlock::new();
    let cell = boot::boot_configure(&mut gpio, &mut uart);

    let row_mask = 1u32 << pins::ROW_2;
    let col_mask = 1u32 << pins::COL_3;
    assert_eq!(gpio.out, row_mask, "row must be driven high before the loop");
    assert_eq!(gpio.pin_cnf[pins::ROW_2 as usize], CONFIG_OUTPUT);
    assert_eq!(gpio.pin_cnf[pins::COL_3 as usize], CONFIG_OUTPUT);

    for uptime in 0u32..2 {
        let before = gpio.writes.len();
        let message = format!("Uptime: {}\n", uptime);
        let (on_work, off_work) =
            boot::blink_iteration(&mut gpio, &mut uart, &cell, message.as_bytes());
        assert_eq!(on_work, 50 * 1500, "on-phase is 50 ms of calibrated work");
        assert_eq!(off_work, 950 * 1500, "off-phase is 950 ms of calibrated work");
        assert_eq!(
            &gpio.writes[before..],
            &[GpioWrite::OutClr(col_mask), GpioWrite::OutSet(col_mask)]
        );
        assert_eq!(gpio.out, row_mask | col_mask);
    }

    let mut expected = vec![0u8];
    expected.extend_from_slice(b"Uptime: 0\nUptime: 1\n");
    assert_eq!(uart.tx_log, expected);
}

#[test]
fn panic_reconfigures_pins_before_any_blink_output() {
    let (mut gpio, mut uart) = booted();
    // Leave untrustworthy state behind, as a failing program would.
    gpio.out = 0xDEAD_0000;
    gpio.pin_cnf[pins::ROW_2 as usize] = CONFIG_INPUT | CONFIG_PULLUP;
    gpio.pin_cnf[pins::COL_3 as usize] = CONFIG_INPUT | CONFIG_PULLUP;

    let before = gpio.writes.len();
    let cell = boot::panic_enter(&mut gpio, &mut uart, b"Panic at main:1, fault\n");
    let appended = &gpio.writes[before..];
    assert_eq!(
        appended,
        &[
            GpioWrite::PinCnf(pins::ROW_2, CONFIG_OUTPUT),
            GpioWrite::PinCnf(pins::COL_3, CONFIG_OUTPUT),
            GpioWrite::OutSet(1 << pins::ROW_2),
        ]
    );
    let first_output = appended
        .iter()
        .position(|w| matches!(w, GpioWrite::OutSet(_) | GpioWrite::OutClr(_)))
        .unwrap();
    for (i, w) in appended.iter().enumerate() {
        if matches!(w, GpioWrite::PinCnf(_, _)) {
            assert!(i < first_output, "configuration must precede blink output");
        }
    }
    assert_eq!(gpio.pin_cnf[pins::ROW_2 as usize], CONFIG_OUTPUT);
    assert_eq!(gpio.pin_cnf[pins::COL_3 as usize], CONFIG_OUTPUT);

    let (on_work, off_work) = boot::panic_blink_iteration(&mut gpio, &cell);
    assert_eq!(on_work, 5 * 1500);
    assert_eq!(off_work, 200 * 1500);
    assert_ne!((on_work, off_work), (50 * 1500, 950 * 1500), "panic cadence is distinct");
}

#[test]
fn readable_stays_false_until_the_wire_delivers() {
    let mut uart = UartBlock::new();
    uart.rx_delay = 3;
    uart.rx_data = vec![0x42];
    assert!(!Serial::readable(&mut uart));
    assert!(!Serial::readable(&mut uart));
    assert!(!Serial::readable(&mut uart));
    assert!(Serial::readable(&mut uart), "flag must flip once the delay has elapsed");
    let byte = Serial::read_byte(&mut uart);
    assert_eq!(byte, 0x42);
    assert_eq!(uart.events_rxdrdy, 0, "reading consumes the ready flag");
}

#[test]
fn read_byte_spends_the_whole_arrival_delay_polling() {
    let mut uart = UartBlock::new();
    uart.rx_delay = 5;
    uart.rx_data = vec![0x10, 0x20];
    let first = Serial::read_byte(&mut uart);
    assert_eq!(first, 0x10);
    assert_eq!(uart.rx_delay, 0, "every poll of the delay was consumed");
    let second = Serial::read_byte(&mut uart);
    assert_eq!(second, 0x20);
    assert_eq!(uart.rx_data, Vec::<u8>::new());
}

#[test]
fn readable_is_false_with_nothing_pending() {
    let mut uart = UartBlock::new();
    assert!(!Serial::readable(&mut uart));
    assert!(!Serial::readable(&mut uart));
}

#[test]
fn read_byte_clears_flag_then_reads_data() {
    let mut uart = UartBlock::new();
    uart.rx_data = vec![0x7F];
    let before = uart.writes.len();
    let byte = Serial::read_byte(&mut uart);
    assert_eq!(byte, 0x7F);
    assert_eq!(
        &uart.writes[before..],
        &[UartWrite { reg: UartReg::EventsRxdrdy, value: 0 }]
    );
}

#[test]
fn pin_configuration_is_idempotent() {
    let mut gpio = GpioBlock::new();
    let pin = PinNumber(pins::BUTTON_A);
    pin.input_pullup(&mut gpio);
    let once = gpio.pin_cnf.clone();
    let out_once = gpio.out;
    pin.input_pullup(&mut gpio);
    assert_eq!(gpio.pin_cnf, once);
    assert_eq!(gpio.out, out_once);
    assert_eq!(gpio.pin_cnf[pins::BUTTON_A as usize], CONFIG_INPUT | CONFIG_PULLUP);

    let out_pin = PinNumber(pins::P12);
    out_pin.output_pullup(&mut gpio);
    out_pin.output_pullup(&mut gpio);
    assert_eq!(gpio.pin_cnf[pins::P12 as usize], CONFIG_OUTPUT | CONFIG_PULLUP);
}
