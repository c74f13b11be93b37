//! The boot and panic paths: one-time configuration at reset, one period of
//! the normal blink loop, and the panic path that retakes the GPIO pins and
//! blinks a distinct cadence. The surrounding runtime owns the infinite
//! loops and the divergent entry points; each pass through a loop is one
//! call of an iteration function here, so every pass is covered by a
//! contract.

use vstd::prelude::*;
use crate::busy_loop;
use crate::busy_loop::wait_work;
use crate::gpio::CONFIG_INPUT;
use crate::gpio::CONFIG_OUTPUT;
use crate::gpio::CONFIG_PULLUP;
use crate::gpio::GpioBlock;
use crate::gpio::GpioWrite;
use crate::gpio::Pin;
use crate::gpio::PinNumber;
use crate::pins;
use crate::serial::Serial;
use crate::serial::UartBlock;
use crate::serial::init_uart_writes;
use crate::serial::same_config;
use crate::serial::stream_writes;
use crate::serial::BAUDRATE_9600;
use crate::serial::UART_ENABLE;

verus! {

/// Blink period of normal operation, in milliseconds.
pub const PERIOD_MS: u32 = 1000;

/// On-time of the cell within each normal period, in milliseconds.
pub const ON_MS: u32 = 50;

/// On-time of the panic blink, in milliseconds.
pub const PANIC_ON_MS: u32 = 5;

/// Off-time of the panic blink, in milliseconds.
pub const PANIC_OFF_MS: u32 = 200;

/// The two configured output pins driving one LED-matrix cell: the cell
/// lights when its row is high and its column is low.
pub struct CellPins {
    pub row: Pin,
    pub col: Pin,
}

/// A store to a pin's configuration slot.
pub open spec fn is_config_write(w: GpioWrite) -> bool {
    w is PinCnf
}

/// A store that drives output lines: to OUTSET or OUTCLR.
pub open spec fn is_output_write(w: GpioWrite) -> bool {
    w is OutSet || w is OutClr
}

/// The exact GPIO stores of the boot path, in order: the serial pins, the
/// row and column configured as outputs, then the row driven high.
pub open spec fn boot_gpio_writes() -> Seq<GpioWrite> {
    seq![
        GpioWrite::PinCnf(pins::RX, CONFIG_INPUT | CONFIG_PULLUP),
        GpioWrite::PinCnf(pins::TX, CONFIG_OUTPUT | CONFIG_PULLUP),
        GpioWrite::PinCnf(pins::ROW_2, CONFIG_OUTPUT),
        GpioWrite::PinCnf(pins::COL_3, CONFIG_OUTPUT),
        GpioWrite::OutSet(PinNumber(pins::ROW_2).spec_mask()),
    ]
}

/// The exact GPIO stores of the panic path, in order: row and column
/// reconfigured as outputs, then the row driven high.
pub open spec fn panic_gpio_writes() -> Seq<GpioWrite> {
    seq![
        GpioWrite::PinCnf(pins::ROW_2, CONFIG_OUTPUT),
        GpioWrite::PinCnf(pins::COL_3, CONFIG_OUTPUT),
        GpioWrite::OutSet(PinNumber(pins::ROW_2).spec_mask()),
    ]
}

/// The boot path's one-time configuration: the serial driver first, then
/// the matrix row and column pins as outputs, then the row driven high.
/// After it, the cell is dark (column still high or reset-low driven by
/// nothing) and the transmitter is ready for the loop's status bytes.
pub fn boot_configure(gpio: &mut GpioBlock, uart: &mut UartBlock) -> (cell: CellPins)
    requires
        old(gpio)@.wf(),
    ensures
        final(gpio)@.wf(),
        cell.row.spec_mask() == PinNumber(pins::ROW_2).spec_mask(),
        cell.col.spec_mask() == PinNumber(pins::COL_3).spec_mask(),
        final(gpio)@.out == old(gpio)@.out | PinNumber(pins::ROW_2).spec_mask(),
        final(gpio)@.pin_cnf == old(gpio)@.pin_cnf.update(
            pins::RX as int,
            CONFIG_INPUT | CONFIG_PULLUP,
        ).update(pins::TX as int, CONFIG_OUTPUT | CONFIG_PULLUP).update(
            pins::ROW_2 as int,
            CONFIG_OUTPUT,
        ).update(pins::COL_3 as int, CONFIG_OUTPUT),
        final(gpio)@.writes == old(gpio)@.writes + boot_gpio_writes(),
        final(uart)@.baudrate == BAUDRATE_9600,
        final(uart)@.enable == UART_ENABLE,
        final(uart)@.tasks_starttx == 1,
        final(uart)@.tasks_startrx == 1,
        final(uart)@.pselrxd == pins::RX as u32,
        final(uart)@.pseltxd == pins::TX as u32,
        final(uart)@.events_txdrdy == 1,
        final(uart)@.tx_log == old(uart)@.tx_log.push(0u8),
        final(uart)@.writes == old(uart)@.writes + init_uart_writes(pins::RX, pins::TX),
        final(uart)@.events_rxdrdy == old(uart)@.events_rxdrdy,
        final(uart)@.rxd == old(uart)@.rxd,
        final(uart)@.rx_delay == old(uart)@.rx_delay,
        final(uart)@.rx_data == old(uart)@.rx_data,
{
    Serial::init(gpio, uart);
    let row = Pin::output(gpio, PinNumber(pins::ROW_2));
    let col = Pin::output(gpio, PinNumber(pins::COL_3));
    row.set_high(gpio);
    proof {
        assert(gpio@.writes =~= old(gpio)@.writes + boot_gpio_writes());
    }
    CellPins { row, col }
}

/// One period of the main loop: emit the given status bytes over serial,
/// drive the column low — the cell lights — for the on-time, then high
/// again for the rest of the period. Returns the busy-wait work of the
/// on-phase and of the off-phase, in that order.
pub fn blink_iteration(
    gpio: &mut GpioBlock,
    uart: &mut UartBlock,
    cell: &CellPins,
    message: &[u8],
) -> (work: (u64, u64))
    requires
        old(gpio)@.wf(),
        old(uart)@.events_txdrdy == 1,
    ensures
        final(gpio)@.wf(),
        work.0 == wait_work(ON_MS),
        work.1 == wait_work((PERIOD_MS - ON_MS) as u32),
        final(gpio)@.out == old(gpio)@.out | cell.col.spec_mask(),
        final(gpio)@.pin_cnf == old(gpio)@.pin_cnf,
        final(gpio)@.writes == old(gpio)@.writes + seq![
            GpioWrite::OutClr(cell.col.spec_mask()),
            GpioWrite::OutSet(cell.col.spec_mask()),
        ],
        final(uart)@.events_txdrdy == 1,
        final(uart)@.tx_log == old(uart)@.tx_log + message@,
        final(uart)@.writes == old(uart)@.writes + stream_writes(message@),
        same_config(old(uart)@, final(uart)@),
        final(uart)@.events_rxdrdy == old(uart)@.events_rxdrdy,
        final(uart)@.rxd == old(uart)@.rxd,
        final(uart)@.rx_delay == old(uart)@.rx_delay,
        final(uart)@.rx_data == old(uart)@.rx_data,
{
    Serial::write_stream(uart, message);
    cell.col.set_low(gpio);
    let on_work = busy_loop::wait_approx_ms(ON_MS);
    cell.col.set_high(gpio);
    let off_work = busy_loop::wait_approx_ms(PERIOD_MS - ON_MS);
    proof {
        let m = cell.col.spec_mask();
        let o = old(gpio)@.out;
        assert((o & !m) | m == o | m) by (bit_vector);
        assert(gpio@.writes =~= old(gpio)@.writes + seq![
            GpioWrite::OutClr(m),
            GpioWrite::OutSet(m),
        ]);
    }
    (on_work, off_work)
}

/// Entry into the panic state: report the fault bytes over serial, then
/// reconfigure the row and column pins from scratch — whatever GPIO state
/// the failing code left behind is not trusted — and drive the row high.
/// No output store happens before the reconfiguration.
pub fn panic_enter(gpio: &mut GpioBlock, uart: &mut UartBlock, message: &[u8]) -> (cell:
    CellPins)
    requires
        old(gpio)@.wf(),
        old(uart)@.events_txdrdy == 1,
    ensures
        final(gpio)@.wf(),
        cell.row.spec_mask() == PinNumber(pins::ROW_2).spec_mask(),
        cell.col.spec_mask() == PinNumber(pins::COL_3).spec_mask(),
        final(gpio)@.out == old(gpio)@.out | PinNumber(pins::ROW_2).spec_mask(),
        final(gpio)@.pin_cnf == old(gpio)@.pin_cnf.update(pins::ROW_2 as int, CONFIG_OUTPUT)
            .update(pins::COL_3 as int, CONFIG_OUTPUT),
        final(gpio)@.writes == old(gpio)@.writes + panic_gpio_writes(),
        final(uart)@.events_txdrdy == 1,
        final(uart)@.tx_log == old(uart)@.tx_log + message@,
        final(uart)@.writes == old(uart)@.writes + stream_writes(message@),
        same_config(old(uart)@, final(uart)@),
{
    Serial::write_stream(uart, message);
    let row = Pin::output(gpio, PinNumber(pins::ROW_2));
    let col = Pin::output(gpio, PinNumber(pins::COL_3));
    row.set_high(gpio);
    proof {
        assert(gpio@.writes =~= old(gpio)@.writes + panic_gpio_writes());
    }
    CellPins { row, col }
}

/// One period of the panic blink: column low for the short panic on-time,
/// then high for the panic off-time. Returns the busy-wait work of the two
/// phases, in that order.
pub fn panic_blink_iteration(gpio: &mut GpioBlock, cell: &CellPins) -> (work: (u64, u64))
    requires
        old(gpio)@.wf(),
    ensures
        final(gpio)@.wf(),
        work.0 == wait_work(PANIC_ON_MS),
        work.1 == wait_work(PANIC_OFF_MS),
        final(gpio)@.out == old(gpio)@.out | cell.col.spec_mask(),
        final(gpio)@.pin_cnf == old(gpio)@.pin_cnf,
        final(gpio)@.writes == old(gpio)@.writes + seq![
            GpioWrite::OutClr(cell.col.spec_mask()),
            GpioWrite::OutSet(cell.col.spec_mask()),
        ],
{
    cell.col.set_low(gpio);
    let on_work = busy_loop::wait_approx_ms(PANIC_ON_MS);
    cell.col.set_high(gpio);
    let off_work = busy_loop::wait_approx_ms(PANIC_OFF_MS);
    proof {
        let m = cell.col.spec_mask();
        let o = old(gpio)@.out;
        assert((o & !m) | m == o | m) by (bit_vector);
        assert(gpio@.writes =~= old(gpio)@.writes + seq![
            GpioWrite::OutClr(m),
            GpioWrite::OutSet(m),
        ]);
    }
    (on_work, off_work)
}

/// In the panic path's GPIO trace, every configuration store comes before
/// every output store: the pins are reconfigured before any blink output.
pub proof fn lemma_panic_reconfigures_first()
    ensures
        ({
            let t = panic_gpio_writes();
            forall|i: int, j: int|
                0 <= i < t.len() && 0 <= j < t.len() && is_config_write(#[trigger] t[i])
                    && is_output_write(#[trigger] t[j]) ==> i < j
        }),
{
    let t = panic_gpio_writes();
    assert forall|i: int| 0 <= i < t.len() && is_config_write(t[i]) implies i <= 1 by {
        if i == 2 {
            assert(!is_config_write(t[2]));
        }
    }
    assert forall|j: int| 0 <= j < t.len() && is_output_write(t[j]) implies j == 2 by {
        if j <= 1 {
            assert(!is_output_write(t[j]));
        }
    }
}

/// The panic cadence is visibly distinct from the normal one: its on-phase
/// does strictly less busy-wait work than the normal on-phase, and its
/// off-phase strictly less than the normal off-phase.
pub proof fn lemma_panic_cadence_distinct()
    ensures
        wait_work(PANIC_ON_MS) < wait_work(ON_MS),
        wait_work(PANIC_OFF_MS) < wait_work((PERIOD_MS - ON_MS) as u32),
{
}

} // verus!
