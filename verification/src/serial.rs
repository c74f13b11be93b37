//! The UART peripheral: a register-block model and the serial driver on top
//! of it.
//!
//! `UartBlock` stands for the UART controller's memory-mapped registers.
//! Every store goes through one accessor, `write_reg`, which applies the
//! register's documented effect and appends the store to a trace, so the
//! order of volatile writes is part of every contract. The block also
//! simulates the hardware's own state machine: writing the transmit data
//! register latches the byte and raises the transmit-ready event, and
//! polling the receive-ready event is where a byte on the wire, after its
//! arrival delay, moves into the receive data register.

use vstd::prelude::*;
use crate::gpio::CONFIG_INPUT;
use crate::gpio::CONFIG_OUTPUT;
use crate::gpio::CONFIG_PULLUP;
use crate::gpio::GpioBlock;
use crate::gpio::GpioWrite;
use crate::gpio::PinNumber;
use crate::pins;

verus! {

/// The baud-rate register value for 9600 baud.
pub const BAUDRATE_9600: u32 = 0x0027_5000;

/// The enable-register value that switches the peripheral on.
pub const UART_ENABLE: u32 = 4;

/// A UART register that the driver stores to.
#[derive(Clone, Copy, Debug, PartialEq, Eq, Structural)]
pub enum UartReg {
    /// Start-receiver task register.
    TasksStartRx,
    /// Start-transmitter task register.
    TasksStartTx,
    /// Receive-ready event flag.
    EventsRxdrdy,
    /// Transmit-ready event flag.
    EventsTxdrdy,
    /// Peripheral enable register.
    Enable,
    /// Pin select for the receive line.
    PselRxd,
    /// Pin select for the transmit line.
    PselTxd,
    /// Transmit data register.
    Txd,
    /// Baud-rate register.
    Baudrate,
}

/// One volatile store to a UART register: which register, and the value
/// stored.
#[derive(Clone, Copy, Debug, PartialEq, Eq, Structural)]
pub struct UartWrite {
    pub reg: UartReg,
    pub value: u32,
}

/// The mathematical state of the UART block: the registers, the simulated
/// wire (bytes yet to arrive and the poll delay before the next one), the
/// log of bytes the transmitter has latched, and the trace of volatile
/// stores made so far, oldest first.
pub struct UartState {
    pub tasks_startrx: u32,
    pub tasks_starttx: u32,
    pub events_rxdrdy: u32,
    pub events_txdrdy: u32,
    pub pselrxd: u32,
    pub pseltxd: u32,
    pub rxd: u32,
    pub txd: u32,
    pub baudrate: u32,
    pub enable: u32,
    pub rx_delay: u32,
    pub rx_data: Seq<u8>,
    pub tx_log: Seq<u8>,
    pub writes: Seq<UartWrite>,
}

/// The effect of one volatile store on the UART state: the named register
/// takes the value, the store joins the trace, and — the simulated
/// transmitter — a store to the transmit data register latches its low byte
/// and raises the transmit-ready event.
pub open spec fn uart_store(u: UartState, reg: UartReg, value: u32) -> UartState {
    let stored = UartState { writes: u.writes.push(UartWrite { reg, value }), ..u };
    match reg {
        UartReg::TasksStartRx => UartState { tasks_startrx: value, ..stored },
        UartReg::TasksStartTx => UartState { tasks_starttx: value, ..stored },
        UartReg::EventsRxdrdy => UartState { events_rxdrdy: value, ..stored },
        UartReg::EventsTxdrdy => UartState { events_txdrdy: value, ..stored },
        UartReg::Enable => UartState { enable: value, ..stored },
        UartReg::PselRxd => UartState { pselrxd: value, ..stored },
        UartReg::PselTxd => UartState { pseltxd: value, ..stored },
        UartReg::Txd => UartState {
            txd: value,
            tx_log: stored.tx_log.push(value as u8),
            events_txdrdy: 1,
            ..stored
        },
        UartReg::Baudrate => UartState { baudrate: value, ..stored },
    }
}

/// The effect of one poll of the receive-ready event on the simulated
/// receiver: if the event is already raised nothing moves; otherwise, when a
/// byte is on the wire, it either comes closer (the delay counts down) or,
/// with the delay elapsed, lands in the receive data register and raises the
/// event.
pub open spec fn rx_poll_state(u: UartState) -> UartState {
    if u.events_rxdrdy == 1 {
        u
    } else if u.rx_data.len() > 0 {
        if u.rx_delay == 0 {
            UartState { events_rxdrdy: 1, rxd: u.rx_data[0] as u32, rx_data: u.rx_data.remove(0), ..u }
        } else {
            UartState { rx_delay: (u.rx_delay - 1) as u32, ..u }
        }
    } else {
        u
    }
}

/// The value a poll of the receive-ready event register returns: the
/// register's content after the simulated receiver has advanced.
pub open spec fn rx_poll_flag(u: UartState) -> u32 {
    rx_poll_state(u).events_rxdrdy
}

/// The bytes the receiver still owes the program, in arrival order: the one
/// already latched in the receive data register (when the receive-ready
/// event is raised) followed by the bytes still on the wire.
pub open spec fn rx_pending(u: UartState) -> Seq<u8> {
    if u.events_rxdrdy == 1 {
        seq![u.rxd as u8] + u.rx_data
    } else {
        u.rx_data
    }
}

/// The configuration registers, which only `init` programs.
pub open spec fn same_config(a: UartState, b: UartState) -> bool {
    &&& b.tasks_startrx == a.tasks_startrx
    &&& b.tasks_starttx == a.tasks_starttx
    &&& b.pselrxd == a.pselrxd
    &&& b.pseltxd == a.pseltxd
    &&& b.baudrate == a.baudrate
    &&& b.enable == a.enable
}

/// Polling the receive-ready event never loses or reorders a byte: the
/// pending sequence is exactly what it was. The configuration, transmit
/// side and write trace are untouched as well.
pub proof fn lemma_rx_poll_preserves_pending(u: UartState)
    ensures
        rx_pending(rx_poll_state(u)) == rx_pending(u),
        same_config(u, rx_poll_state(u)),
        rx_poll_state(u).events_txdrdy == u.events_txdrdy,
        rx_poll_state(u).txd == u.txd,
        rx_poll_state(u).tx_log == u.tx_log,
        rx_poll_state(u).writes == u.writes,
{
    if u.events_rxdrdy != 1 && u.rx_data.len() > 0 && u.rx_delay == 0 {
        let v = rx_poll_state(u);
        assert(v.rxd as u8 == u.rx_data[0]);
        assert(rx_pending(v) =~= u.rx_data);
    }
}

/// The UART controller's registers, as an owned value: a simulated register
/// block with the same layout and store semantics as the hardware one, plus
/// the simulated wire feeding its receiver.
pub struct UartBlock {
    pub tasks_startrx: u32,
    pub tasks_starttx: u32,
    /// Receive-ready event flag: raised by the receiver, cleared by stores.
    pub events_rxdrdy: u32,
    /// Transmit-ready event flag: raised by the transmitter, cleared by
    /// stores.
    pub events_txdrdy: u32,
    pub pselrxd: u32,
    pub pseltxd: u32,
    /// Receive data register; reading it does not itself change the block,
    /// consuming a byte is clearing the receive-ready event.
    pub rxd: u32,
    /// Transmit data register.
    pub txd: u32,
    pub baudrate: u32,
    pub enable: u32,
    /// Polls of the receive-ready event before the next wire byte arrives.
    pub rx_delay: u32,
    /// Bytes on the wire, arrival order, not yet in the data register.
    pub rx_data: Vec<u8>,
    /// Every byte the transmitter has latched, oldest first.
    pub tx_log: Vec<u8>,
    /// Every volatile store made to this block, oldest first.
    pub writes: Vec<UartWrite>,
}

impl View for UartBlock {
    type V = UartState;

    open spec fn view(&self) -> UartState {
        UartState {
            tasks_startrx: self.tasks_startrx,
            tasks_starttx: self.tasks_starttx,
            events_rxdrdy: self.events_rxdrdy,
            events_txdrdy: self.events_txdrdy,
            pselrxd: self.pselrxd,
            pseltxd: self.pseltxd,
            rxd: self.rxd,
            txd: self.txd,
            baudrate: self.baudrate,
            enable: self.enable,
            rx_delay: self.rx_delay,
            rx_data: self.rx_data@,
            tx_log: self.tx_log@,
            writes: self.writes@,
        }
    }
}

impl UartBlock {
    /// A block in its reset state: every register zero, nothing on the
    /// wire, nothing transmitted, no stores made yet.
    pub fn new() -> (u: UartBlock)
        ensures
            u@.tasks_startrx == 0,
            u@.tasks_starttx == 0,
            u@.events_rxdrdy == 0,
            u@.events_txdrdy == 0,
            u@.pselrxd == 0,
            u@.pseltxd == 0,
            u@.rxd == 0,
            u@.txd == 0,
            u@.baudrate == 0,
            u@.enable == 0,
            u@.rx_delay == 0,
            u@.rx_data == Seq::<u8>::empty(),
            u@.tx_log == Seq::<u8>::empty(),
            u@.writes == Seq::<UartWrite>::empty(),
    {
        UartBlock {
            tasks_startrx: 0,
            tasks_starttx: 0,
            events_rxdrdy: 0,
            events_txdrdy: 0,
            pselrxd: 0,
            pseltxd: 0,
            rxd: 0,
            txd: 0,
            baudrate: 0,
            enable: 0,
            rx_delay: 0,
            rx_data: Vec::new(),
            tx_log: Vec::new(),
            writes: Vec::new(),
        }
    }

    /// The volatile store accessor: the one way anything writes a UART
    /// register. Applies the register's effect and records the store.
    pub fn write_reg(&mut self, reg: UartReg, value: u32)
        ensures
            final(self)@ == uart_store(old(self)@, reg, value),
    {
        match reg {
            UartReg::TasksStartRx => {
                self.tasks_startrx = value;
            },
            UartReg::TasksStartTx => {
                self.tasks_starttx = value;
            },
            UartReg::EventsRxdrdy => {
                self.events_rxdrdy = value;
            },
            UartReg::EventsTxdrdy => {
                self.events_txdrdy = value;
            },
            UartReg::Enable => {
                self.enable = value;
            },
            UartReg::PselRxd => {
                self.pselrxd = value;
            },
            UartReg::PselTxd => {
                self.pseltxd = value;
            },
            UartReg::Txd => {
                self.txd = value;
                self.tx_log.push(value as u8);
                self.events_txdrdy = 1;
            },
            UartReg::Baudrate => {
                self.baudrate = value;
            },
        }
        self.writes.push(UartWrite { reg, value });
    }

    /// Volatile read of the transmit-ready event register.
    pub fn read_txdrdy(&self) -> (r: u32)
        ensures
            r == self@.events_txdrdy,
    {
        self.events_txdrdy
    }

    /// Volatile read of the receive-ready event register. This read is
    /// where the simulated receiver advances, so the value read can differ
    /// from one poll to the next with no store in between.
    pub fn poll_rxdrdy(&mut self) -> (r: u32)
        ensures
            final(self)@ == rx_poll_state(old(self)@),
            r == rx_poll_flag(old(self)@),
    {
        if self.events_rxdrdy != 1 && self.rx_data.len() > 0 {
            if self.rx_delay == 0 {
                let b = self.rx_data.remove(0);
                self.rxd = b as u32;
                self.events_rxdrdy = 1;
            } else {
                self.rx_delay = self.rx_delay - 1;
            }
        }
        self.events_rxdrdy
    }

    /// Volatile read of the receive data register.
    pub fn read_rxd(&self) -> (r: u32)
        ensures
            r == self@.rxd,
    {
        self.rxd
    }
}

/// The exact sequence of volatile stores `init` makes to the UART block:
/// baud rate, enable, the two start tasks, the dummy transmit, and only
/// then the two pin selects.
pub open spec fn init_uart_writes(rx: u8, tx: u8) -> Seq<UartWrite> {
    seq![
        UartWrite { reg: UartReg::Baudrate, value: BAUDRATE_9600 },
        UartWrite { reg: UartReg::Enable, value: UART_ENABLE },
        UartWrite { reg: UartReg::TasksStartTx, value: 1 },
        UartWrite { reg: UartReg::TasksStartRx, value: 1 },
        UartWrite { reg: UartReg::Txd, value: 0 },
        UartWrite { reg: UartReg::PselRxd, value: rx as u32 },
        UartWrite { reg: UartReg::PselTxd, value: tx as u32 },
    ]
}

/// The exact pair of volatile stores one byte write makes: clear the
/// transmit-ready event, then store the byte in the transmit data register.
pub open spec fn write_byte_writes(byte: u8) -> Seq<UartWrite> {
    seq![
        UartWrite { reg: UartReg::EventsTxdrdy, value: 0 },
        UartWrite { reg: UartReg::Txd, value: byte as u32 },
    ]
}

/// The volatile stores that writing a whole byte sequence makes, in order.
pub open spec fn stream_writes(bytes: Seq<u8>) -> Seq<UartWrite>
    decreases bytes.len(),
{
    if bytes.len() == 0 {
        Seq::empty()
    } else {
        stream_writes(bytes.drop_last()) + write_byte_writes(bytes.last())
    }
}

/// A store to a pin-select register.
pub open spec fn is_pin_select(w: UartWrite) -> bool {
    w.reg == UartReg::PselRxd || w.reg == UartReg::PselTxd
}

/// The store that enables the peripheral.
pub open spec fn is_enable(w: UartWrite) -> bool {
    w.reg == UartReg::Enable
}

/// A store to the transmit data register; within `init`'s trace the only
/// one is the dummy transmit.
pub open spec fn is_transmit(w: UartWrite) -> bool {
    w.reg == UartReg::Txd
}

/// In the initialization trace, every pin-select store comes strictly after
/// the enable store and after the dummy transmit: reordering them would
/// break the transmit-ready quirk that the dummy write exists for.
pub proof fn lemma_init_pin_select_last(rx: u8, tx: u8)
    ensures
        ({
            let t = init_uart_writes(rx, tx);
            forall|i: int, j: int|
                0 <= i < t.len() && 0 <= j < t.len() && is_pin_select(#[trigger] t[i]) && (
                is_enable(#[trigger] t[j]) || is_transmit(t[j])) ==> j < i
        }),
{
    let t = init_uart_writes(rx, tx);
    assert forall|i: int| 0 <= i < t.len() && is_pin_select(t[i]) implies i >= 5 by {
        if i < 5 {
            assert(!is_pin_select(t[i]));
        }
    }
    assert forall|j: int| 0 <= j < t.len() && (is_enable(t[j]) || is_transmit(t[j])) implies j
        <= 4 by {
        if j > 4 {
            assert(!is_enable(t[j]) && !is_transmit(t[j]));
        }
    }
}

/// In the trace of one byte write, the store that clears the transmit-ready
/// event comes strictly before the store of the data byte, never after.
pub proof fn lemma_write_byte_clears_before_data(byte: u8)
    ensures
        ({
            let t = write_byte_writes(byte);
            &&& t.len() == 2
            &&& forall|i: int, j: int|
                0 <= i < t.len() && 0 <= j < t.len() && is_transmit(#[trigger] t[i]) && (#[trigger] t[j]).reg
                    == UartReg::EventsTxdrdy ==> j < i
        }),
{
    let t = write_byte_writes(byte);
    assert(t[0].reg == UartReg::EventsTxdrdy);
    assert(t[1].reg == UartReg::Txd);
}

/// A stateless capability over the UART block: all serial state lives in
/// the hardware registers.
pub struct Serial;

impl Serial {
    /// Bring the peripheral from reset to ready, in the one order that
    /// works: receive pin as input with pull-up, transmit pin as output
    /// with pull-up, baud rate, enable, start tasks, one dummy transmit of
    /// a zero byte (without it the transmit-ready event would trail the
    /// first real write instead of leading it), and the pin selects last —
    /// while they are still unprogrammed, the dummy byte cannot reach the
    /// wire.
    pub fn init(gpio: &mut GpioBlock, uart: &mut UartBlock)
        requires
            old(gpio)@.wf(),
        ensures
            final(gpio)@.wf(),
            final(gpio)@.out == old(gpio)@.out,
            final(gpio)@.pin_cnf == old(gpio)@.pin_cnf.update(
                pins::RX as int,
                CONFIG_INPUT | CONFIG_PULLUP,
            ).update(pins::TX as int, CONFIG_OUTPUT | CONFIG_PULLUP),
            final(gpio)@.writes == old(gpio)@.writes + seq![
                GpioWrite::PinCnf(pins::RX, CONFIG_INPUT | CONFIG_PULLUP),
                GpioWrite::PinCnf(pins::TX, CONFIG_OUTPUT | CONFIG_PULLUP),
            ],
            final(uart)@.baudrate == BAUDRATE_9600,
            final(uart)@.enable == UART_ENABLE,
            final(uart)@.tasks_starttx == 1,
            final(uart)@.tasks_startrx == 1,
            final(uart)@.txd == 0,
            final(uart)@.pselrxd == pins::RX as u32,
            final(uart)@.pseltxd == pins::TX as u32,
            final(uart)@.events_txdrdy == 1,
            final(uart)@.tx_log == old(uart)@.tx_log.push(0u8),
            final(uart)@.events_rxdrdy == old(uart)@.events_rxdrdy,
            final(uart)@.rxd == old(uart)@.rxd,
            final(uart)@.rx_delay == old(uart)@.rx_delay,
            final(uart)@.rx_data == old(uart)@.rx_data,
            final(uart)@.writes == old(uart)@.writes + init_uart_writes(pins::RX, pins::TX),
    {
        let rx = PinNumber(pins::RX);
        let tx = PinNumber(pins::TX);
        rx.input_pullup(gpio);
        tx.output_pullup(gpio);
        uart.write_reg(UartReg::Baudrate, BAUDRATE_9600);
        uart.write_reg(UartReg::Enable, UART_ENABLE);
        uart.write_reg(UartReg::TasksStartTx, 1);
        uart.write_reg(UartReg::TasksStartRx, 1);
        uart.write_reg(UartReg::Txd, 0);
        uart.write_reg(UartReg::PselRxd, pins::RX as u32);
        uart.write_reg(UartReg::PselTxd, pins::TX as u32);
        proof {
            assert(gpio@.writes =~= old(gpio)@.writes + seq![
                GpioWrite::PinCnf(pins::RX, CONFIG_INPUT | CONFIG_PULLUP),
                GpioWrite::PinCnf(pins::TX, CONFIG_OUTPUT | CONFIG_PULLUP),
            ]);
            assert(uart@.writes =~= old(uart)@.writes + init_uart_writes(pins::RX, pins::TX));
        }
    }

    /// Non-blocking poll: is the transmit-ready event raised?
    pub fn writable(uart: &UartBlock) -> (r: bool)
        ensures
            r == (uart@.events_txdrdy == 1),
    {
        uart.read_txdrdy() == 1
    }

    /// Non-blocking poll: is the receive-ready event raised? Polling is
    /// where the simulated receiver advances, so the block changes even
    /// though the program only reads.
    pub fn readable(uart: &mut UartBlock) -> (r: bool)
        ensures
            final(uart)@ == rx_poll_state(old(uart)@),
            r == (rx_poll_flag(old(uart)@) == 1),
    {
        uart.poll_rxdrdy() == 1
    }

    /// Busy-spin until the transmitter is ready, then clear the
    /// transmit-ready event and store the byte — clear first, so the event
    /// this very store raises is not the one being cleared. The
    /// transmit-ready event is raised on entry from `init`'s dummy
    /// transmit on, and is raised again on return.
    pub fn write_byte(uart: &mut UartBlock, byte: u8)
        requires
            old(uart)@.events_txdrdy == 1,
        ensures
            final(uart)@.events_txdrdy == 1,
            final(uart)@.txd == byte as u32,
            final(uart)@.tx_log == old(uart)@.tx_log.push(byte),
            final(uart)@.writes == old(uart)@.writes + write_byte_writes(byte),
            same_config(old(uart)@, final(uart)@),
            final(uart)@.events_rxdrdy == old(uart)@.events_rxdrdy,
            final(uart)@.rxd == old(uart)@.rxd,
            final(uart)@.rx_delay == old(uart)@.rx_delay,
            final(uart)@.rx_data == old(uart)@.rx_data,
    {
        while !Serial::writable(uart)
            invariant
                *uart == *old(uart),
                uart@.events_txdrdy == 1,
            decreases 0nat,
        {
        }
        uart.write_reg(UartReg::EventsTxdrdy, 0);
        uart.write_reg(UartReg::Txd, byte as u32);
        proof {
            assert(uart@.writes =~= old(uart)@.writes + write_byte_writes(byte));
        }
    }

    /// Busy-spin until the receive-ready event is raised, then clear it and
    /// return the low byte of the receive data register. Calling this with
    /// nothing pending and nothing on the wire stalls the peripheral
    /// forever — a documented hardware hazard, stated here as the caller's
    /// contract. The byte returned is the oldest pending one, and when the
    /// event was not yet raised the whole arrival delay is spent polling
    /// before the call returns.
    pub fn read_byte(uart: &mut UartBlock) -> (byte: u8)
        requires
            rx_pending(old(uart)@).len() > 0,
        ensures
            byte == rx_pending(old(uart)@)[0],
            final(uart)@.events_rxdrdy == 0,
            final(uart)@.rx_data == rx_pending(old(uart)@).skip(1),
            final(uart)@.writes == old(uart)@.writes + seq![
                UartWrite { reg: UartReg::EventsRxdrdy, value: 0 },
            ],
            same_config(old(uart)@, final(uart)@),
            final(uart)@.events_txdrdy == old(uart)@.events_txdrdy,
            final(uart)@.txd == old(uart)@.txd,
            final(uart)@.tx_log == old(uart)@.tx_log,
            old(uart)@.events_rxdrdy == 1 ==> final(uart)@.rx_delay == old(uart)@.rx_delay,
            old(uart)@.events_rxdrdy != 1 ==> final(uart)@.rx_delay == 0,
    {
        loop
            invariant
                rx_pending(uart@) == rx_pending(old(uart)@),
                rx_pending(old(uart)@).len() > 0,
                same_config(old(uart)@, uart@),
                uart@.events_txdrdy == old(uart)@.events_txdrdy,
                uart@.txd == old(uart)@.txd,
                uart@.tx_log == old(uart)@.tx_log,
                uart@.writes == old(uart)@.writes,
                old(uart)@.events_rxdrdy == 1 ==> uart@ == old(uart)@,
                old(uart)@.events_rxdrdy != 1 && uart@.events_rxdrdy == 1 ==> uart@.rx_delay
                    == 0,
            ensures
                uart@.events_rxdrdy == 1,
                rx_pending(uart@) == rx_pending(old(uart)@),
                same_config(old(uart)@, uart@),
                uart@.events_txdrdy == old(uart)@.events_txdrdy,
                uart@.txd == old(uart)@.txd,
                uart@.tx_log == old(uart)@.tx_log,
                uart@.writes == old(uart)@.writes,
                old(uart)@.events_rxdrdy == 1 ==> uart@.rx_delay == old(uart)@.rx_delay,
                old(uart)@.events_rxdrdy != 1 ==> uart@.rx_delay == 0,
            decreases uart@.rx_delay,
        {
            proof {
                lemma_rx_poll_preserves_pending(uart@);
            }
            if Serial::readable(uart) {
                break;
            }
        }
        proof {
            assert(rx_pending(uart@)[0] == uart@.rxd as u8);
            assert(rx_pending(uart@).skip(1) =~= uart@.rx_data);
        }
        uart.write_reg(UartReg::EventsRxdrdy, 0);
        let byte = #[verifier::truncate] (uart.read_rxd() as u8);
        proof {
            assert(uart@.writes =~= old(uart)@.writes + seq![
                UartWrite { reg: UartReg::EventsRxdrdy, value: 0 },
            ]);
        }
        byte
    }

    /// The write-stream capability: write every byte of the sequence, in
    /// order, through `write_byte`. It cannot fail; at worst it blocks.
    pub fn write_stream(uart: &mut UartBlock, bytes: &[u8])
        requires
            old(uart)@.events_txdrdy == 1,
        ensures
            final(uart)@.events_txdrdy == 1,
            final(uart)@.tx_log == old(uart)@.tx_log + bytes@,
            final(uart)@.writes == old(uart)@.writes + stream_writes(bytes@),
            same_config(old(uart)@, final(uart)@),
            final(uart)@.events_rxdrdy == old(uart)@.events_rxdrdy,
            final(uart)@.rxd == old(uart)@.rxd,
            final(uart)@.rx_delay == old(uart)@.rx_delay,
            final(uart)@.rx_data == old(uart)@.rx_data,
    {
        let mut k: usize = 0;
        while k < bytes.len()
            invariant
                k <= bytes@.len(),
                uart@.events_txdrdy == 1,
                uart@.tx_log == old(uart)@.tx_log + bytes@.take(k as int),
                uart@.writes == old(uart)@.writes + stream_writes(bytes@.take(k as int)),
                same_config(old(uart)@, uart@),
                uart@.events_rxdrdy == old(uart)@.events_rxdrdy,
                uart@.rxd == old(uart)@.rxd,
                uart@.rx_delay == old(uart)@.rx_delay,
                uart@.rx_data == old(uart)@.rx_data,
            decreases bytes@.len() - k,
        {
            let ghost prefix = bytes@.take(k as int);
            Serial::write_byte(uart, bytes[k]);
            proof {
                assert(bytes@.take(k + 1 as int).drop_last() =~= prefix);
                assert(bytes@.take(k + 1 as int).last() == bytes@[k as int]);
                assert(uart@.tx_log =~= old(uart)@.tx_log + bytes@.take(k + 1 as int));
                assert(uart@.writes =~= old(uart)@.writes + stream_writes(
                    bytes@.take(k + 1 as int),
                ));
            }
            k = k + 1;
        }
        proof {
            assert(bytes@.take(bytes@.len() as int) =~= bytes@);
        }
    }
}

} // verus!
