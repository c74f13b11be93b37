//! The GPIO controller: a register-block model and the pin driver on top of
//! it.
//!
//! `GpioBlock` stands for the controller's memory-mapped registers. Every
//! store goes through one accessor, `write`, which both applies the
//! register's documented effect and appends the store to a trace, so that
//! the order of volatile writes is part of every contract. Toggling uses the
//! single-bit OUTSET/OUTCLR registers rather than read-modify-write, so a
//! write to one pin can never disturb another.

use vstd::prelude::*;

verus! {

/// Configuration-register value selecting input direction.
pub const CONFIG_INPUT: u32 = 0;

/// Configuration-register value selecting output direction.
pub const CONFIG_OUTPUT: u32 = 1;

/// Configuration-register field enabling the pull-up resistor.
pub const CONFIG_PULLUP: u32 = 12;

/// The number of pin lines the controller's bit-mapped registers cover.
pub const PIN_COUNT: u32 = 32;

/// One volatile store to a GPIO register: which register, and the value
/// stored.
#[derive(Clone, Copy, Debug, PartialEq, Eq, Structural)]
pub enum GpioWrite {
    /// Store to OUTSET: every bit set in the value is set in the output port.
    OutSet(u32),
    /// Store to OUTCLR: every bit set in the value is cleared in the output
    /// port.
    OutClr(u32),
    /// Store to the configuration slot of one pin line.
    PinCnf(u8, u32),
}

/// The mathematical state of the GPIO controller: the output port, the
/// per-pin configuration slots, and the trace of volatile stores made so
/// far, oldest first.
pub struct GpioState {
    pub out: u32,
    pub pin_cnf: Seq<u32>,
    pub writes: Seq<GpioWrite>,
}

impl GpioState {
    /// The register block has one configuration slot per pin line.
    pub open spec fn wf(self) -> bool {
        self.pin_cnf.len() == PIN_COUNT
    }
}

/// A store that stays within the register block's layout.
pub open spec fn gpio_write_wf(w: GpioWrite) -> bool {
    match w {
        GpioWrite::OutSet(_) => true,
        GpioWrite::OutClr(_) => true,
        GpioWrite::PinCnf(index, _) => index < PIN_COUNT,
    }
}

/// The effect of one volatile store on the controller state: the register's
/// documented semantics, plus the store itself appended to the trace.
pub open spec fn gpio_store(g: GpioState, w: GpioWrite) -> GpioState {
    match w {
        GpioWrite::OutSet(mask) => GpioState {
            out: g.out | mask,
            pin_cnf: g.pin_cnf,
            writes: g.writes.push(w),
        },
        GpioWrite::OutClr(mask) => GpioState {
            out: g.out & !mask,
            pin_cnf: g.pin_cnf,
            writes: g.writes.push(w),
        },
        GpioWrite::PinCnf(index, value) => GpioState {
            out: g.out,
            pin_cnf: g.pin_cnf.update(index as int, value),
            writes: g.writes.push(w),
        },
    }
}

/// The GPIO controller's registers, as an owned value: a simulated register
/// block with the same layout and store semantics as the hardware one.
pub struct GpioBlock {
    /// The output port: bit `n` drives pin `n`.
    pub out: u32,
    /// One configuration slot per pin line; always `PIN_COUNT` entries.
    pub pin_cnf: Vec<u32>,
    /// Every volatile store made to this block, oldest first.
    pub writes: Vec<GpioWrite>,
}

impl View for GpioBlock {
    type V = GpioState;

    open spec fn view(&self) -> GpioState {
        GpioState { out: self.out, pin_cnf: self.pin_cnf@, writes: self.writes@ }
    }
}

impl GpioBlock {
    /// A block in its reset state: all output bits low, all configuration
    /// slots at their reset value, no stores made yet.
    pub fn new() -> (g: GpioBlock)
        ensures
            g@.wf(),
            g@.out == 0,
            g@.writes == Seq::<GpioWrite>::empty(),
            forall|i: int| 0 <= i < PIN_COUNT ==> g@.pin_cnf[i] == CONFIG_INPUT,
    {
        let mut pin_cnf: Vec<u32> = Vec::new();
        let mut i: u32 = 0;
        while i < PIN_COUNT
            invariant
                i <= PIN_COUNT,
                pin_cnf@.len() == i,
                forall|k: int| 0 <= k < i ==> pin_cnf@[k] == CONFIG_INPUT,
            decreases PIN_COUNT - i,
        {
            pin_cnf.push(CONFIG_INPUT);
            i = i + 1;
        }
        GpioBlock { out: 0, pin_cnf, writes: Vec::new() }
    }

    /// The volatile store accessor: the one way anything writes a GPIO
    /// register. Applies the register's effect and records the store.
    pub fn write(&mut self, w: GpioWrite)
        requires
            old(self)@.wf(),
            gpio_write_wf(w),
        ensures
            final(self)@ == gpio_store(old(self)@, w),
            final(self)@.wf(),
    {
        match w {
            GpioWrite::OutSet(mask) => {
                self.out = self.out | mask;
            },
            GpioWrite::OutClr(mask) => {
                self.out = self.out & !mask;
            },
            GpioWrite::PinCnf(index, value) => {
                self.pin_cnf.set(index as usize, value);
            },
        }
        self.writes.push(w);
    }
}

/// Whether bit `b` of `x` is set.
pub open spec fn bit_set(x: u32, b: u32) -> bool {
    x & (1u32 << b) != 0
}

/// An integer naming one physical GPIO line in the controller's bit-mapped
/// registers. Valid lines are `0` to `PIN_COUNT - 1`.
#[derive(Clone, Copy, Debug, PartialEq, Eq, Structural)]
pub struct PinNumber(pub u8);

impl PinNumber {
    /// The pin number names a line the controller actually has.
    pub open spec fn valid(self) -> bool {
        self.0 < PIN_COUNT
    }

    /// The single-bit mask of this pin's line in the port registers.
    pub open spec fn spec_mask(self) -> u32 {
        1u32 << (self.0 as u32)
    }

    /// The single-bit mask of this pin's line in the port registers.
    pub fn mask(&self) -> (m: u32)
        requires
            self.valid(),
        ensures
            m == self.spec_mask(),
    {
        1u32 << (self.0 as u32)
    }

    /// Configure this line as an input with the pull-up enabled. Idempotent:
    /// the slot is overwritten with a fixed value. Only this line's
    /// configuration slot is touched.
    pub fn input_pullup(&self, gpio: &mut GpioBlock)
        requires
            self.valid(),
            old(gpio)@.wf(),
        ensures
            final(gpio)@ == gpio_store(
                old(gpio)@,
                GpioWrite::PinCnf(self.0, CONFIG_INPUT | CONFIG_PULLUP),
            ),
            final(gpio)@.wf(),
    {
        gpio.write(GpioWrite::PinCnf(self.0, CONFIG_INPUT | CONFIG_PULLUP));
    }

    /// Configure this line as an output with the pull-up enabled. Idempotent,
    /// and touches only this line's configuration slot.
    pub fn output_pullup(&self, gpio: &mut GpioBlock)
        requires
            self.valid(),
            old(gpio)@.wf(),
        ensures
            final(gpio)@ == gpio_store(
                old(gpio)@,
                GpioWrite::PinCnf(self.0, CONFIG_OUTPUT | CONFIG_PULLUP),
            ),
            final(gpio)@.wf(),
    {
        gpio.write(GpioWrite::PinCnf(self.0, CONFIG_OUTPUT | CONFIG_PULLUP));
    }
}

/// A GPIO line committed to output direction. Holds the precomputed
/// single-bit mask of its line; the mask is fixed at construction, and
/// construction itself writes the configuration register, so a `Pin` cannot
/// exist for a line that was never configured by it.
pub struct Pin {
    mask: u32,
}

impl Pin {
    /// The mask this handle writes to the set/clear registers.
    pub closed spec fn spec_mask(&self) -> u32 {
        self.mask
    }

    /// Configure `number`'s line as an output and return the handle for it.
    /// The configuration store happens before the handle exists.
    pub fn output(gpio: &mut GpioBlock, number: PinNumber) -> (pin: Pin)
        requires
            number.valid(),
            old(gpio)@.wf(),
        ensures
            pin.spec_mask() == number.spec_mask(),
            final(gpio)@ == gpio_store(old(gpio)@, GpioWrite::PinCnf(number.0, CONFIG_OUTPUT)),
            final(gpio)@.wf(),
    {
        gpio.write(GpioWrite::PinCnf(number.0, CONFIG_OUTPUT));
        Pin { mask: number.mask() }
    }

    /// Drive this line high: one store of the handle's mask to OUTSET. No
    /// other line's output bit changes, and no configuration slot changes.
    pub fn set_high(&self, gpio: &mut GpioBlock)
        requires
            old(gpio)@.wf(),
        ensures
            final(gpio)@ == gpio_store(old(gpio)@, GpioWrite::OutSet(self.spec_mask())),
            final(gpio)@.wf(),
    {
        gpio.write(GpioWrite::OutSet(self.mask));
    }

    /// Drive this line low: one store of the handle's mask to OUTCLR. No
    /// other line's output bit changes, and no configuration slot changes.
    pub fn set_low(&self, gpio: &mut GpioBlock)
        requires
            old(gpio)@.wf(),
        ensures
            final(gpio)@ == gpio_store(old(gpio)@, GpioWrite::OutClr(self.spec_mask())),
            final(gpio)@.wf(),
    {
        gpio.write(GpioWrite::OutClr(self.mask));
    }
}

/// Configuring a pin line twice with the same value is safe and leaves the
/// same register state as configuring it once: the slot is overwritten, not
/// accumulated. Only the store trace records the repetition.
pub proof fn lemma_configure_idempotent(g: GpioState, index: u8, value: u32)
    requires
        g.wf(),
        index < PIN_COUNT,
    ensures
        ({
            let once = gpio_store(g, GpioWrite::PinCnf(index, value));
            let twice = gpio_store(once, GpioWrite::PinCnf(index, value));
            &&& twice.out == once.out
            &&& twice.pin_cnf == once.pin_cnf
        }),
{
    let once = gpio_store(g, GpioWrite::PinCnf(index, value));
    let twice = gpio_store(once, GpioWrite::PinCnf(index, value));
    assert(twice.pin_cnf =~= once.pin_cnf);
}

/// Mask isolation: for every valid pin number, driving the pin's line high
/// and then low through its mask sets and then clears exactly that line's
/// bit of the output port, leaves every other line's bit as it was
/// throughout, and never touches a configuration slot.
pub proof fn lemma_mask_isolation(g: GpioState, pn: PinNumber)
    requires
        pn.valid(),
    ensures
        ({
            let m = pn.spec_mask();
            let after_set = gpio_store(g, GpioWrite::OutSet(m));
            let after_clr = gpio_store(after_set, GpioWrite::OutClr(m));
            &&& bit_set(after_set.out, pn.0 as u32)
            &&& !bit_set(after_clr.out, pn.0 as u32)
            &&& forall|b: u32|
                b < PIN_COUNT && b != pn.0 as u32 ==> bit_set(after_set.out, b) == bit_set(
                    g.out,
                    b,
                ) && bit_set(after_clr.out, b) == bit_set(g.out, b)
            &&& after_set.pin_cnf == g.pin_cnf
            &&& after_clr.pin_cnf == g.pin_cnf
        }),
{
    let o = g.out;
    let n = pn.0 as u32;
    assert((o | (1u32 << n)) & (1u32 << n) != 0) by (bit_vector)
        requires
            n < 32,
    ;
    assert(((o | (1u32 << n)) & !(1u32 << n)) & (1u32 << n) == 0) by (bit_vector)
        requires
            n < 32,
    ;
    assert(forall|b: u32|
        b < 32 && b != n ==> ((o | (1u32 << n)) & (1u32 << b) != 0) == (o & (1u32 << b) != 0)
            && (((o | (1u32 << n)) & !(1u32 << n)) & (1u32 << b) != 0) == (o & (1u32 << b)
            != 0)) by (bit_vector)
        requires
            n < 32,
    ;
}

} // verus!
