//! GPIO controller of the BCM283x/BCM2711 family.
//!
//! Pins 0 to 29 are supported. Each pin has a 3-bit function-select field, ten to a
//! 32-bit select register; levels are driven through the one-shot set and clear
//! registers, so the driver keeps a shadow of the output latch it has programmed.
use vstd::prelude::*;
use crate::bus::BusOp;

verus! {

/// Byte offsets of the registers in the GPIO block.
pub const GPFSEL0: u32 = 0x00;
pub const GPSET0: u32 = 0x1C;
pub const GPCLR0: u32 = 0x28;
pub const GPPUD: u32 = 0x94;
pub const GPPUDCLK0: u32 = 0x98;
pub const GPIO_PUP_PDN_CNTRL_REG0: u32 = 0xE4;

/// Number of supported pins: valid pin numbers are `0..GPIO_PIN_COUNT`.
pub const GPIO_PIN_COUNT: u8 = 30;

/// Hardware variant, which decides how pull resistors are switched off.
#[derive(Clone, Copy, Debug, PartialEq, Eq, Structural)]
pub enum SocVariant {
    /// Pull state is latched by a clock strobe (GPPUD / GPPUDCLK0).
    Bcm2837,
    /// Pull state is a 2-bit field per pin in GPIO_PUP_PDN_CNTRL_REG0.
    Bcm2711,
}

/// Function of a pin.
#[derive(Clone, Copy, Debug, PartialEq, Eq, Structural)]
pub enum PinMode {
    Input,
    Output,
    Alt0,
    Alt1,
    Alt2,
    Alt3,
    Alt4,
    Alt5,
}

#[derive(Clone, Copy, Debug, PartialEq, Eq, Structural)]
pub enum GpioError {
    /// The pin number is not below `GPIO_PIN_COUNT`.
    UnsupportedPin { pin: u8 },
}

/// The 3-bit encoding of a function in a select field.
pub open spec fn mode_bits(m: PinMode) -> u32 {
    match m {
        PinMode::Input => 0b000,
        PinMode::Output => 0b001,
        PinMode::Alt0 => 0b100,
        PinMode::Alt1 => 0b101,
        PinMode::Alt2 => 0b110,
        PinMode::Alt3 => 0b111,
        PinMode::Alt4 => 0b011,
        PinMode::Alt5 => 0b010,
    }
}

/// Index of the select register that holds a pin's field.
pub open spec fn fsel_index(pin: u8) -> int {
    pin as int / 10
}

/// Bit offset of a pin's field inside its select register.
pub open spec fn fsel_shift(pin: u8) -> u32 {
    (3 * (pin % 10)) as u32
}

/// The 3-bit field at `shift` of `reg`.
pub open spec fn field(reg: u32, shift: u32) -> u32 {
    (reg >> shift) & 7u32
}

/// `reg` with its 3-bit field at `shift` replaced by `bits`.
pub open spec fn with_field(reg: u32, shift: u32, bits: u32) -> u32 {
    (reg & !(7u32 << shift)) | (bits << shift)
}

/// Whether bit `pin` of a level word is set.
pub open spec fn bit_set(word: u32, pin: u32) -> bool {
    (word >> pin) & 1u32 == 1u32
}

/// What the driver knows of the GPIO block.
pub struct GpioView {
    pub variant: SocVariant,
    /// The three function-select registers.
    pub fsel: Seq<u32>,
    /// Output latch of pins 0 to 31, as programmed through the set and clear registers.
    pub level: u32,
    /// Accesses not yet handed to the bus.
    pub ops: Seq<BusOp>,
}

impl GpioView {
    /// The state a program can observe on the pins: their functions and levels.
    pub open spec fn pins(self) -> (Seq<u32>, u32) {
        (self.fsel, self.level)
    }

    pub open spec fn mode_of(self, pin: u8) -> u32 {
        field(self.fsel[fsel_index(pin)], fsel_shift(pin))
    }

    pub open spec fn is_high(self, pin: u8) -> bool {
        bit_set(self.level, pin as u32)
    }

    /// Effect of selecting `mode` for a supported `pin`.
    pub open spec fn configure(self, pin: u8, mode: PinMode) -> GpioView {
        let k = fsel_index(pin);
        let v = with_field(self.fsel[k], fsel_shift(pin), mode_bits(mode));
        GpioView {
            fsel: self.fsel.update(k, v),
            ops: self.ops.push(BusOp::Write { offset: (GPFSEL0 + 4 * k) as u32, value: v }),
            ..self
        }
    }

    /// Effect of driving a supported `pin` high: bit `pin` goes to the set register.
    pub open spec fn drive_high(self, pin: u8) -> GpioView {
        let m = 1u32 << (pin as u32);
        GpioView {
            level: self.level | m,
            ops: self.ops.push(BusOp::Write { offset: GPSET0, value: m }),
            ..self
        }
    }

    /// Effect of driving a supported `pin` low: bit `pin` goes to the clear register.
    pub open spec fn drive_low(self, pin: u8) -> GpioView {
        let m = 1u32 << (pin as u32);
        GpioView {
            level: self.level & !m,
            ops: self.ops.push(BusOp::Write { offset: GPCLR0, value: m }),
            ..self
        }
    }
}

/// Accesses that switch off the pull resistors of the UART pins.
pub open spec fn pud_disable_ops(variant: SocVariant) -> Seq<BusOp> {
    match variant {
        SocVariant::Bcm2837 => seq![
            BusOp::Write { offset: GPPUD, value: 0 },
            BusOp::DelayMicros { micros: 1 },
            BusOp::Write { offset: GPPUDCLK0, value: (1u32 << 15u32) | (1u32 << 14u32) },
            BusOp::DelayMicros { micros: 1 },
            BusOp::Write { offset: GPPUD, value: 0 },
            BusOp::Write { offset: GPPUDCLK0, value: 0 },
        ],
        SocVariant::Bcm2711 => seq![BusOp::Write { offset: GPIO_PUP_PDN_CNTRL_REG0, value: 0 }],
    }
}

/// Value of select register 1 once pins 14 and 15 are given to the UART.
pub open spec fn uart_fsel1(reg: u32) -> u32 {
    with_field(with_field(reg, 12, mode_bits(PinMode::Alt0)), 15, mode_bits(PinMode::Alt0))
}

/// Replacing one field leaves the others as they were.
pub proof fn lemma_with_field(reg: u32, s: u32, t: u32, bits: u32)
    requires
        s <= 27,
        t <= 27,
        s == t || s + 3 <= t || t + 3 <= s,
        bits < 8,
    ensures
        field(with_field(reg, s, bits), t) == if s == t { bits } else { field(reg, t) },
{
    assert(field(with_field(reg, s, bits), t) == if s == t { bits } else { field(reg, t) })
        by (bit_vector)
        requires
            s <= 27,
            t <= 27,
            s == t || s + 3 <= t || t + 3 <= s,
            bits < 8,
    ;
}

/// Fields of two distinct pins of one register do not overlap.
pub proof fn lemma_shifts_apart(p: u8, q: u8)
    requires
        p < GPIO_PIN_COUNT,
        q < GPIO_PIN_COUNT,
    ensures
        fsel_shift(p) <= 27,
        fsel_shift(q) <= 27,
        fsel_index(p) == fsel_index(q) && p != q ==> fsel_shift(p) + 3 <= fsel_shift(q)
            || fsel_shift(q) + 3 <= fsel_shift(p),
        fsel_index(p) == fsel_index(q) && p == q ==> fsel_shift(p) == fsel_shift(q),
{
}

/// Setting bit `pin` leaves every other bit as it was.
pub proof fn lemma_or_bit(level: u32, pin: u32, q: u32)
    requires
        pin < 32,
        q < 32,
    ensures
        bit_set(level | (1u32 << pin), q) == (q == pin || bit_set(level, q)),
{
    assert(bit_set(level | (1u32 << pin), q) == (q == pin || bit_set(level, q))) by (bit_vector)
        requires
            pin < 32,
            q < 32,
    ;
}

/// Clearing bit `pin` leaves every other bit as it was.
pub proof fn lemma_clear_bit(level: u32, pin: u32, q: u32)
    requires
        pin < 32,
        q < 32,
    ensures
        bit_set(level & !(1u32 << pin), q) == (q != pin && bit_set(level, q)),
{
    assert(bit_set(level & !(1u32 << pin), q) == (q != pin && bit_set(level, q)))
        by (bit_vector)
        requires
            pin < 32,
            q < 32,
    ;
}

/// The GPIO driver state, owned by whoever holds the controller's lock.
pub struct GPIOInner {
    variant: SocVariant,
    fsel0: u32,
    fsel1: u32,
    fsel2: u32,
    level: u32,
    ops: Vec<BusOp>,
}

impl View for GPIOInner {
    type V = GpioView;

    closed spec fn view(&self) -> GpioView {
        GpioView {
            variant: self.variant,
            fsel: seq![self.fsel0, self.fsel1, self.fsel2],
            level: self.level,
            ops: self.ops@,
        }
    }
}

impl GPIOInner {
    /// A driver for a block in its reset state: every pin an input, every level low.
    pub fn new(variant: SocVariant) -> (r: Self)
        ensures
            r@.variant == variant,
            r@.fsel == seq![0u32, 0u32, 0u32],
            r@.level == 0,
            r@.ops == Seq::<BusOp>::empty(),
    {
        GPIOInner { variant, fsel0: 0, fsel1: 0, fsel2: 0, level: 0, ops: Vec::new() }
    }

    pub proof fn lemma_fsel_len(&self)
        ensures
            self@.fsel.len() == 3,
    {
    }

    /// Selects the function of a pin (read-modify-write of its select register).
    pub fn set_pin_mode(&mut self, pin: u8, mode: PinMode) -> (r: Result<(), GpioError>)
        ensures
            pin < GPIO_PIN_COUNT <==> r is Ok,
            r is Ok ==> final(self)@ == old(self)@.configure(pin, mode),
            r is Err ==> r == Err::<(), GpioError>(GpioError::UnsupportedPin { pin })
                && final(self)@ == old(self)@,
    {
        if pin >= GPIO_PIN_COUNT {
            return Err(GpioError::UnsupportedPin { pin });
        }
        let bits: u32 = match mode {
            PinMode::Input => 0b000,
            PinMode::Output => 0b001,
            PinMode::Alt0 => 0b100,
            PinMode::Alt1 => 0b101,
            PinMode::Alt2 => 0b110,
            PinMode::Alt3 => 0b111,
            PinMode::Alt4 => 0b011,
            PinMode::Alt5 => 0b010,
        };
        let shift: u32 = (3 * (pin % 10)) as u32;
        let k: u8 = pin / 10;
        let old_reg: u32 = if k == 0 {
            self.fsel0
        } else if k == 1 {
            self.fsel1
        } else {
            self.fsel2
        };
        let v: u32 = (old_reg & !(7u32 << shift)) | (bits << shift);
        if k == 0 {
            self.fsel0 = v;
        } else if k == 1 {
            self.fsel1 = v;
        } else {
            self.fsel2 = v;
        }
        self.ops.push(BusOp::Write { offset: GPFSEL0 + 4 * (k as u32), value: v });
        proof {
            assert(self@.fsel =~= old(self)@.fsel.update(k as int, v));
        }
        Ok(())
    }

    /// Makes a pin an output.
    pub fn set_pin_as_output(&mut self, pin: u8) -> (r: Result<(), GpioError>)
        ensures
            pin < GPIO_PIN_COUNT <==> r is Ok,
            r is Ok ==> final(self)@ == old(self)@.configure(pin, PinMode::Output),
            r is Err ==> r == Err::<(), GpioError>(GpioError::UnsupportedPin { pin })
                && final(self)@ == old(self)@,
    {
        self.set_pin_mode(pin, PinMode::Output)
    }

    /// Makes pin 17 an output.
    pub fn set_gpio17_as_output(&mut self)
        ensures
            final(self)@ == old(self)@.configure(17, PinMode::Output),
    {
        let _ = self.set_pin_mode(17, PinMode::Output);
    }

    /// Drives a pin high by writing its bit, alone, to the set register.
    pub fn set_gpio_high(&mut self, pin: u8) -> (r: Result<(), GpioError>)
        ensures
            pin < GPIO_PIN_COUNT <==> r is Ok,
            r is Ok ==> final(self)@ == old(self)@.drive_high(pin),
            r is Err ==> r == Err::<(), GpioError>(GpioError::UnsupportedPin { pin })
                && final(self)@ == old(self)@,
    {
        if pin >= GPIO_PIN_COUNT {
            return Err(GpioError::UnsupportedPin { pin });
        }
        let m: u32 = 1u32 << (pin as u32);
        self.level = self.level | m;
        self.ops.push(BusOp::Write { offset: GPSET0, value: m });
        Ok(())
    }

    /// Drives a pin low by writing its bit, alone, to the clear register.
    pub fn set_gpio_low(&mut self, pin: u8) -> (r: Result<(), GpioError>)
        ensures
            pin < GPIO_PIN_COUNT <==> r is Ok,
            r is Ok ==> final(self)@ == old(self)@.drive_low(pin),
            r is Err ==> r == Err::<(), GpioError>(GpioError::UnsupportedPin { pin })
                && final(self)@ == old(self)@,
    {
        if pin >= GPIO_PIN_COUNT {
            return Err(GpioError::UnsupportedPin { pin });
        }
        let m: u32 = 1u32 << (pin as u32);
        self.level = self.level & !m;
        self.ops.push(BusOp::Write { offset: GPCLR0, value: m });
        Ok(())
    }

    /// Switches off the pull resistors of pins 14 and 15 through the clocked sequence:
    /// control value, 1 µs, strobe both pins, 1 µs, release.
    fn disable_pud_14_15_bcm2837(&mut self)
        ensures
            final(self)@ == (GpioView {
                ops: old(self)@.ops + pud_disable_ops(SocVariant::Bcm2837),
                ..old(self)@
            }),
    {
        self.ops.push(BusOp::Write { offset: GPPUD, value: 0 });
        self.ops.push(BusOp::DelayMicros { micros: 1 });
        self.ops.push(BusOp::Write { offset: GPPUDCLK0, value: (1u32 << 15u32) | (1u32 << 14u32) });
        self.ops.push(BusOp::DelayMicros { micros: 1 });
        self.ops.push(BusOp::Write { offset: GPPUD, value: 0 });
        self.ops.push(BusOp::Write { offset: GPPUDCLK0, value: 0 });
        proof {
            assert(self@.ops =~= old(self)@.ops + pud_disable_ops(SocVariant::Bcm2837));
        }
    }

    /// Switches off the pull resistors of pins 14 and 15 with one write of the
    /// "no resistor" encoding.
    fn disable_pud_14_15_bcm2711(&mut self)
        ensures
            final(self)@ == (GpioView {
                ops: old(self)@.ops + pud_disable_ops(SocVariant::Bcm2711),
                ..old(self)@
            }),
    {
        self.ops.push(BusOp::Write { offset: GPIO_PUP_PDN_CNTRL_REG0, value: 0 });
        proof {
            assert(self@.ops =~= old(self)@.ops + pud_disable_ops(SocVariant::Bcm2711));
        }
    }

    /// Gives pins 14 (TX) and 15 (RX) to the PL011 UART and switches off their pulls.
    pub fn map_pl011_uart(&mut self)
        ensures
            final(self)@ == (GpioView {
                fsel: old(self)@.fsel.update(1, uart_fsel1(old(self)@.fsel[1])),
                ops: old(self)@.ops.push(
                    BusOp::Write { offset: 4, value: uart_fsel1(old(self)@.fsel[1]) },
                ) + pud_disable_ops(old(self)@.variant),
                ..old(self)@
            }),
    {
        let v: u32 = (self.fsel1 & !(7u32 << 12u32)) | (4u32 << 12u32);
        let v: u32 = (v & !(7u32 << 15u32)) | (4u32 << 15u32);
        self.fsel1 = v;
        self.ops.push(BusOp::Write { offset: GPFSEL0 + 4, value: v });
        let ghost mid = self@;
        proof {
            assert(mid.fsel =~= old(self)@.fsel.update(1, uart_fsel1(old(self)@.fsel[1])));
        }
        match self.variant {
            SocVariant::Bcm2837 => self.disable_pud_14_15_bcm2837(),
            SocVariant::Bcm2711 => self.disable_pud_14_15_bcm2711(),
        }
    }

    /// Current value of select register `k` (0, 1 or 2).
    pub fn fsel(&self, k: usize) -> (r: u32)
        requires
            k < 3,
        ensures
            r == self@.fsel[k as int],
    {
        if k == 0 {
            self.fsel0
        } else if k == 1 {
            self.fsel1
        } else {
            self.fsel2
        }
    }

    /// Output latch of pins 0 to 31.
    pub fn level(&self) -> (r: u32)
        ensures
            r == self@.level,
    {
        self.level
    }

    /// Whether a pin has been driven high.
    pub fn is_high(&self, pin: u8) -> (r: bool)
        requires
            pin < 32,
        ensures
            r == self@.is_high(pin),
    {
        (self.level >> (pin as u32)) & 1u32 == 1u32
    }

    /// Hands out the accesses made so far, in order, and forgets them.
    pub fn take_ops(&mut self) -> (r: Vec<BusOp>)
        ensures
            r@ == old(self)@.ops,
            final(self)@ == (GpioView { ops: Seq::<BusOp>::empty(), ..old(self)@ }),
    {
        crate::bus::drain(&mut self.ops)
    }
}

/// The GPIO controller. Every operation takes `&mut self`: the exclusive access that the
/// interrupt-masking lock around the controller hands out.
pub struct GPIO {
    inner: GPIOInner,
}

impl View for GPIO {
    type V = GpioView;

    closed spec fn view(&self) -> GpioView {
        self.inner@
    }
}

impl GPIO {
    /// Name under which the driver registers.
    pub fn compatible(&self) -> (r: &'static str)
        ensures
            r@ == "BCM GPIO"@,
    {
        "BCM GPIO"
    }

    /// A controller for a block in its reset state.
    pub fn new(variant: SocVariant) -> (r: Self)
        ensures
            r@.variant == variant,
            r@.fsel == seq![0u32, 0u32, 0u32],
            r@.level == 0,
            r@.ops == Seq::<BusOp>::empty(),
    {
        GPIO { inner: GPIOInner::new(variant) }
    }

    /// Gives pins 14 and 15 to the PL011 UART; see `GPIOInner::map_pl011_uart`.
    pub fn map_pl011_uart(&mut self)
        ensures
            final(self)@ == (GpioView {
                fsel: old(self)@.fsel.update(1, uart_fsel1(old(self)@.fsel[1])),
                ops: old(self)@.ops.push(
                    BusOp::Write { offset: 4, value: uart_fsel1(old(self)@.fsel[1]) },
                ) + pud_disable_ops(old(self)@.variant),
                ..old(self)@
            }),
    {
        self.inner.map_pl011_uart()
    }

    /// Selects the function of a pin.
    pub fn set_pin_mode(&mut self, pin: u8, mode: PinMode) -> (r: Result<(), GpioError>)
        ensures
            pin < GPIO_PIN_COUNT <==> r is Ok,
            r is Ok ==> final(self)@ == old(self)@.configure(pin, mode),
            r is Err ==> r == Err::<(), GpioError>(GpioError::UnsupportedPin { pin })
                && final(self)@ == old(self)@,
    {
        self.inner.set_pin_mode(pin, mode)
    }

    /// Makes a pin an output.
    pub fn set_pin_as_output(&mut self, pin: u8) -> (r: Result<(), GpioError>)
        ensures
            pin < GPIO_PIN_COUNT <==> r is Ok,
            r is Ok ==> final(self)@ == old(self)@.configure(pin, PinMode::Output),
            r is Err ==> r == Err::<(), GpioError>(GpioError::UnsupportedPin { pin })
                && final(self)@ == old(self)@,
    {
        self.inner.set_pin_as_output(pin)
    }

    /// Drives a pin high.
    pub fn set_gpio_high(&mut self, pin: u8) -> (r: Result<(), GpioError>)
        ensures
            pin < GPIO_PIN_COUNT <==> r is Ok,
            r is Ok ==> final(self)@ == old(self)@.drive_high(pin),
            r is Err ==> r == Err::<(), GpioError>(GpioError::UnsupportedPin { pin })
                && final(self)@ == old(self)@,
    {
        self.inner.set_gpio_high(pin)
    }

    /// Drives a pin low.
    pub fn set_gpio_low(&mut self, pin: u8) -> (r: Result<(), GpioError>)
        ensures
            pin < GPIO_PIN_COUNT <==> r is Ok,
            r is Ok ==> final(self)@ == old(self)@.drive_low(pin),
            r is Err ==> r == Err::<(), GpioError>(GpioError::UnsupportedPin { pin })
                && final(self)@ == old(self)@,
    {
        self.inner.set_gpio_low(pin)
    }

    /// Current value of select register `k` (0, 1 or 2).
    pub fn fsel(&self, k: usize) -> (r: u32)
        requires
            k < 3,
        ensures
            r == self@.fsel[k as int],
    {
        self.inner.fsel(k)
    }

    /// Output latch of pins 0 to 31.
    pub fn level(&self) -> (r: u32)
        ensures
            r == self@.level,
    {
        self.inner.level()
    }

    /// Whether a pin has been driven high.
    pub fn is_high(&self, pin: u8) -> (r: bool)
        requires
            pin < 32,
        ensures
            r == self@.is_high(pin),
    {
        self.inner.is_high(pin)
    }

    /// Hands out the accesses made so far, in order, and forgets them.
    pub fn take_ops(&mut self) -> (r: Vec<BusOp>)
        ensures
            r@ == old(self)@.ops,
            final(self)@ == (GpioView { ops: Seq::<BusOp>::empty(), ..old(self)@ }),
    {
        self.inner.take_ops()
    }

    pub proof fn lemma_fsel_len(&self)
        ensures
            self@.fsel.len() == 3,
    {
        self.inner.lemma_fsel_len();
    }
}

/// Selecting a function for a pin writes its select register, the one of index
/// `pin / 10` (pins 0-9, 10-19, 20-29 in registers 0, 1, 2), and changes exactly the
/// 3-bit field at offset `3 * (pin % 10)` in it: every other pin keeps its function.
pub proof fn law_configure_touches_one_field(g: GpioView, pin: u8, mode: PinMode, q: u8)
    requires
        g.fsel.len() == 3,
        pin < GPIO_PIN_COUNT,
        q < GPIO_PIN_COUNT,
    ensures
        fsel_index(pin) == (if pin <= 9 { 0int } else if pin <= 19 { 1int } else { 2int }),
        fsel_shift(pin) == 3 * (pin % 10),
        g.configure(pin, mode).ops.last() == (BusOp::Write {
            offset: (4 * fsel_index(pin)) as u32,
            value: with_field(g.fsel[fsel_index(pin)], fsel_shift(pin), mode_bits(mode)),
        }),
        g.configure(pin, mode).mode_of(q) == if q == pin { mode_bits(mode) } else { g.mode_of(q) },
        g.configure(pin, mode).level == g.level,
{
    lemma_shifts_apart(pin, q);
    let k = fsel_index(pin);
    if fsel_index(q) == k {
        lemma_with_field(g.fsel[k], fsel_shift(pin), fsel_shift(q), mode_bits(mode));
    }
}

/// Selecting the same function for the same pin twice leaves the pins as once does.
pub proof fn law_configure_idempotent(g: GpioView, pin: u8, mode: PinMode)
    requires
        g.fsel.len() == 3,
        pin < GPIO_PIN_COUNT,
    ensures
        g.configure(pin, mode).configure(pin, mode).pins() == g.configure(pin, mode).pins(),
{
    let k = fsel_index(pin);
    let s = fsel_shift(pin);
    let b = mode_bits(mode);
    let r = g.fsel[k];
    assert(with_field(with_field(r, s, b), s, b) == with_field(r, s, b)) by (bit_vector);
    assert(g.configure(pin, mode).configure(pin, mode).fsel =~= g.configure(pin, mode).fsel);
}

/// Driving a pin high writes the set register with exactly bit `pin` and leaves every
/// other pin's level as it was; driving it low does the same through the clear register.
pub proof fn law_drive_touches_one_bit(g: GpioView, pin: u8, q: u8)
    requires
        pin < GPIO_PIN_COUNT,
        q < 32,
    ensures
        g.drive_high(pin).ops.last() == (BusOp::Write { offset: GPSET0, value: 1u32 << (pin as u32) }),
        g.drive_low(pin).ops.last() == (BusOp::Write { offset: GPCLR0, value: 1u32 << (pin as u32) }),
        bit_set(1u32 << (pin as u32), q as u32) == (q == pin),
        g.drive_high(pin).is_high(q) == (q == pin || g.is_high(q)),
        !g.drive_low(pin).is_high(q) == (q == pin || !g.is_high(q)),
        g.drive_high(pin).fsel == g.fsel,
        g.drive_low(pin).fsel == g.fsel,
{
    lemma_or_bit(g.level, pin as u32, q as u32);
    lemma_clear_bit(g.level, pin as u32, q as u32);
    let (p, b) = (pin as u32, q as u32);
    assert(bit_set(1u32 << p, b) == (b == p)) by (bit_vector)
        requires
            p < 32,
            b < 32,
    ;
}

/// Driving a pin high twice in a row leaves the pins as driving it once does, and so
/// does driving it low twice.
pub proof fn law_drive_idempotent(g: GpioView, pin: u8)
    requires
        pin < GPIO_PIN_COUNT,
    ensures
        g.drive_high(pin).drive_high(pin).pins() == g.drive_high(pin).pins(),
        g.drive_low(pin).drive_low(pin).pins() == g.drive_low(pin).pins(),
{
    let l = g.level;
    let m = 1u32 << (pin as u32);
    assert((l | m) | m == l | m) by (bit_vector);
    assert((l & !m) & !m == l & !m) by (bit_vector);
}

} // verus!
