//! The board's devices together: received characters feed the console, and each
//! complete line is dispatched to the GPIO controller or the animation scheduler.
use vstd::prelude::*;
use crate::bus::BusOp;
use crate::console::{command_of, parse_command, Command, LineEvent, CMD_BUF_CAPACITY};
use crate::gpio::{GpioError, GpioView, SocVariant, GPIO, GPIO_PIN_COUNT};
use crate::patterns::{
    all_off, first, frame, DeferredPin, gpio_off, gpio_on, is_last, next, pins_of, reset_gpio, set_pin, show,
    Pattern, PatternKind, PatternScheduler, PatternStep, SchedView,
};
use crate::uart::{bumped, received_char, tx_char_ops, tx_ops, too_long_msg, PL011Uart, UartView};

verus! {

/// What the platform is to do after the board took a character.
#[derive(Clone, Copy, Debug, PartialEq, Eq)]
pub enum Reply {
    /// Nothing: the character was added to the line.
    Nothing,
    /// The line was too long and was dropped; the diagnostic has been sent.
    TooLong,
    /// An informational command, answered from the platform's own services.
    Report(Command),
    /// A pin was made an output and driven to `on`.
    PinSet { pin: u8, on: bool },
    /// A pin command named an unsupported pin.
    PinError(GpioError),
    /// A pin command came without a usable pin number.
    BadArgument,
    /// Animations were stopped and every ring pin turned off.
    GpiosReset,
    /// An animation started: its first step is to be scheduled one tick from now.
    Started(PatternStep),
    /// The benchmark was asked for.
    Benchmark,
    /// No command of the table starts the line.
    NotFound,
}

/// The effect of a pin command.
pub open spec fn pin_command(g: GpioView, s: SchedView, arg: Option<u8>, on: bool) -> (GpioView, SchedView, Reply) {
    match arg {
        Some(p) => if p < GPIO_PIN_COUNT {
            (set_pin(g, p, on), s, Reply::PinSet { pin: p, on })
        } else {
            (g, s, Reply::PinError(GpioError::UnsupportedPin { pin: p }))
        },
        None => (g, s, Reply::BadArgument),
    }
}

/// The effect of starting an animation.
pub open spec fn start_command(g: GpioView, s: SchedView, kind: PatternKind) -> (GpioView, SchedView, Reply) {
    (g, s.start(kind), Reply::Started(PatternStep { pattern: first(kind), generation: s.start(kind).generation }))
}

/// The effect of a command on the pins and the animation slot, and the reply.
pub open spec fn dispatch_spec(g: GpioView, s: SchedView, cmd: Command) -> (GpioView, SchedView, Reply) {
    match cmd {
        Command::ResetGpio => (all_off(g), SchedView { current: Pattern::Idle, ..s }, Reply::GpiosReset),
        Command::GpioOn(arg) => pin_command(g, s, arg, true),
        Command::GpioOff(arg) => pin_command(g, s, arg, false),
        Command::HexCounter => start_command(g, s, PatternKind::Hex),
        Command::LeftCounter => start_command(g, s, PatternKind::LeftRing),
        Command::RightCounter => start_command(g, s, PatternKind::RightRing),
        Command::Test => (g, s, Reply::Benchmark),
        Command::NotFound => (g, s, Reply::NotFound),
        _ => (g, s, Reply::Report(cmd)),
    }
}

/// What the board knows of its devices.
pub struct BoardView {
    pub gpio: GpioView,
    pub uart: UartView,
    pub patterns: SchedView,
}

/// The GPIO controller, the UART with its console, and the animation slot.
pub struct Board {
    gpio: GPIO,
    uart: PL011Uart,
    patterns: PatternScheduler,
}

impl View for Board {
    type V = BoardView;

    closed spec fn view(&self) -> BoardView {
        BoardView { gpio: self.gpio@, uart: self.uart@, patterns: self.patterns@ }
    }
}

impl Board {
    pub closed spec fn wf(&self) -> bool {
        self.uart.wf() && self.patterns.wf() && self.gpio@.fsel.len() == 3
    }

    pub fn new(variant: SocVariant) -> (r: Self)
        ensures
            r.wf(),
            r@.gpio.variant == variant,
            r@.gpio.fsel == seq![0u32, 0u32, 0u32],
            r@.gpio.level == 0,
            r@.gpio.ops == Seq::<BusOp>::empty(),
            r@.uart == (UartView { chars_written: 0, chars_read: 0, cmd: Seq::empty(), ops: Seq::empty() }),
            r@.patterns == (SchedView { current: Pattern::Idle, generation: 0 }),
    {
        Board { gpio: GPIO::new(variant), uart: PL011Uart::new(), patterns: PatternScheduler::new() }
    }

    /// Brings the devices up: the UART's pins, then the UART itself.
    pub fn init(&mut self)
        requires
            old(self).wf(),
        ensures
            final(self).wf(),
            final(self)@.patterns == old(self)@.patterns,
            final(self)@.uart == (UartView {
                ops: old(self)@.uart.ops + crate::uart::init_ops(3, 16),
                ..old(self)@.uart
            }),
            final(self)@.gpio.fsel == old(self)@.gpio.fsel.update(
                1,
                crate::gpio::uart_fsel1(old(self)@.gpio.fsel[1]),
            ),
            final(self)@.gpio.level == old(self)@.gpio.level,
    {
        self.gpio.map_pl011_uart();
        self.uart.init();
    }

    /// Carries out a console command.
    pub fn dispatch(&mut self, cmd: Command) -> (r: Reply)
        requires
            old(self).wf(),
        ensures
            final(self).wf(),
            final(self)@.uart == old(self)@.uart,
            (final(self)@.gpio, final(self)@.patterns, r) == dispatch_spec(
                old(self)@.gpio,
                old(self)@.patterns,
                cmd,
            ),
    {
        match cmd {
            Command::ResetGpio => {
                self.patterns.stop_all_patterns();
                reset_gpio(&mut self.gpio);
                proof {
                    crate::patterns::lemma_drive_where(
                        old(self)@.gpio,
                        crate::patterns::ring_pins(),
                        Seq::new(crate::patterns::RING_LEN as nat, |i: int| false),
                        false,
                        crate::patterns::RING_LEN as nat,
                    );
                }
                Reply::GpiosReset
            },
            Command::GpioOn(arg) => self.pin_command(arg, true),
            Command::GpioOff(arg) => self.pin_command(arg, false),
            Command::HexCounter => Reply::Started(self.patterns.start_hex_counter()),
            Command::LeftCounter => Reply::Started(self.patterns.start_left_ring_counter()),
            Command::RightCounter => Reply::Started(self.patterns.start_right_ring_counter()),
            Command::Test => Reply::Benchmark,
            Command::NotFound => Reply::NotFound,
            _ => Reply::Report(cmd),
        }
    }

    fn pin_command(&mut self, arg: Option<u8>, on: bool) -> (r: Reply)
        requires
            old(self).wf(),
        ensures
            final(self).wf(),
            final(self)@.uart == old(self)@.uart,
            (final(self)@.gpio, final(self)@.patterns, r) == pin_command(
                old(self)@.gpio,
                old(self)@.patterns,
                arg,
                on,
            ),
    {
        match arg {
            Some(pin) => {
                let res = if on {
                    gpio_on(&mut self.gpio, pin)
                } else {
                    gpio_off(&mut self.gpio, pin)
                };
                match res {
                    Ok(()) => {
                        proof {
                            self.gpio.lemma_fsel_len();
                        }
                        Reply::PinSet { pin, on }
                    },
                    Err(e) => Reply::PinError(e),
                }
            },
            None => Reply::BadArgument,
        }
    }

    /// Takes one data word drained from the UART's receive FIFO: echoes its character,
    /// adds it to the console line and, at the end of a line, dispatches the command.
    pub fn on_rx_data(&mut self, data: u32) -> (r: Reply)
        requires
            old(self).wf(),
        ensures
            final(self).wf(),
            ({
                let c = received_char(data);
                let line = old(self)@.uart.cmd;
                let echoed = UartView {
                    chars_read: bumped(old(self)@.uart.chars_read, 1),
                    chars_written: bumped(old(self)@.uart.chars_written, 1),
                    ops: old(self)@.uart.ops + tx_char_ops(c),
                    cmd: line,
                };
                &&& c == '\n' ==> final(self)@.uart == (UartView { cmd: Seq::empty(), ..echoed })
                    && (final(self)@.gpio, final(self)@.patterns, r) == dispatch_spec(
                    old(self)@.gpio,
                    old(self)@.patterns,
                    command_of(line),
                )
                &&& c != '\n' ==> final(self)@.gpio == old(self)@.gpio
                    && final(self)@.patterns == old(self)@.patterns
                &&& c != '\n' && line.len() < CMD_BUF_CAPACITY ==> r == Reply::Nothing
                    && final(self)@.uart == (UartView { cmd: line.push(c), ..echoed })
                &&& c != '\n' && line.len() >= CMD_BUF_CAPACITY ==> r == Reply::TooLong
                    && final(self)@.uart == (UartView {
                    cmd: Seq::empty(),
                    ops: echoed.ops + tx_ops(too_long_msg()),
                    chars_written: bumped(echoed.chars_written, too_long_msg().len()),
                    ..echoed
                })
            }),
    {
        let ev = self.uart.receive(data);
        match ev {
            LineEvent::Line(line) => {
                let cmd = parse_command(&line);
                self.dispatch(cmd)
            },
            LineEvent::Pending => Reply::Nothing,
            LineEvent::Overflow => Reply::TooLong,
        }
    }

    /// Entry of the UART interrupt, given the masked interrupt status it latched; see
    /// `PL011Uart::handle`.
    pub fn handle_irq(&mut self, mis: u32) -> (r: bool)
        requires
            old(self).wf(),
        ensures
            final(self).wf(),
            r == (mis & crate::uart::MIS_RX_RT != 0),
            final(self)@.gpio == old(self)@.gpio,
            final(self)@.patterns == old(self)@.patterns,
            final(self)@.uart == (UartView {
                ops: old(self)@.uart.ops.push(BusOp::Write { offset: crate::uart::ICR, value: crate::uart::ICR_ALL }),
                ..old(self)@.uart
            }),
    {
        self.uart.handle(mis)
    }

    /// Runs an animation step the timer service fired; see `PatternScheduler::run_step`.
    pub fn run_step(&mut self, step: PatternStep) -> (r: Option<PatternStep>)
        requires
            old(self).wf(),
        ensures
            final(self).wf(),
            final(self)@.uart == old(self)@.uart,
            !old(self)@.patterns.accepts(step) ==> r is None && final(self)@ == old(self)@,
            old(self)@.patterns.accepts(step) && is_last(step.pattern) ==> r is None
                && final(self)@.patterns == (SchedView { current: Pattern::Idle, ..old(self)@.patterns })
                && final(self)@.gpio == all_off(
                show(old(self)@.gpio, pins_of(step.pattern), frame(step.pattern)),
            ),
            old(self)@.patterns.accepts(step) && !is_last(step.pattern) ==> r == Some(
                PatternStep { pattern: next(step.pattern), generation: old(self)@.patterns.generation },
            ) && final(self)@.patterns == (SchedView { current: next(step.pattern), ..old(self)@.patterns })
                && final(self)@.gpio == show(old(self)@.gpio, pins_of(step.pattern), frame(step.pattern)),
    {
        let r = self.patterns.run_step(&mut self.gpio, step);
        proof {
            self.gpio.lemma_fsel_len();
        }
        r
    }

    /// Takes a data word read from the UART outside the interrupt path; see
    /// `PL011Uart::read_char_converting`.
    pub fn read_char_converting(&mut self, data: u32) -> (r: char)
        requires
            old(self).wf(),
        ensures
            final(self).wf(),
            r == received_char(data),
            final(self)@.gpio == old(self)@.gpio,
            final(self)@.patterns == old(self)@.patterns,
            final(self)@.uart == (UartView {
                chars_read: crate::uart::bumped(old(self)@.uart.chars_read, 1),
                ..old(self)@.uart
            }),
    {
        self.uart.read_char_converting(data)
    }

    /// Carries out a deferred pin change whose timeout fired.
    pub fn run_deferred(&mut self, d: DeferredPin) -> (r: Result<(), GpioError>)
        requires
            old(self).wf(),
        ensures
            final(self).wf(),
            final(self)@.uart == old(self)@.uart,
            final(self)@.patterns == old(self)@.patterns,
            d.pin < GPIO_PIN_COUNT <==> r is Ok,
            r is Ok ==> final(self)@.gpio == set_pin(old(self)@.gpio, d.pin, d.on),
            r is Err ==> final(self)@.gpio == old(self)@.gpio,
    {
        let r = crate::patterns::run_deferred(&mut self.gpio, d);
        proof {
            self.gpio.lemma_fsel_len();
        }
        r
    }

    /// Sends a message on the serial line.
    pub fn write_str(&mut self, s: &str)
        requires
            old(self).wf(),
        ensures
            final(self).wf(),
            final(self)@.gpio == old(self)@.gpio,
            final(self)@.patterns == old(self)@.patterns,
            final(self)@.uart == (UartView {
                ops: old(self)@.uart.ops + tx_ops(s@),
                chars_written: crate::uart::bumped(old(self)@.uart.chars_written, s@.len()),
                ..old(self)@.uart
            }),
    {
        self.uart.write_str(s)
    }

    pub fn gpio(&self) -> (r: &GPIO)
        ensures
            r@ == self@.gpio,
    {
        &self.gpio
    }

    pub fn uart(&self) -> (r: &PL011Uart)
        ensures
            r@ == self@.uart,
    {
        &self.uart
    }

    pub fn patterns(&self) -> (r: &PatternScheduler)
        ensures
            r@ == self@.patterns,
    {
        &self.patterns
    }

    /// Hands out the GPIO accesses made so far, in order.
    pub fn take_gpio_ops(&mut self) -> (r: Vec<BusOp>)
        requires
            old(self).wf(),
        ensures
            final(self).wf(),
            r@ == old(self)@.gpio.ops,
            final(self)@.gpio == (GpioView { ops: Seq::empty(), ..old(self)@.gpio }),
            final(self)@.uart == old(self)@.uart,
            final(self)@.patterns == old(self)@.patterns,
    {
        self.gpio.take_ops()
    }

    /// Hands out the UART accesses made so far, in order.
    pub fn take_uart_ops(&mut self) -> (r: Vec<BusOp>)
        requires
            old(self).wf(),
        ensures
            final(self).wf(),
            r@ == old(self)@.uart.ops,
            final(self)@.uart == (UartView { ops: Seq::empty(), ..old(self)@.uart }),
            final(self)@.gpio == old(self)@.gpio,
            final(self)@.patterns == old(self)@.patterns,
    {
        self.uart.take_ops()
    }
}

} // verus!
