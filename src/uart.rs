//! PL011 UART driver.
//!
//! Writes and waits go to the driver's journal of bus operations. The values the
//! hardware returns on reads (the flag register, a received data word, the masked
//! interrupt status) are handed in by the caller, who read them.
use vstd::prelude::*;
use crate::bus::BusOp;
use crate::console::{CommandBuffer, LineEvent, CMD_BUF_CAPACITY};

verus! {

/// Byte offsets of the registers in the PL011 block.
pub const DR: u32 = 0x00;
pub const FR: u32 = 0x18;
pub const IBRD: u32 = 0x24;
pub const FBRD: u32 = 0x28;
pub const LCR_H: u32 = 0x2C;
pub const CR: u32 = 0x30;
pub const IFLS: u32 = 0x34;
pub const IMSC: u32 = 0x38;
pub const MIS: u32 = 0x40;
pub const ICR: u32 = 0x44;

/// Flag register: transmit FIFO full, receive FIFO empty, busy transmitting.
pub const FR_TXFF: u32 = 1u32 << 5u32;
pub const FR_RXFE: u32 = 1u32 << 4u32;
pub const FR_BUSY: u32 = 1u32 << 3u32;

/// Line control: 8 data bits (WLEN = 0b11) and FIFOs enabled.
pub const LCR_H_8BIT_FIFO: u32 = (0b11u32 << 5u32) | (1u32 << 4u32);
/// Control: UART, transmit and receive enabled.
pub const CR_ENABLE_TX_RX: u32 = 1u32 | (1u32 << 8u32) | (1u32 << 9u32);
/// Receive interrupt at a FIFO fill level of one eighth.
pub const IFLS_RX_ONE_EIGHTH: u32 = 0;
/// Interrupt mask: receive (RXIM) and receive timeout (RTIM).
pub const IMSC_RX_RT: u32 = (1u32 << 4u32) | (1u32 << 6u32);
/// Masked status: receive and receive timeout.
pub const MIS_RX_RT: u32 = (1u32 << 4u32) | (1u32 << 6u32);
/// Interrupt clear: all eleven causes.
pub const ICR_ALL: u32 = 0x7FF;

/// Reference clock of the UART and the baud rate it is programmed for.
pub const UART_CLOCK_HZ: u32 = 48_000_000;
pub const BAUD_RATE: u32 = 921_600;

/// The divisor `clock / (16 * baud)` in 64ths, rounded to nearest:
/// `round(64 * clock / (16 * baud))`.
pub open spec fn divisor_64ths(clock: nat, baud: nat) -> nat
    recommends
        baud > 0,
{
    (8 * clock + baud) / (2 * baud)
}

/// Integer and fractional baud divisors: the integer part goes to IBRD, the rounded
/// fraction times 64 to FBRD.
pub open spec fn baud_divisors_spec(clock: nat, baud: nat) -> (nat, nat) {
    (divisor_64ths(clock, baud) / 64, divisor_64ths(clock, baud) % 64)
}

/// Computes the integer and fractional baud-rate divisors.
pub fn baud_divisors(clock: u32, baud: u32) -> (r: (u32, u32))
    requires
        baud > 0,
    ensures
        r.0 as nat == baud_divisors_spec(clock as nat, baud as nat).0,
        r.1 as nat == baud_divisors_spec(clock as nat, baud as nat).1,
{
    let total: u64 = (8 * (clock as u64) + (baud as u64)) / (2 * (baud as u64));
    assert(total <= 8 * (clock as u64) + (baud as u64)) by (nonlinear_arith)
        requires
            total == (8 * (clock as u64) + (baud as u64)) / (2 * (baud as u64)),
            baud > 0,
    ;
    ((total / 64) as u32, (total % 64) as u32)
}

/// How a read treats an empty receive FIFO.
#[derive(Clone, Copy, Debug, PartialEq, Eq, Structural)]
pub enum BlockingMode {
    Blocking,
    NonBlocking,
}

/// What a reader does after reading the flag register.
#[derive(Clone, Copy, Debug, PartialEq, Eq, Structural)]
pub enum RxPoll {
    /// A character is waiting: read the data register.
    Ready,
    /// Nothing was received: give up (non-blocking reads only).
    NoData,
    /// Nothing was received yet: read the flag register again (blocking reads only).
    Spin,
}

/// The decision of a read, given the flag register's value.
pub open spec fn rx_poll_spec(mode: BlockingMode, fr: u32) -> RxPoll {
    if fr & FR_RXFE == 0 {
        RxPoll::Ready
    } else if mode == BlockingMode::NonBlocking {
        RxPoll::NoData
    } else {
        RxPoll::Spin
    }
}

/// Decides a read: a character is taken only when the receive FIFO is not empty; a
/// non-blocking read on an empty FIFO gives up at once, a blocking one keeps polling.
pub fn rx_poll(mode: BlockingMode, fr: u32) -> (r: RxPoll)
    ensures
        r == rx_poll_spec(mode, fr),
{
    if fr & FR_RXFE == 0 {
        RxPoll::Ready
    } else if mode == BlockingMode::NonBlocking {
        RxPoll::NoData
    } else {
        RxPoll::Spin
    }
}

/// The character a received data word stands for: its low byte, with carriage return
/// read as newline.
pub open spec fn received_char(data: u32) -> char {
    if data as u8 == 13 {
        '\n'
    } else {
        (data as u8) as char
    }
}

/// Accesses that send one character: wait for room in the transmit FIFO, then store it.
pub open spec fn tx_char_ops(c: char) -> Seq<BusOp> {
    seq![BusOp::WaitClear { offset: FR, mask: FR_TXFF }, BusOp::Write { offset: DR, value: c as u32 }]
}

/// Accesses that send a string of characters, in order.
pub open spec fn tx_ops(s: Seq<char>) -> Seq<BusOp>
    decreases s.len(),
{
    if s.len() == 0 {
        Seq::empty()
    } else {
        tx_ops(s.drop_last()) + tx_char_ops(s.last())
    }
}

/// A counter after `k` more events; it stops at the largest value instead of wrapping.
pub open spec fn bumped(n: usize, k: nat) -> usize {
    if n + k <= usize::MAX {
        (n + k) as usize
    } else {
        usize::MAX
    }
}

/// Accesses of initialisation: flush, disable, clear interrupts, program the divisors,
/// then the frame format (whose write latches the divisors), the receive trigger level
/// and mask, and enable.
pub open spec fn init_ops(ibrd: u32, fbrd: u32) -> Seq<BusOp> {
    seq![
        BusOp::WaitClear { offset: FR, mask: FR_BUSY },
        BusOp::Write { offset: CR, value: 0 },
        BusOp::Write { offset: ICR, value: ICR_ALL },
        BusOp::Write { offset: IBRD, value: ibrd },
        BusOp::Write { offset: FBRD, value: fbrd },
        BusOp::Write { offset: LCR_H, value: LCR_H_8BIT_FIFO },
        BusOp::Write { offset: IFLS, value: IFLS_RX_ONE_EIGHTH },
        BusOp::Write { offset: IMSC, value: IMSC_RX_RT },
        BusOp::Write { offset: CR, value: CR_ENABLE_TX_RX },
    ]
}

/// The diagnostic sent when a line overflows the command buffer.
pub open spec fn too_long_msg() -> Seq<char> {
    "Command too long\n"@
}

/// What the driver knows of the UART.
pub struct UartView {
    pub chars_written: usize,
    pub chars_read: usize,
    /// The console line being accumulated.
    pub cmd: Seq<char>,
    /// Accesses not yet handed to the bus.
    pub ops: Seq<BusOp>,
}

/// The UART driver state, owned by whoever holds the UART's lock.
pub struct PL011UartInner {
    chars_written: usize,
    chars_read: usize,
    cmd: CommandBuffer,
    ops: Vec<BusOp>,
}

impl View for PL011UartInner {
    type V = UartView;

    closed spec fn view(&self) -> UartView {
        UartView {
            chars_written: self.chars_written,
            chars_read: self.chars_read,
            cmd: self.cmd@,
            ops: self.ops@,
        }
    }
}

impl PL011UartInner {
    pub closed spec fn wf(&self) -> bool {
        self.cmd.wf()
    }

    pub fn new() -> (r: Self)
        ensures
            r.wf(),
            r@ == (UartView {
                chars_written: 0,
                chars_read: 0,
                cmd: Seq::empty(),
                ops: Seq::empty(),
            }),
    {
        PL011UartInner { chars_written: 0, chars_read: 0, cmd: CommandBuffer::new(), ops: Vec::new() }
    }

    /// Programs 8N1 at `BAUD_RATE` from a `UART_CLOCK_HZ` reference, FIFOs on, receive
    /// interrupts unmasked. Flushes first, so bytes still in flight are not lost.
    pub fn init(&mut self)
        requires
            old(self).wf(),
        ensures
            final(self).wf(),
            final(self)@ == (UartView { ops: old(self)@.ops + init_ops(3, 16), ..old(self)@ }),
    {
        let (ibrd, fbrd) = baud_divisors(UART_CLOCK_HZ, BAUD_RATE);
        assert((8 * 48_000_000nat + 921_600nat) / (2 * 921_600nat) == 208nat) by (nonlinear_arith);
        assert(ibrd == 3 && fbrd == 16);
        self.flush();
        self.ops.push(BusOp::Write { offset: CR, value: 0 });
        self.ops.push(BusOp::Write { offset: ICR, value: ICR_ALL });
        self.ops.push(BusOp::Write { offset: IBRD, value: ibrd });
        self.ops.push(BusOp::Write { offset: FBRD, value: fbrd });
        self.ops.push(BusOp::Write { offset: LCR_H, value: LCR_H_8BIT_FIFO });
        self.ops.push(BusOp::Write { offset: IFLS, value: IFLS_RX_ONE_EIGHTH });
        self.ops.push(BusOp::Write { offset: IMSC, value: IMSC_RX_RT });
        self.ops.push(BusOp::Write { offset: CR, value: CR_ENABLE_TX_RX });
        proof {
            assert(self@.ops =~= old(self)@.ops + init_ops(3, 16));
        }
    }

    /// Sends a character once the transmit FIFO has room.
    pub fn write_char(&mut self, c: char)
        requires
            old(self).wf(),
        ensures
            final(self).wf(),
            final(self)@ == (UartView {
                ops: old(self)@.ops + tx_char_ops(c),
                chars_written: bumped(old(self)@.chars_written, 1),
                ..old(self)@
            }),
    {
        self.ops.push(BusOp::WaitClear { offset: FR, mask: FR_TXFF });
        self.ops.push(BusOp::Write { offset: DR, value: c as u32 });
        self.chars_written = self.chars_written.saturating_add(1);
        proof {
            assert(self@.ops =~= old(self)@.ops + tx_char_ops(c));
        }
    }

    /// Sends characters in order.
    pub fn write_array(&mut self, a: &[char])
        requires
            old(self).wf(),
        ensures
            final(self).wf(),
            final(self)@ == (UartView {
                ops: old(self)@.ops + tx_ops(a@),
                chars_written: bumped(old(self)@.chars_written, a@.len()),
                ..old(self)@
            }),
    {
        let mut i: usize = 0;
        while i < a.len()
            invariant
                i <= a@.len(),
                self.wf(),
                self@ == (UartView {
                    ops: old(self)@.ops + tx_ops(a@.subrange(0, i as int)),
                    chars_written: bumped(old(self)@.chars_written, i as nat),
                    ..old(self)@
                }),
            decreases a@.len() - i,
        {
            self.write_char(a[i]);
            proof {
                let s = a@.subrange(0, i + 1);
                assert(s.drop_last() =~= a@.subrange(0, i as int));
                assert(self@.ops =~= old(self)@.ops + tx_ops(s));
            }
            i = i + 1;
        }
        assert(a@.subrange(0, i as int) =~= a@);
    }

    /// Sends the characters of a string in order.
    pub fn write_str(&mut self, s: &str)
        requires
            old(self).wf(),
        ensures
            final(self).wf(),
            final(self)@ == (UartView {
                ops: old(self)@.ops + tx_ops(s@),
                chars_written: bumped(old(self)@.chars_written, s@.len()),
                ..old(self)@
            }),
    {
        let n = s.unicode_len();
        let mut i: usize = 0;
        while i < n
            invariant
                i <= n == s@.len(),
                self.wf(),
                self@ == (UartView {
                    ops: old(self)@.ops + tx_ops(s@.subrange(0, i as int)),
                    chars_written: bumped(old(self)@.chars_written, i as nat),
                    ..old(self)@
                }),
            decreases n - i,
        {
            self.write_char(s.get_char(i));
            proof {
                let t = s@.subrange(0, i + 1);
                assert(t.drop_last() =~= s@.subrange(0, i as int));
                assert(self@.ops =~= old(self)@.ops + tx_ops(t));
            }
            i = i + 1;
        }
        assert(s@.subrange(0, i as int) =~= s@);
    }

    /// Waits until the last character has left the transmit shift register.
    pub fn flush(&mut self)
        requires
            old(self).wf(),
        ensures
            final(self).wf(),
            final(self)@ == (UartView {
                ops: old(self)@.ops.push(BusOp::WaitClear { offset: FR, mask: FR_BUSY }),
                ..old(self)@
            }),
    {
        self.ops.push(BusOp::WaitClear { offset: FR, mask: FR_BUSY });
    }

    /// Takes a data word read from the data register (after `rx_poll` said `Ready`):
    /// counts it and returns its character, carriage return read as newline.
    pub fn read_char_converting(&mut self, data: u32) -> (r: char)
        requires
            old(self).wf(),
        ensures
            final(self).wf(),
            r == received_char(data),
            final(self)@ == (UartView {
                chars_read: bumped(old(self)@.chars_read, 1),
                ..old(self)@
            }),
    {
        let b: u8 = data as u8;
        let ret: char = if b == 13 {
            '\n'
        } else {
            b as char
        };
        self.chars_read = self.chars_read.saturating_add(1);
        ret
    }

    /// Adds a received character to the console line. On overflow the line is dropped
    /// and the "Command too long" diagnostic is sent.
    pub fn accumulate(&mut self, c: char) -> (r: LineEvent)
        requires
            old(self).wf(),
        ensures
            final(self).wf(),
            final(self)@.chars_read == old(self)@.chars_read,
            c == '\n' ==> final(self)@.cmd == Seq::<char>::empty()
                && final(self)@.ops == old(self)@.ops
                && final(self)@.chars_written == old(self)@.chars_written
                && match r {
                LineEvent::Line(v) => v@ == old(self)@.cmd,
                _ => false,
            },
            c != '\n' && old(self)@.cmd.len() < CMD_BUF_CAPACITY ==> r is Pending
                && final(self)@ == (UartView { cmd: old(self)@.cmd.push(c), ..old(self)@ }),
            c != '\n' && old(self)@.cmd.len() >= CMD_BUF_CAPACITY ==> r is Overflow
                && final(self)@ == (UartView {
                cmd: Seq::empty(),
                ops: old(self)@.ops + tx_ops(too_long_msg()),
                chars_written: bumped(old(self)@.chars_written, too_long_msg().len()),
                ..old(self)@
            }),
    {
        let ev = self.cmd.push(c);
        if let LineEvent::Overflow = ev {
            self.write_str("Command too long\n");
        }
        ev
    }

    pub fn chars_written(&self) -> (r: usize)
        ensures
            r == self@.chars_written,
    {
        self.chars_written
    }

    pub fn chars_read(&self) -> (r: usize)
        ensures
            r == self@.chars_read,
    {
        self.chars_read
    }

    /// Hands out the accesses made so far, in order, and forgets them.
    pub fn take_ops(&mut self) -> (r: Vec<BusOp>)
        requires
            old(self).wf(),
        ensures
            final(self).wf(),
            r@ == old(self)@.ops,
            final(self)@ == (UartView { ops: Seq::empty(), ..old(self)@ }),
    {
        crate::bus::drain(&mut self.ops)
    }
}

/// The PL011 UART. Every operation takes `&mut self`: the exclusive access that the
/// interrupt-masking lock around the device hands out.
pub struct PL011Uart {
    inner: PL011UartInner,
}

impl View for PL011Uart {
    type V = UartView;

    closed spec fn view(&self) -> UartView {
        self.inner@
    }
}

impl PL011Uart {
    pub closed spec fn wf(&self) -> bool {
        self.inner.wf()
    }

    /// Name under which the driver registers.
    pub fn compatible(&self) -> (r: &'static str)
        ensures
            r@ == "BCM PL011 UART"@,
    {
        "BCM PL011 UART"
    }

    pub fn new() -> (r: Self)
        ensures
            r.wf(),
            r@ == (UartView {
                chars_written: 0,
                chars_read: 0,
                cmd: Seq::empty(),
                ops: Seq::empty(),
            }),
    {
        PL011Uart { inner: PL011UartInner::new() }
    }

    /// See `PL011UartInner::init`.
    pub fn init(&mut self)
        requires
            old(self).wf(),
        ensures
            final(self).wf(),
            final(self)@ == (UartView { ops: old(self)@.ops + init_ops(3, 16), ..old(self)@ }),
    {
        self.inner.init()
    }

    pub fn write_char(&mut self, c: char)
        requires
            old(self).wf(),
        ensures
            final(self).wf(),
            final(self)@ == (UartView {
                ops: old(self)@.ops + tx_char_ops(c),
                chars_written: bumped(old(self)@.chars_written, 1),
                ..old(self)@
            }),
    {
        self.inner.write_char(c)
    }

    pub fn write_array(&mut self, a: &[char])
        requires
            old(self).wf(),
        ensures
            final(self).wf(),
            final(self)@ == (UartView {
                ops: old(self)@.ops + tx_ops(a@),
                chars_written: bumped(old(self)@.chars_written, a@.len()),
                ..old(self)@
            }),
    {
        self.inner.write_array(a)
    }

    pub fn write_str(&mut self, s: &str)
        requires
            old(self).wf(),
        ensures
            final(self).wf(),
            final(self)@ == (UartView {
                ops: old(self)@.ops + tx_ops(s@),
                chars_written: bumped(old(self)@.chars_written, s@.len()),
                ..old(self)@
            }),
    {
        self.inner.write_str(s)
    }

    pub fn flush(&mut self)
        requires
            old(self).wf(),
        ensures
            final(self).wf(),
            final(self)@ == (UartView {
                ops: old(self)@.ops.push(BusOp::WaitClear { offset: FR, mask: FR_BUSY }),
                ..old(self)@
            }),
    {
        self.inner.flush()
    }

    /// See `PL011UartInner::read_char_converting`.
    pub fn read_char_converting(&mut self, data: u32) -> (r: char)
        requires
            old(self).wf(),
        ensures
            final(self).wf(),
            r == received_char(data),
            final(self)@ == (UartView {
                chars_read: bumped(old(self)@.chars_read, 1),
                ..old(self)@
            }),
    {
        self.inner.read_char_converting(data)
    }

    /// Entry of the interrupt handler, given the masked interrupt status it latched:
    /// acknowledges every cause (after the latch, so none is cleared unseen) and says
    /// whether a receive or receive-timeout cause asks for the FIFO to be drained.
    pub fn handle(&mut self, mis: u32) -> (r: bool)
        requires
            old(self).wf(),
        ensures
            final(self).wf(),
            r == (mis & MIS_RX_RT != 0),
            final(self)@ == (UartView {
                ops: old(self)@.ops.push(BusOp::Write { offset: ICR, value: ICR_ALL }),
                ..old(self)@
            }),
    {
        self.inner.ops.push(BusOp::Write { offset: ICR, value: ICR_ALL });
        mis & MIS_RX_RT != 0
    }

    /// Takes one data word drained from the receive FIFO: converts it, echoes the
    /// character and adds it to the console line.
    pub fn receive(&mut self, data: u32) -> (r: LineEvent)
        requires
            old(self).wf(),
        ensures
            final(self).wf(),
            ({
                let c = received_char(data);
                let echoed = old(self)@.ops + tx_char_ops(c);
                let w = bumped(old(self)@.chars_written, 1);
                &&& final(self)@.chars_read == bumped(old(self)@.chars_read, 1)
                &&& c == '\n' ==> final(self)@.cmd == Seq::<char>::empty()
                    && final(self)@.ops == echoed && final(self)@.chars_written == w
                    && match r {
                    LineEvent::Line(v) => v@ == old(self)@.cmd,
                    _ => false,
                }
                &&& c != '\n' && old(self)@.cmd.len() < CMD_BUF_CAPACITY ==> r is Pending
                    && final(self)@.cmd == old(self)@.cmd.push(c) && final(self)@.ops == echoed
                    && final(self)@.chars_written == w
                &&& c != '\n' && old(self)@.cmd.len() >= CMD_BUF_CAPACITY ==> r is Overflow
                    && final(self)@.cmd == Seq::<char>::empty()
                    && final(self)@.ops == echoed + tx_ops(too_long_msg())
                    && final(self)@.chars_written == bumped(w, too_long_msg().len())
            }),
    {
        let c = self.inner.read_char_converting(data);
        self.inner.write_char(c);
        self.inner.accumulate(c)
    }

    pub fn chars_written(&self) -> (r: usize)
        ensures
            r == self@.chars_written,
    {
        self.inner.chars_written()
    }

    pub fn chars_read(&self) -> (r: usize)
        ensures
            r == self@.chars_read,
    {
        self.inner.chars_read()
    }

    pub fn take_ops(&mut self) -> (r: Vec<BusOp>)
        requires
            old(self).wf(),
        ensures
            final(self).wf(),
            r@ == old(self)@.ops,
            final(self)@ == (UartView { ops: Seq::empty(), ..old(self)@ }),
    {
        self.inner.take_ops()
    }
}

} // verus!
