//! Pin animations driven by one-shot timer callbacks.
//!
//! One slot holds the running animation and its progress, with a generation number
//! that every start advances. A step is handed to the timer service together with the
//! generation it was issued under; when it fires it acts only if it still describes the
//! running animation, so a step left over from a superseded animation is a no-op.
use vstd::prelude::*;
use crate::gpio::{GPIO, GpioError, GpioView, PinMode, GPIO_PIN_COUNT};

verus! {

/// Interval between two steps of an animation, in seconds.
pub const TICK_SECONDS: u64 = 1;

/// Number of pins of the ring animations.
pub const RING_LEN: u8 = 5;

/// Pins of the hex counter, least significant bit first.
pub open spec fn hex_pins() -> Seq<u8> {
    seq![1u8, 2u8, 3u8, 4u8]
}

/// Pins of the ring animations, index 0 first. They include the hex counter's pins.
pub open spec fn ring_pins() -> Seq<u8> {
    seq![1u8, 2u8, 3u8, 4u8, 5u8]
}

fn hex_pin_list() -> (r: Vec<u8>)
    ensures
        r@ == hex_pins(),
{
    let r = vec![1u8, 2u8, 3u8, 4u8];
    assert(r@ =~= hex_pins());
    r
}

fn ring_pin_list() -> (r: Vec<u8>)
    ensures
        r@ == ring_pins(),
{
    let r = vec![1u8, 2u8, 3u8, 4u8, 5u8];
    assert(r@ =~= ring_pins());
    r
}

/// The animation in the slot, with the index of the step it is to show next.
#[derive(Clone, Copy, Debug, PartialEq, Eq, Structural)]
pub enum Pattern {
    Idle,
    /// 4-bit binary counter on the hex pins, `step` from 0 to 15.
    Hex { step: u8 },
    /// One lit ring pin, `index` from 0 up to `RING_LEN - 1`.
    LeftRing { index: u8 },
    /// One lit ring pin, `index` from `RING_LEN - 1` down to 0.
    RightRing { index: u8 },
}

#[derive(Clone, Copy, Debug, PartialEq, Eq, Structural)]
pub enum PatternKind {
    Hex,
    LeftRing,
    RightRing,
}

/// A step waiting in the timer service: the animation state it is to show and the
/// generation it was issued under.
#[derive(Clone, Copy, Debug, PartialEq, Eq, Structural)]
pub struct PatternStep {
    pub pattern: Pattern,
    pub generation: u64,
}

pub open spec fn first(kind: PatternKind) -> Pattern {
    match kind {
        PatternKind::Hex => Pattern::Hex { step: 0 },
        PatternKind::LeftRing => Pattern::LeftRing { index: 0 },
        PatternKind::RightRing => Pattern::RightRing { index: (RING_LEN - 1) as u8 },
    }
}

pub open spec fn valid(p: Pattern) -> bool {
    match p {
        Pattern::Idle => true,
        Pattern::Hex { step } => step < 16,
        Pattern::LeftRing { index } => index < RING_LEN,
        Pattern::RightRing { index } => index < RING_LEN,
    }
}

/// Whether `p` is the last step of its animation.
pub open spec fn is_last(p: Pattern) -> bool {
    match p {
        Pattern::Idle => true,
        Pattern::Hex { step } => step == 15,
        Pattern::LeftRing { index } => index == RING_LEN - 1,
        Pattern::RightRing { index } => index == 0,
    }
}

/// The step that follows `p`, which is not the last.
pub open spec fn next(p: Pattern) -> Pattern {
    match p {
        Pattern::Idle => Pattern::Idle,
        Pattern::Hex { step } => Pattern::Hex { step: (step + 1) as u8 },
        Pattern::LeftRing { index } => Pattern::LeftRing { index: (index + 1) as u8 },
        Pattern::RightRing { index } => Pattern::RightRing { index: (index - 1) as u8 },
    }
}

/// The step reached from the first one of `kind` after `k` more steps.
pub open spec fn nth(kind: PatternKind, k: nat) -> Pattern
    decreases k,
{
    if k == 0 {
        first(kind)
    } else {
        next(nth(kind, (k - 1) as nat))
    }
}

/// Pins an animation step drives.
pub open spec fn pins_of(p: Pattern) -> Seq<u8> {
    match p {
        Pattern::Hex { .. } => hex_pins(),
        Pattern::Idle => Seq::empty(),
        _ => ring_pins(),
    }
}

/// Which of `pins_of(p)` are lit in step `p`: bit `i` of the counter for the hex
/// animation, only the pin at the index for the rings.
pub open spec fn frame(p: Pattern) -> Seq<bool> {
    match p {
        Pattern::Hex { step } => Seq::new(4, |i: int| (step >> (i as u8)) & 1u8 == 1u8),
        Pattern::LeftRing { index } => Seq::new(RING_LEN as nat, |i: int| i == index),
        Pattern::RightRing { index } => Seq::new(RING_LEN as nat, |i: int| i == index),
        Pattern::Idle => Seq::empty(),
    }
}

/// A pin made an output and driven to `on`.
pub open spec fn set_pin(g: GpioView, pin: u8, on: bool) -> GpioView {
    let c = g.configure(pin, PinMode::Output);
    if on {
        c.drive_high(pin)
    } else {
        c.drive_low(pin)
    }
}

/// The first `n` pins whose `lit` entry equals `on`, in order, made outputs and driven
/// to `on`.
pub open spec fn drive_where(g: GpioView, pins: Seq<u8>, lit: Seq<bool>, on: bool, n: nat) -> GpioView
    decreases n,
{
    if n == 0 {
        g
    } else {
        let h = drive_where(g, pins, lit, on, (n - 1) as nat);
        if lit[n - 1] == on {
            set_pin(h, pins[n - 1], on)
        } else {
            h
        }
    }
}

/// A frame shown: the unlit pins driven low first, then the lit ones high, so that no
/// pin is lit before the pins of the previous frame are dark.
pub open spec fn show(g: GpioView, pins: Seq<u8>, lit: Seq<bool>) -> GpioView {
    drive_where(drive_where(g, pins, lit, false, pins.len()), pins, lit, true, pins.len())
}

/// Every ring pin made an output and driven low.
pub open spec fn all_off(g: GpioView) -> GpioView {
    drive_where(g, ring_pins(), Seq::new(RING_LEN as nat, |i: int| false), false, RING_LEN as nat)
}

/// The generation after `g`; it wraps around after `u64::MAX` starts.
pub open spec fn next_generation(g: u64) -> u64 {
    if g == u64::MAX {
        0
    } else {
        (g + 1) as u64
    }
}

/// The scheduler's slot.
pub struct SchedView {
    pub current: Pattern,
    pub generation: u64,
}

impl SchedView {
    /// Whether a firing step still belongs to the running animation.
    pub open spec fn accepts(self, s: PatternStep) -> bool {
        self.current != Pattern::Idle && s.pattern == self.current && s.generation
            == self.generation
    }

    /// The slot once an animation of `kind` has started.
    pub open spec fn start(self, kind: PatternKind) -> SchedView {
        SchedView { current: first(kind), generation: next_generation(self.generation) }
    }
}

/// Facts about `drive_where`: a pin it handles ends at `on`, any other pin keeps its
/// level, and the select registers stay three.
pub proof fn lemma_drive_where(g: GpioView, pins: Seq<u8>, lit: Seq<bool>, on: bool, n: nat)
    requires
        g.fsel.len() == 3,
        n <= pins.len() == lit.len(),
        forall|j: int| 0 <= j < pins.len() ==> #[trigger] pins[j] < GPIO_PIN_COUNT,
    ensures
        drive_where(g, pins, lit, on, n).fsel.len() == 3,
        forall|q: u8|
            q < 32 ==> (#[trigger] drive_where(g, pins, lit, on, n).is_high(q)) == if exists|j: int|
                0 <= j < n && pins[j] == q && lit[j] == on {
                on
            } else {
                g.is_high(q)
            },
    decreases n,
{
    if n > 0 {
        let m = (n - 1) as nat;
        lemma_drive_where(g, pins, lit, on, m);
        let h = drive_where(g, pins, lit, on, m);
        if lit[m as int] == on {
            let p = pins[m as int];
            let c = h.configure(p, PinMode::Output);
            assert forall|q: u8| q < 32 implies (#[trigger] drive_where(g, pins, lit, on, n).is_high(q))
                == if exists|j: int| 0 <= j < n && pins[j] == q && lit[j] == on {
                on
            } else {
                g.is_high(q)
            } by {
                crate::gpio::lemma_or_bit(c.level, p as u32, q as u32);
                crate::gpio::lemma_clear_bit(c.level, p as u32, q as u32);
                assert(c.level == h.level);
                assert(h.is_high(q) == h.is_high(q));
                assert(drive_where(g, pins, lit, on, n) == set_pin(h, p, on));
                if on {
                    assert(drive_where(g, pins, lit, on, n).level == c.level | (1u32 << (p as u32)));
                } else {
                    assert(drive_where(g, pins, lit, on, n).level == c.level & !(1u32 << (p as u32)));
                }
                assert(drive_where(g, pins, lit, on, n).is_high(q) == (if q == p { on } else { h.is_high(q) }));
                if q == p {
                    assert(0 <= m < n && pins[m as int] == q && lit[m as int] == on);
                } else {
                    if exists|j: int| 0 <= j < n && pins[j] == q && lit[j] == on {
                        let j = choose|j: int| 0 <= j < n && pins[j] == q && lit[j] == on;
                        assert(j < m);
                    }
                }
            }
        } else {
            assert forall|q: u8| q < 32 implies (#[trigger] drive_where(g, pins, lit, on, n).is_high(q))
                == if exists|j: int| 0 <= j < n && pins[j] == q && lit[j] == on {
                on
            } else {
                g.is_high(q)
            } by {
                assert(h.is_high(q) == h.is_high(q));
                if exists|j: int| 0 <= j < n && pins[j] == q && lit[j] == on {
                    let j = choose|j: int| 0 <= j < n && pins[j] == q && lit[j] == on;
                    assert(j < m);
                }
            }
        }
    }
}

/// After a frame is shown, each of its pins (distinct) is lit exactly as the frame says,
/// and every other pin keeps its level.
pub proof fn lemma_show(g: GpioView, pins: Seq<u8>, lit: Seq<bool>)
    requires
        g.fsel.len() == 3,
        pins.len() == lit.len(),
        forall|j: int| 0 <= j < pins.len() ==> #[trigger] pins[j] < GPIO_PIN_COUNT,
        forall|j: int, k: int| 0 <= j < k < pins.len() ==> pins[j] != pins[k],
    ensures
        show(g, pins, lit).fsel.len() == 3,
        forall|j: int| 0 <= j < pins.len() ==> show(g, pins, lit).is_high(#[trigger] pins[j]) == lit[j],
        forall|q: u8|
            q < 32 && (forall|j: int| 0 <= j < pins.len() ==> pins[j] != q) ==> show(g, pins, lit).is_high(q)
                == g.is_high(q),
{
    let n = pins.len();
    lemma_drive_where(g, pins, lit, false, n);
    let h = drive_where(g, pins, lit, false, n);
    lemma_drive_where(h, pins, lit, true, n);
    assert forall|j: int| 0 <= j < pins.len() implies show(g, pins, lit).is_high(#[trigger] pins[j]) == lit[j] by {
        assert(pins[j] < 32);
        if lit[j] {
            assert(0 <= j < n && pins[j] == pins[j] && lit[j] == true);
        } else {
            assert(0 <= j < n && pins[j] == pins[j] && lit[j] == false);
            if exists|k: int| 0 <= k < n && pins[k] == pins[j] && lit[k] == true {
                let k = choose|k: int| 0 <= k < n && pins[k] == pins[j] && lit[k] == true;
                assert(k != j);
                if k < j {
                    assert(pins[k] != pins[j]);
                } else {
                    assert(pins[j] != pins[k]);
                }
            }
        }
    }
}

proof fn lemma_pin_lists()
    ensures
        forall|j: int| 0 <= j < hex_pins().len() ==> #[trigger] hex_pins()[j] < GPIO_PIN_COUNT,
        forall|j: int, k: int| 0 <= j < k < hex_pins().len() ==> hex_pins()[j] != hex_pins()[k],
        forall|j: int| 0 <= j < ring_pins().len() ==> #[trigger] ring_pins()[j] < GPIO_PIN_COUNT,
        forall|j: int, k: int| 0 <= j < k < ring_pins().len() ==> ring_pins()[j] != ring_pins()[k],
        forall|j: int| 0 <= j < ring_pins().len() ==> #[trigger] ring_pins()[j] == j + 1,
        forall|j: int| 0 <= j < hex_pins().len() ==> #[trigger] hex_pins()[j] == j + 1,
{
}

/// Step `s` of the hex counter lights hex pin `i` (i from 0 to 3) exactly when bit `i`
/// of `s` is set.
pub proof fn law_hex_frame(g: GpioView, s: u8, i: int)
    requires
        g.fsel.len() == 3,
        s < 16,
        0 <= i < 4,
    ensures
        show(g, hex_pins(), frame(Pattern::Hex { step: s })).is_high(hex_pins()[i]) == ((s >> (
        i as u8)) & 1u8 == 1u8),
{
    lemma_pin_lists();
    lemma_show(g, hex_pins(), frame(Pattern::Hex { step: s }));
}

/// The hex counter runs through steps 0 to 15 in order, and step 15 is its last.
pub proof fn law_hex_order(k: nat)
    requires
        k < 16,
    ensures
        nth(PatternKind::Hex, k) == (Pattern::Hex { step: k as u8 }),
        is_last(nth(PatternKind::Hex, k)) <==> k == 15,
    decreases k,
{
    if k > 0 {
        law_hex_order((k - 1) as nat);
    }
}

/// A ring frame lights exactly one ring pin, the one at its index, and leaves every
/// other ring pin dark.
pub proof fn law_ring_frame(g: GpioView, p: Pattern, j: int)
    requires
        g.fsel.len() == 3,
        p is LeftRing || p is RightRing,
        valid(p),
        0 <= j < RING_LEN,
    ensures
        show(g, ring_pins(), frame(p)).is_high(ring_pins()[j]) == (j == match p {
            Pattern::LeftRing { index } => index,
            Pattern::RightRing { index } => index,
            _ => 0,
        }),
{
    lemma_pin_lists();
    lemma_show(g, ring_pins(), frame(p));
}

/// Index of the lit pin of a ring step.
pub open spec fn ring_index(p: Pattern) -> int {
    match p {
        Pattern::LeftRing { index } => index as int,
        Pattern::RightRing { index } => index as int,
        _ => 0,
    }
}

/// Showing a ring frame never lights two ring pins at once: the first pass only turns
/// pins off, so any pin lit during it was lit before, and once it is over only the
/// frame's own pin is lit at any point of the second pass. With at most one ring pin
/// lit before a step, at most one is lit at every instant of it.
pub proof fn law_ring_one_lit_throughout(g: GpioView, p: Pattern, n: nat, q: u8)
    requires
        g.fsel.len() == 3,
        p is LeftRing || p is RightRing,
        valid(p),
        n <= RING_LEN,
        q < 32,
    ensures
        drive_where(g, ring_pins(), frame(p), false, n).is_high(q) ==> g.is_high(q),
        ring_pins().contains(q) && drive_where(
            drive_where(g, ring_pins(), frame(p), false, RING_LEN as nat),
            ring_pins(),
            frame(p),
            true,
            n,
        ).is_high(q) ==> q == ring_pins()[ring_index(p)],
{
    lemma_pin_lists();
    let lit = frame(p);
    lemma_drive_where(g, ring_pins(), lit, false, n);
    lemma_drive_where(g, ring_pins(), lit, false, RING_LEN as nat);
    let h = drive_where(g, ring_pins(), lit, false, RING_LEN as nat);
    lemma_drive_where(h, ring_pins(), lit, true, n);
    if ring_pins().contains(q) && q != ring_pins()[ring_index(p)] {
        let j = choose|j: int| 0 <= j < ring_pins().len() && ring_pins()[j] == q;
        assert(j != ring_index(p));
        assert(!lit[j]);
        assert(0 <= j < RING_LEN && ring_pins()[j] == q && lit[j] == false);
        assert(!h.is_high(q));
        if exists|k: int| 0 <= k < n && ring_pins()[k] == q && lit[k] == true {
            let k = choose|k: int| 0 <= k < n && ring_pins()[k] == q && lit[k] == true;
            assert(k == j);
        }
    }
}

/// The left ring visits indices 0, 1, ..., `RING_LEN - 1` and the right ring the same
/// indices downwards: each index once, the last one ending the animation.
pub proof fn law_ring_order(k: nat)
    requires
        k < RING_LEN,
    ensures
        nth(PatternKind::LeftRing, k) == (Pattern::LeftRing { index: k as u8 }),
        nth(PatternKind::RightRing, k) == (Pattern::RightRing { index: (RING_LEN - 1 - k) as u8 }),
        is_last(nth(PatternKind::LeftRing, k)) <==> k == RING_LEN - 1,
        is_last(nth(PatternKind::RightRing, k)) <==> k == RING_LEN - 1,
    decreases k,
{
    if k > 0 {
        law_ring_order((k - 1) as nat);
    }
}

/// When an animation ends, every ring pin, and so every hex pin, is dark.
pub proof fn law_all_off(g: GpioView, q: u8)
    requires
        g.fsel.len() == 3,
        ring_pins().contains(q) || hex_pins().contains(q),
    ensures
        !all_off(g).is_high(q),
{
    lemma_pin_lists();
    let lit = Seq::new(RING_LEN as nat, |i: int| false);
    lemma_drive_where(g, ring_pins(), lit, false, RING_LEN as nat);
    let j = if ring_pins().contains(q) {
        choose|j: int| 0 <= j < ring_pins().len() && ring_pins()[j] == q
    } else {
        choose|j: int| 0 <= j < hex_pins().len() && hex_pins()[j] == q
    };
    assert(0 <= j < RING_LEN && ring_pins()[j] == q && lit[j] == false);
}

/// Starting an animation cancels the one running: a step it had pending is no longer
/// accepted, even by a new animation of the same kind, so that step changes no pin.
pub proof fn law_start_cancels(s: SchedView, pending: PatternStep, kind: PatternKind)
    requires
        pending.generation == s.generation,
    ensures
        !s.start(kind).accepts(pending),
{
}

/// The animation slot. `&mut self` is the exclusive access the lock around it hands out.
pub struct PatternScheduler {
    current: Pattern,
    generation: u64,
}

impl View for PatternScheduler {
    type V = SchedView;

    closed spec fn view(&self) -> SchedView {
        SchedView { current: self.current, generation: self.generation }
    }
}

impl PatternScheduler {
    pub open spec fn wf(&self) -> bool {
        valid(self@.current)
    }

    pub fn new() -> (r: Self)
        ensures
            r.wf(),
            r@ == (SchedView { current: Pattern::Idle, generation: 0 }),
    {
        PatternScheduler { current: Pattern::Idle, generation: 0 }
    }

    /// Stops whatever animation runs: its pending step will find the slot empty.
    pub fn stop_all_patterns(&mut self)
        ensures
            final(self).wf(),
            final(self)@ == (SchedView { current: Pattern::Idle, ..old(self)@ }),
    {
        self.current = Pattern::Idle;
    }

    /// Supersedes the running animation with a new one of `kind` and returns its first
    /// step, to be scheduled `TICK_SECONDS` from now.
    pub fn start(&mut self, kind: PatternKind) -> (r: PatternStep)
        ensures
            final(self).wf(),
            final(self)@ == old(self)@.start(kind),
            r == (PatternStep { pattern: first(kind), generation: final(self)@.generation }),
    {
        self.generation = if self.generation == u64::MAX {
            0
        } else {
            self.generation + 1
        };
        self.current = match kind {
            PatternKind::Hex => Pattern::Hex { step: 0 },
            PatternKind::LeftRing => Pattern::LeftRing { index: 0 },
            PatternKind::RightRing => Pattern::RightRing { index: RING_LEN - 1 },
        };
        PatternStep { pattern: self.current, generation: self.generation }
    }

    pub fn start_hex_counter(&mut self) -> (r: PatternStep)
        ensures
            final(self).wf(),
            final(self)@ == old(self)@.start(PatternKind::Hex),
            r == (PatternStep { pattern: first(PatternKind::Hex), generation: final(self)@.generation }),
    {
        self.start(PatternKind::Hex)
    }

    pub fn start_left_ring_counter(&mut self) -> (r: PatternStep)
        ensures
            final(self).wf(),
            final(self)@ == old(self)@.start(PatternKind::LeftRing),
            r == (PatternStep { pattern: first(PatternKind::LeftRing), generation: final(self)@.generation }),
    {
        self.start(PatternKind::LeftRing)
    }

    pub fn start_right_ring_counter(&mut self) -> (r: PatternStep)
        ensures
            final(self).wf(),
            final(self)@ == old(self)@.start(PatternKind::RightRing),
            r == (PatternStep { pattern: first(PatternKind::RightRing), generation: final(self)@.generation }),
    {
        self.start(PatternKind::RightRing)
    }

    /// Runs a step that the timer service fired. A step that no longer describes the
    /// running animation does nothing. Otherwise the step's frame is shown; the last
    /// step then empties the slot and turns every ring pin off, any other returns its
    /// successor, to be scheduled `TICK_SECONDS` from now.
    pub fn run_step(&mut self, gpio: &mut GPIO, step: PatternStep) -> (r: Option<PatternStep>)
        requires
            old(self).wf(),
        ensures
            final(self).wf(),
            !old(self)@.accepts(step) ==> r is None && final(self)@ == old(self)@ && final(gpio)@
                == old(gpio)@,
            old(self)@.accepts(step) && is_last(step.pattern) ==> r is None && final(self)@ == (
            SchedView { current: Pattern::Idle, ..old(self)@ }) && final(gpio)@ == all_off(
                show(old(gpio)@, pins_of(step.pattern), frame(step.pattern)),
            ),
            old(self)@.accepts(step) && !is_last(step.pattern) ==> r == Some(
                PatternStep { pattern: next(step.pattern), generation: old(self)@.generation },
            ) && final(self)@ == (SchedView { current: next(step.pattern), ..old(self)@ })
                && final(gpio)@ == show(old(gpio)@, pins_of(step.pattern), frame(step.pattern)),
    {
        if self.current == Pattern::Idle || step.pattern != self.current || step.generation
            != self.generation {
            return None;
        }
        let p = step.pattern;
        let (pins, lit, last, succ) = match p {
            Pattern::Hex { step: s } => {
                let mut lit: Vec<bool> = Vec::new();
                let mut i: u8 = 0;
                while i < 4
                    invariant
                        i <= 4,
                        lit@ == Seq::new(i as nat, |j: int| (s >> (j as u8)) & 1u8 == 1u8),
                    decreases 4 - i,
                {
                    lit.push((s >> i) & 1u8 == 1u8);
                    i = i + 1;
                    proof {
                        assert(lit@ =~= Seq::new(i as nat, |j: int| (s >> (j as u8)) & 1u8 == 1u8));
                    }
                }
                let succ = if s < 15 { s + 1 } else { s };
                (hex_pin_list(), lit, s == 15, Pattern::Hex { step: succ })
            },
            Pattern::LeftRing { index } => {
                let succ = if index < RING_LEN - 1 { index + 1 } else { index };
                (ring_pin_list(), ring_frame(index), index == RING_LEN - 1, Pattern::LeftRing { index: succ })
            },
            Pattern::RightRing { index } => {
                let succ = if index > 0 { index - 1 } else { index };
                (ring_pin_list(), ring_frame(index), index == 0, Pattern::RightRing { index: succ })
            },
            Pattern::Idle => {
                return None;
            },
        };
        proof {
            assert(lit@ =~= frame(p));
        }
        show_frame(gpio, &pins, &lit);
        if last {
            self.current = Pattern::Idle;
            reset_gpio(gpio);
            None
        } else {
            self.current = succ;
            Some(PatternStep { pattern: succ, generation: self.generation })
        }
    }

    /// The animation in the slot.
    pub fn current(&self) -> (r: Pattern)
        ensures
            r == self@.current,
    {
        self.current
    }
}

/// Lit flags of a ring frame: only `index`.
fn ring_frame(index: u8) -> (r: Vec<bool>)
    ensures
        r@ == Seq::new(RING_LEN as nat, |i: int| i == index),
{
    let mut lit: Vec<bool> = Vec::new();
    let mut i: u8 = 0;
    while i < RING_LEN
        invariant
            i <= RING_LEN,
            lit@ == Seq::new(i as nat, |j: int| j == index),
        decreases RING_LEN - i,
    {
        lit.push(i == index);
        i = i + 1;
        proof {
            assert(lit@ =~= Seq::new(i as nat, |j: int| j == index));
        }
    }
    lit
}

/// Makes the pins whose `lit` entry equals `on` outputs and drives them to `on`, in order.
fn drive_pins(gpio: &mut GPIO, pins: &Vec<u8>, lit: &Vec<bool>, on: bool)
    requires
        pins@.len() == lit@.len(),
        forall|j: int| 0 <= j < pins@.len() ==> #[trigger] pins@[j] < GPIO_PIN_COUNT,
    ensures
        final(gpio)@ == drive_where(old(gpio)@, pins@, lit@, on, pins@.len()),
{
    let mut i: usize = 0;
    while i < pins.len()
        invariant
            i <= pins@.len() == lit@.len(),
            forall|j: int| 0 <= j < pins@.len() ==> #[trigger] pins@[j] < GPIO_PIN_COUNT,
            gpio@ == drive_where(old(gpio)@, pins@, lit@, on, i as nat),
        decreases pins@.len() - i,
    {
        if lit[i] == on {
            let pin = pins[i];
            let _ = gpio.set_pin_as_output(pin);
            if on {
                let _ = gpio.set_gpio_high(pin);
            } else {
                let _ = gpio.set_gpio_low(pin);
            }
        }
        i = i + 1;
    }
}

/// Shows a frame: the unlit pins go low first, then the lit ones high.
fn show_frame(gpio: &mut GPIO, pins: &Vec<u8>, lit: &Vec<bool>)
    requires
        pins@.len() == lit@.len(),
        forall|j: int| 0 <= j < pins@.len() ==> #[trigger] pins@[j] < GPIO_PIN_COUNT,
    ensures
        final(gpio)@ == show(old(gpio)@, pins@, lit@),
{
    drive_pins(gpio, pins, lit, false);
    drive_pins(gpio, pins, lit, true);
}

/// Makes every ring pin an output and drives it low.
pub fn reset_gpio(gpio: &mut GPIO)
    ensures
        final(gpio)@ == all_off(old(gpio)@),
{
    let pins = ring_pin_list();
    let mut lit: Vec<bool> = Vec::new();
    let mut i: u8 = 0;
    while i < RING_LEN
        invariant
            i <= RING_LEN,
            lit@ == Seq::new(i as nat, |j: int| false),
        decreases RING_LEN - i,
    {
        lit.push(false);
        i = i + 1;
        proof {
            assert(lit@ =~= Seq::new(i as nat, |j: int| false));
        }
    }
    drive_pins(gpio, &pins, &lit, false);
}

/// Makes a pin an output.
pub fn setup_output(gpio: &mut GPIO, pin: u8) -> (r: Result<(), GpioError>)
    ensures
        pin < GPIO_PIN_COUNT <==> r is Ok,
        r is Ok ==> final(gpio)@ == old(gpio)@.configure(pin, PinMode::Output),
        r is Err ==> final(gpio)@ == old(gpio)@,
{
    gpio.set_pin_as_output(pin)
}

/// Makes a pin an output and drives it high.
pub fn gpio_on(gpio: &mut GPIO, pin: u8) -> (r: Result<(), GpioError>)
    ensures
        pin < GPIO_PIN_COUNT <==> r is Ok,
        r is Ok ==> final(gpio)@ == set_pin(old(gpio)@, pin, true),
        r is Err ==> r == Err::<(), GpioError>(GpioError::UnsupportedPin { pin })
            && final(gpio)@ == old(gpio)@,
{
    gpio.set_pin_as_output(pin)?;
    gpio.set_gpio_high(pin)
}

/// Makes a pin an output and drives it low.
pub fn gpio_off(gpio: &mut GPIO, pin: u8) -> (r: Result<(), GpioError>)
    ensures
        pin < GPIO_PIN_COUNT <==> r is Ok,
        r is Ok ==> final(gpio)@ == set_pin(old(gpio)@, pin, false),
        r is Err ==> r == Err::<(), GpioError>(GpioError::UnsupportedPin { pin })
            && final(gpio)@ == old(gpio)@,
{
    gpio.set_pin_as_output(pin)?;
    gpio.set_gpio_low(pin)
}

/// A pin change to be carried out after a delay.
#[derive(Clone, Copy, Debug, PartialEq, Eq, Structural)]
pub struct DeferredPin {
    pub delay_secs: u64,
    pub pin: u8,
    pub on: bool,
}

/// The action that turns `pin` on `seconds` from now, to hand to the timer service.
pub fn gpio_on_after(pin: u8, seconds: u64) -> (r: DeferredPin)
    ensures
        r == (DeferredPin { delay_secs: seconds, pin, on: true }),
{
    DeferredPin { delay_secs: seconds, pin, on: true }
}

/// The action that turns `pin` off `seconds` from now, to hand to the timer service.
pub fn gpio_off_after(pin: u8, seconds: u64) -> (r: DeferredPin)
    ensures
        r == (DeferredPin { delay_secs: seconds, pin, on: false }),
{
    DeferredPin { delay_secs: seconds, pin, on: false }
}

/// Carries out a deferred pin change when its timer fires.
pub fn run_deferred(gpio: &mut GPIO, d: DeferredPin) -> (r: Result<(), GpioError>)
    ensures
        d.pin < GPIO_PIN_COUNT <==> r is Ok,
        r is Ok ==> final(gpio)@ == set_pin(old(gpio)@, d.pin, d.on),
        r is Err ==> final(gpio)@ == old(gpio)@,
{
    if d.on {
        gpio_on(gpio, d.pin)
    } else {
        gpio_off(gpio, d.pin)
    }
}

} // verus!
