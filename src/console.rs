//! Command console: a fixed-capacity line accumulator and the command table.
//!
//! A line is dispatched by prefix after trimming surrounding whitespace; the first
//! entry of the table whose name starts the line wins.
use vstd::prelude::*;

verus! {

/// Capacity of the command buffer, in characters (each received as one byte).
pub const CMD_BUF_CAPACITY: usize = 64;

/// Whitespace as `str::trim` and `split_whitespace` see it, for characters of one byte.
pub open spec fn is_space(c: char) -> bool {
    c == ' ' || c == '\t' || c == '\n' || c == '\x0B' || c == '\x0C' || c == '\r'
}

/// First index at or after `i` that holds no whitespace (or the length).
pub open spec fn space_end(s: Seq<char>, i: int) -> int
    decreases s.len() - i,
{
    if 0 <= i < s.len() && is_space(s[i]) {
        space_end(s, i + 1)
    } else {
        i
    }
}

/// First index at or after `i` that holds whitespace (or the length).
pub open spec fn token_end(s: Seq<char>, i: int) -> int
    decreases s.len() - i,
{
    if 0 <= i < s.len() && !is_space(s[i]) {
        token_end(s, i + 1)
    } else {
        i
    }
}

/// Index just past the last non-whitespace character of `s[lo..hi]` (or `lo`).
pub open spec fn trim_back(s: Seq<char>, lo: int, hi: int) -> int
    decreases hi - lo,
{
    if lo < hi && is_space(s[hi - 1]) {
        trim_back(s, lo, hi - 1)
    } else {
        hi
    }
}

/// `s` without leading and trailing whitespace.
pub open spec fn trim(s: Seq<char>) -> Seq<char> {
    let a = space_end(s, 0);
    s.subrange(a, trim_back(s, a, s.len() as int))
}

pub open spec fn starts_with(s: Seq<char>, p: Seq<char>) -> bool {
    p.len() <= s.len() && s.subrange(0, p.len() as int) == p
}

/// The second whitespace-separated word of a line that starts with a word.
pub open spec fn second_word(t: Seq<char>) -> Seq<char> {
    let j = space_end(t, token_end(t, 0));
    t.subrange(j, token_end(t, j))
}

pub open spec fn is_digit(c: char) -> bool {
    '0' <= c <= '9'
}

/// Decimal value of a string of digits.
pub open spec fn decimal(s: Seq<char>) -> nat
    decreases s.len(),
{
    if s.len() == 0 {
        0
    } else {
        decimal(s.drop_last()) * 10 + (s.last() as nat - '0' as nat) as nat
    }
}

/// The pin number a word denotes: a non-empty run of decimal digits worth at most 255.
pub open spec fn pin_arg(w: Seq<char>) -> Option<u8> {
    if w.len() > 0 && (forall|i: int| 0 <= i < w.len() ==> is_digit(#[trigger] w[i]))
        && decimal(w) <= 255 {
        Some(decimal(w) as u8)
    } else {
        None
    }
}

/// A console command.
#[derive(Clone, Copy, Debug, PartialEq, Eq)]
pub enum Command {
    Level,
    ResetGpio,
    /// `gpio_on <pin>`; `None` where the argument is missing or not a number up to 255.
    GpioOn(Option<u8>),
    GpioOff(Option<u8>),
    BoardName,
    TimerResolution,
    Mmu,
    Driver,
    IrqHandler,
    KernelHeap,
    HexCounter,
    LeftCounter,
    RightCounter,
    Test,
    NotFound,
}

/// The command a line asks for: the first name of the table that starts the trimmed line.
pub open spec fn command_of(line: Seq<char>) -> Command {
    let t = trim(line);
    if starts_with(t, "level"@) {
        Command::Level
    } else if starts_with(t, "reset_gpio"@) {
        Command::ResetGpio
    } else if starts_with(t, "gpio_on"@) {
        Command::GpioOn(pin_arg(second_word(t)))
    } else if starts_with(t, "gpio_off"@) {
        Command::GpioOff(pin_arg(second_word(t)))
    } else if starts_with(t, "board_name"@) {
        Command::BoardName
    } else if starts_with(t, "timer_resolution"@) {
        Command::TimerResolution
    } else if starts_with(t, "mmu"@) {
        Command::Mmu
    } else if starts_with(t, "driver"@) {
        Command::Driver
    } else if starts_with(t, "irq_handler"@) {
        Command::IrqHandler
    } else if starts_with(t, "kernel_heap"@) {
        Command::KernelHeap
    } else if starts_with(t, "hex_counter"@) {
        Command::HexCounter
    } else if starts_with(t, "left_counter"@) {
        Command::LeftCounter
    } else if starts_with(t, "right_counter"@) {
        Command::RightCounter
    } else if starts_with(t, "test"@) {
        Command::Test
    } else {
        Command::NotFound
    }
}

fn is_space_char(c: char) -> (r: bool)
    ensures
        r == is_space(c),
{
    c == ' ' || c == '\t' || c == '\n' || c == '\x0B' || c == '\x0C' || c == '\r'
}

/// The trimmed copy of a line.
pub fn trim_line(line: &Vec<char>) -> (r: Vec<char>)
    ensures
        r@ == trim(line@),
{
    let n = line.len();
    let mut a: usize = 0;
    while a < n && is_space_char(line[a])
        invariant
            a <= n == line@.len(),
            space_end(line@, a as int) == space_end(line@, 0),
        decreases n - a,
    {
        a = a + 1;
    }
    let mut b: usize = n;
    while a < b && is_space_char(line[b - 1])
        invariant
            a <= b <= n == line@.len(),
            space_end(line@, 0) == a,
            trim_back(line@, a as int, b as int) == trim_back(line@, a as int, n as int),
        decreases b - a,
    {
        b = b - 1;
    }
    let mut out: Vec<char> = Vec::new();
    let mut i: usize = a;
    while i < b
        invariant
            a <= i <= b <= n == line@.len(),
            out@ == line@.subrange(a as int, i as int),
        decreases b - i,
    {
        out.push(line[i]);
        i = i + 1;
        proof {
            assert(out@ =~= line@.subrange(a as int, i as int));
        }
    }
    out
}

/// Whether `t` starts with the characters of `name`.
fn has_prefix(t: &Vec<char>, name: &str) -> (r: bool)
    ensures
        r == starts_with(t@, name@),
{
    let m = name.unicode_len();
    if m > t.len() {
        return false;
    }
    let mut i: usize = 0;
    while i < m
        invariant
            m == name@.len() <= t@.len(),
            i <= m,
            t@.subrange(0, i as int) == name@.subrange(0, i as int),
        decreases m - i,
    {
        if t[i] != name.get_char(i) {
            assert(t@.subrange(0, m as int)[i as int] != name@[i as int]);
            return false;
        }
        i = i + 1;
        proof {
            assert(t@.subrange(0, i as int) =~= name@.subrange(0, i as int));
        }
    }
    assert(name@.subrange(0, m as int) =~= name@);
    true
}

/// The second whitespace-separated word of `t`, which starts with a word.
fn second_word_of(t: &Vec<char>) -> (r: Vec<char>)
    ensures
        r@ == second_word(t@),
{
    let n = t.len();
    let mut i: usize = 0;
    while i < n && !is_space_char(t[i])
        invariant
            i <= n == t@.len(),
            token_end(t@, i as int) == token_end(t@, 0),
        decreases n - i,
    {
        i = i + 1;
    }
    let ghost first = i as int;
    while i < n && is_space_char(t[i])
        invariant
            first <= i <= n == t@.len(),
            first == token_end(t@, 0),
            space_end(t@, i as int) == space_end(t@, first),
        decreases n - i,
    {
        i = i + 1;
    }
    let start = i;
    let mut out: Vec<char> = Vec::new();
    while i < n && !is_space_char(t[i])
        invariant
            start <= i <= n == t@.len(),
            start == space_end(t@, token_end(t@, 0)),
            token_end(t@, i as int) == token_end(t@, start as int),
            out@ == t@.subrange(start as int, i as int),
        decreases n - i,
    {
        out.push(t[i]);
        i = i + 1;
        proof {
            assert(out@ =~= t@.subrange(start as int, i as int));
        }
    }
    out
}

/// A longer string of digits is worth at least as much as its prefixes.
proof fn lemma_decimal_monotone(s: Seq<char>, i: int)
    requires
        0 <= i <= s.len(),
        forall|k: int| 0 <= k < s.len() ==> is_digit(#[trigger] s[k]),
    ensures
        decimal(s.subrange(0, i)) <= decimal(s),
    decreases s.len(),
{
    if i < s.len() {
        let d = s.drop_last();
        assert(d.subrange(0, i) =~= s.subrange(0, i));
        lemma_decimal_monotone(d, i);
    } else {
        assert(s.subrange(0, i) =~= s);
    }
}

/// Reads a pin number: a non-empty run of digits worth at most 255.
pub fn parse_pin(w: &Vec<char>) -> (r: Option<u8>)
    ensures
        r == pin_arg(w@),
{
    let n = w.len();
    if n == 0 {
        return None;
    }
    let mut acc: u32 = 0;
    let mut i: usize = 0;
    while i < n
        invariant
            i <= n == w@.len(),
            acc <= 255,
            acc == decimal(w@.subrange(0, i as int)),
            forall|k: int| 0 <= k < i ==> is_digit(#[trigger] w@[k]),
        decreases n - i,
    {
        let c = w[i];
        if !('0' <= c && c <= '9') {
            return None;
        }
        let d: u32 = (c as u32) - ('0' as u32);
        let ghost pre = w@.subrange(0, i as int);
        let ghost next = w@.subrange(0, i + 1);
        assert(next.drop_last() =~= pre);
        if acc * 10 + d > 255 {
            proof {
                assert forall|k: int| 0 <= k < i + 1 implies is_digit(#[trigger] w@[k]) by {}
                if forall|k: int| 0 <= k < n ==> is_digit(#[trigger] w@[k]) {
                    lemma_decimal_monotone(w@, i + 1);
                }
            }
            return None;
        }
        acc = acc * 10 + d;
        i = i + 1;
    }
    assert(w@.subrange(0, n as int) =~= w@);
    Some(acc as u8)
}

/// The command that a received line asks for.
pub fn parse_command(line: &Vec<char>) -> (r: Command)
    ensures
        r == command_of(line@),
{
    let t = trim_line(line);
    if has_prefix(&t, "level") {
        Command::Level
    } else if has_prefix(&t, "reset_gpio") {
        Command::ResetGpio
    } else if has_prefix(&t, "gpio_on") {
        Command::GpioOn(parse_pin(&second_word_of(&t)))
    } else if has_prefix(&t, "gpio_off") {
        Command::GpioOff(parse_pin(&second_word_of(&t)))
    } else if has_prefix(&t, "board_name") {
        Command::BoardName
    } else if has_prefix(&t, "timer_resolution") {
        Command::TimerResolution
    } else if has_prefix(&t, "mmu") {
        Command::Mmu
    } else if has_prefix(&t, "driver") {
        Command::Driver
    } else if has_prefix(&t, "irq_handler") {
        Command::IrqHandler
    } else if has_prefix(&t, "kernel_heap") {
        Command::KernelHeap
    } else if has_prefix(&t, "hex_counter") {
        Command::HexCounter
    } else if has_prefix(&t, "left_counter") {
        Command::LeftCounter
    } else if has_prefix(&t, "right_counter") {
        Command::RightCounter
    } else if has_prefix(&t, "test") {
        Command::Test
    } else {
        Command::NotFound
    }
}

/// The line after taking `c`: emptied by the terminator or by an overflow, else extended.
pub open spec fn line_after(line: Seq<char>, c: char) -> Seq<char> {
    if c == '\n' || line.len() >= CMD_BUF_CAPACITY {
        Seq::empty()
    } else {
        line.push(c)
    }
}

/// The line after taking each character of `s` in turn.
pub open spec fn line_after_all(line: Seq<char>, s: Seq<char>) -> Seq<char>
    decreases s.len(),
{
    if s.len() == 0 {
        line
    } else {
        line_after(line_after_all(line, s.drop_last()), s.last())
    }
}

/// Up to `CMD_BUF_CAPACITY` characters without a terminator are all kept, each finding
/// room, so a line of exactly that many characters reaches its terminator whole; a
/// further character finds the buffer full and overflows it.
pub proof fn law_capacity(s: Seq<char>)
    requires
        s.len() <= CMD_BUF_CAPACITY,
        forall|i: int| 0 <= i < s.len() ==> s[i] != '\n',
    ensures
        line_after_all(Seq::empty(), s) == s,
        forall|k: int| 0 <= k < s.len() ==> (#[trigger] line_after_all(Seq::empty(), s.take(k))).len()
            == k < CMD_BUF_CAPACITY,
        s.len() == CMD_BUF_CAPACITY ==> line_after_all(Seq::empty(), s).len() >= CMD_BUF_CAPACITY,
    decreases s.len(),
{
    if s.len() > 0 {
        let d = s.drop_last();
        law_capacity(d);
        assert(d.push(s.last()) =~= s);
        assert forall|k: int| 0 <= k < s.len() implies (#[trigger] line_after_all(
            Seq::empty(),
            s.take(k),
        )).len() == k < CMD_BUF_CAPACITY by {
            if k < d.len() {
                assert(d.take(k) =~= s.take(k));
            } else {
                assert(s.take(k) =~= d);
            }
        }
    }
}

/// What one received character does to the line being accumulated.
#[derive(Debug)]
pub enum LineEvent {
    /// The character was appended.
    Pending,
    /// The character ended the line, handed out here; the buffer is empty again.
    Line(Vec<char>),
    /// The buffer was full: the line is discarded and the buffer is empty again.
    Overflow,
}

/// The line being accumulated, at most `CMD_BUF_CAPACITY` characters long.
pub struct CommandBuffer {
    buf: Vec<char>,
}

impl View for CommandBuffer {
    type V = Seq<char>;

    closed spec fn view(&self) -> Seq<char> {
        self.buf@
    }
}

impl CommandBuffer {
    pub open spec fn wf(&self) -> bool {
        self@.len() <= CMD_BUF_CAPACITY
    }

    pub fn new() -> (r: Self)
        ensures
            r@ == Seq::<char>::empty(),
            r.wf(),
    {
        CommandBuffer { buf: Vec::new() }
    }

    /// Takes one received character: the terminator `\n` ends the line; any other
    /// character is appended, unless the buffer is full, which discards the line.
    pub fn push(&mut self, c: char) -> (r: LineEvent)
        requires
            old(self).wf(),
        ensures
            final(self).wf(),
            final(self)@ == line_after(old(self)@, c),
            c == '\n' ==> final(self)@ == Seq::<char>::empty() && match r {
                LineEvent::Line(v) => v@ == old(self)@,
                _ => false,
            },
            c != '\n' && old(self)@.len() < CMD_BUF_CAPACITY ==> r is Pending && final(self)@
                == old(self)@.push(c),
            c != '\n' && old(self)@.len() >= CMD_BUF_CAPACITY ==> r is Overflow && final(self)@
                == Seq::<char>::empty(),
    {
        if c == '\n' {
            let mut line: Vec<char> = Vec::new();
            std::mem::swap(&mut line, &mut self.buf);
            LineEvent::Line(line)
        } else if self.buf.len() < CMD_BUF_CAPACITY {
            self.buf.push(c);
            LineEvent::Pending
        } else {
            self.buf = Vec::new();
            LineEvent::Overflow
        }
    }

    /// Number of characters accumulated.
    pub fn len(&self) -> (r: usize)
        ensures
            r == self@.len(),
    {
        self.buf.len()
    }
}

} // verus!
