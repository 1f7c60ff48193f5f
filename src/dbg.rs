//! Host probes: code the interpreter calls before every instruction, with
//! access to the registers and memory, which can stop the run.
use vstd::prelude::*;
use crate::mem::Memory;
use crate::reg::Registers;
use rand::Rng;

verus! {

/// A probe, called once before each instruction. It may read and change the
/// registers and memory (a change of PC takes effect for the next fetch);
/// returning `true` stops the run.
pub trait Dbg {
    /// Whether this probe leaves the machine alone: it never stops the run
    /// and changes neither registers nor memory, now or later. A probe
    /// that does not say so is not taken to be passive.
    open spec fn passive(&self) -> bool {
        false
    }

    fn step(&mut self, reg: &mut Registers, mem: &mut Memory) -> (r: bool)
        ensures
            old(self).passive() ==> !r && *final(reg) == *old(reg) && final(mem)@ == old(mem)@
                && final(self).passive(),
    ;
}

/// The probe that does nothing and never stops the run.
pub struct DbgNop;

impl Dbg for DbgNop {
    open spec fn passive(&self) -> bool {
        true
    }

    fn step(&mut self, reg: &mut Registers, mem: &mut Memory) -> (r: bool)
        ensures
            !r,
            *final(reg) == *old(reg),
            final(mem)@ == old(mem)@,
    {
        false
    }
}

/// Number of program counter values.
pub const PC_COUNT: usize = 0x10000;

/// Stops a run once some PC is about to execute for the third time: a
/// program spinning in a loop is taken as finished.
pub struct CycleDetect {
    pc_trace: Vec<u8>,
}

impl View for CycleDetect {
    type V = Seq<u8>;

    /// How often each PC was entered, counted up to 3.
    open spec fn view(&self) -> Seq<u8> {
        Seq::new(PC_COUNT as nat, |i: int| self.count(i))
    }
}

impl CycleDetect {
    #[verifier::type_invariant]
    spec fn inv(self) -> bool {
        self.pc_trace@.len() == PC_COUNT
    }

    /// How often PC `i` was entered, counted up to 3.
    pub closed spec fn count(&self, i: int) -> u8 {
        self.pc_trace@[i]
    }

    /// A detector that has seen nothing yet.
    pub fn new() -> (r: Self)
        ensures
            forall|i: int| 0 <= i < PC_COUNT ==> #[trigger] r@[i] == 0,
    {
        let mut pc_trace: Vec<u8> = Vec::new();
        while pc_trace.len() < PC_COUNT
            invariant
                pc_trace@.len() <= PC_COUNT,
                forall|i: int| 0 <= i < pc_trace@.len() ==> #[trigger] pc_trace@[i] == 0,
            decreases PC_COUNT - pc_trace.len(),
        {
            pc_trace.push(0);
        }
        CycleDetect { pc_trace }
    }

    /// Counts one more entry of `pc`; true when `pc` has now been entered
    /// more than twice.
    pub fn visit(&mut self, pc: u16) -> (r: bool)
        ensures
            r == (old(self)@[pc as int] >= 2),
            final(self)@ == old(self)@.update(
                pc as int,
                if old(self)@[pc as int] >= 3 {
                    3
                } else {
                    (old(self)@[pc as int] + 1) as u8
                },
            ),
        no_unwind
    {
        proof {
            use_type_invariant(&*self);
        }
        let c = self.pc_trace[pc as usize];
        let n: u8 = if c >= 3 {
            3
        } else {
            c + 1
        };
        self.pc_trace[pc as usize] = n;
        assert(self@ =~= old(self)@.update(pc as int, n));
        n > 2
    }
}

impl Default for CycleDetect {
    /// A detector that has seen nothing yet.
    fn default() -> (r: Self)
        ensures
            forall|i: int| 0 <= i < PC_COUNT ==> #[trigger] r@[i] == 0,
    {
        CycleDetect::new()
    }
}

impl Dbg for CycleDetect {
    fn step(&mut self, reg: &mut Registers, mem: &mut Memory) -> (r: bool)
        ensures
            r == (old(self)@[old(reg).pc as int] >= 2),
            final(self)@ == old(self)@.update(
                old(reg).pc as int,
                if old(self)@[old(reg).pc as int] >= 3 {
                    3
                } else {
                    (old(self)@[old(reg).pc as int] + 1) as u8
                },
            ),
            *final(reg) == *old(reg),
            final(mem)@ == old(mem)@,
    {
        self.visit(reg.pc)
    }
}

/// Keyboard data register of the Apple-1 PIA.
pub const KBD: u16 = 0xd010;

/// Keyboard control register; bit 7 is set while a key waits.
pub const KBDCR: u16 = 0xd011;

/// Display data register; a non-zero byte is a character to show.
pub const DSP: u16 = 0xd012;

/// The escape key, which stops the run.
pub const ESC: u8 = 0x1b;

/// Rows of the text display.
pub const TEXT_ROWS: usize = 10;

/// Columns of the text display.
pub const TEXT_COLS: usize = 80;

/// The text display after scrolling up one row: the top row is dropped and
/// a row of blanks comes in at the bottom.
pub open spec fn scrolled(text: Seq<u8>) -> Seq<u8> {
    text.subrange(TEXT_COLS as int, (TEXT_ROWS * TEXT_COLS) as int) + Seq::new(
        TEXT_COLS as nat,
        |i: int| 0x20u8,
    )
}

/// Where character `c` goes on the display when the cursor is at (`line`,
/// `col`): carriage return moves to column 0, line feed one row down, and a
/// full row wraps to the next one. The row may be one past the last.
pub open spec fn place(line: int, col: int, c: u8) -> (int, int) {
    let col1 = if c == 0x0d {
        0
    } else {
        col
    };
    let line1 = if c == 0x0a {
        line + 1
    } else {
        line
    };
    if col1 >= TEXT_COLS {
        (line1 + 1, 0)
    } else {
        (line1, col1)
    }
}

/// The display and cursor after writing `c` at cursor (`line`, `col`); the
/// display scrolls up when the row runs past the last one.
pub open spec fn put_text(text: Seq<u8>, line: int, col: int, c: u8) -> (Seq<u8>, int, int) {
    let (l, c0) = place(line, col, c);
    let scroll = l >= TEXT_ROWS;
    let row = if scroll {
        TEXT_ROWS - 1
    } else {
        l
    };
    let before = if scroll {
        scrolled(text)
    } else {
        text
    };
    (before.update(row * TEXT_COLS + c0, c), row, c0 + 1)
}

/// Memory and strobe countdown after one step of the keyboard strobe: when
/// the countdown reaches 0, bit 7 of KBDCR is cleared.
pub open spec fn strobe_tick(mem: Seq<u8>, strobe: int) -> (Seq<u8>, int) {
    if strobe == 0 {
        (mem, 0)
    } else if strobe == 1 {
        (mem.update(KBDCR as int, mem[KBDCR as int] & 0x7f), 0)
    } else {
        (mem, strobe - 1)
    }
}

/// Memory, strobe countdown, and whether ESC came, after delivering `keys`
/// in order. Each ASCII key is written to KBD with bit 7 set, sets bit 7 of
/// KBDCR, and restarts the countdown at 2; other bytes are ignored; ESC ends
/// the delivery.
pub open spec fn deliver(mem: Seq<u8>, strobe: int, keys: Seq<u8>) -> (Seq<u8>, int, bool)
    decreases keys.len(),
{
    if keys.len() == 0 {
        (mem, strobe, false)
    } else if keys[0] == ESC {
        (mem, strobe, true)
    } else if keys[0] < 0x80 {
        deliver(
            mem.update(KBDCR as int, mem[KBDCR as int] | 0x80).update(KBD as int, keys[0] | 0x80),
            2,
            keys.drop_first(),
        )
    } else {
        deliver(mem, strobe, keys.drop_first())
    }
}

/// A text display of `TEXT_ROWS` rows of `TEXT_COLS` characters with a
/// cursor.
pub struct TextDisplay {
    textbuf: Vec<u8>,
    outline: usize,
    outcol: usize,
}

impl TextDisplay {
    #[verifier::type_invariant]
    spec fn inv(self) -> bool {
        &&& self.textbuf@.len() == TEXT_ROWS * TEXT_COLS
        &&& self.outline < TEXT_ROWS
        &&& self.outcol <= TEXT_COLS
    }

    /// The characters, row after row.
    pub closed spec fn text(&self) -> Seq<u8> {
        self.textbuf@
    }

    /// The row and column where the next character goes.
    pub closed spec fn cursor(&self) -> (int, int) {
        (self.outline as int, self.outcol as int)
    }

    /// A blank display with the cursor at the top left.
    pub fn new() -> (r: Self)
        ensures
            r.text() == Seq::new((TEXT_ROWS * TEXT_COLS) as nat, |i: int| 0x20u8),
            r.cursor() == (0int, 0int),
    {
        let mut textbuf: Vec<u8> = Vec::new();
        while textbuf.len() < TEXT_ROWS * TEXT_COLS
            invariant
                textbuf@.len() <= TEXT_ROWS * TEXT_COLS,
                forall|i: int| 0 <= i < textbuf@.len() ==> #[trigger] textbuf@[i] == 0x20u8,
            decreases TEXT_ROWS * TEXT_COLS - textbuf.len(),
        {
            textbuf.push(0x20);
        }
        let r = TextDisplay { textbuf, outline: 0, outcol: 0 };
        assert(r.text() =~= Seq::new((TEXT_ROWS * TEXT_COLS) as nat, |i: int| 0x20u8));
        r
    }

    /// The characters, row after row.
    pub fn get_text(&self) -> (r: &[u8])
        ensures
            r@ == self.text(),
    {
        self.textbuf.as_slice()
    }

    /// Scrolls the display up one row.
    fn scroll(&mut self)
        ensures
            final(self).text() == scrolled(old(self).text()),
            final(self).cursor() == old(self).cursor(),
    {
        proof {
            use_type_invariant(&*self);
        }
        let n = TEXT_ROWS * TEXT_COLS;
        let ghost text = self.textbuf@;
        let mut i: usize = 0;
        while i < n - TEXT_COLS
            invariant
                n == TEXT_ROWS * TEXT_COLS,
                text.len() == n,
                self.textbuf@.len() == n,
                i <= n - TEXT_COLS,
                forall|j: int| 0 <= j < i ==> #[trigger] self.textbuf@[j] == text[j + TEXT_COLS],
                forall|j: int| i <= j < n ==> #[trigger] self.textbuf@[j] == text[j],
                self.outline == old(self).outline,
                self.outcol == old(self).outcol,
                self.outline < TEXT_ROWS,
                self.outcol <= TEXT_COLS,
            decreases n - TEXT_COLS - i,
        {
            let v = self.textbuf[i + TEXT_COLS];
            self.textbuf[i] = v;
            i = i + 1;
        }
        while i < n
            invariant
                n == TEXT_ROWS * TEXT_COLS,
                text.len() == n,
                self.textbuf@.len() == n,
                n - TEXT_COLS <= i <= n,
                forall|j: int|
                    0 <= j < n - TEXT_COLS ==> #[trigger] self.textbuf@[j] == text[j + TEXT_COLS],
                forall|j: int| n - TEXT_COLS <= j < i ==> #[trigger] self.textbuf@[j] == 0x20u8,
                self.outline == old(self).outline,
                self.outcol == old(self).outcol,
                self.outline < TEXT_ROWS,
                self.outcol <= TEXT_COLS,
            decreases n - i,
        {
            self.textbuf[i] = 0x20;
            i = i + 1;
        }
        assert(self.textbuf@ =~= scrolled(text));
    }

    /// Writes character `c` to the display at the cursor and moves the
    /// cursor on.
    pub fn putc(&mut self, c: u8)
        ensures
            (final(self).text(), final(self).cursor().0, final(self).cursor().1) == put_text(
                old(self).text(),
                old(self).cursor().0,
                old(self).cursor().1,
                c,
            ),
    {
        proof {
            use_type_invariant(&*self);
        }
        let mut line = self.outline;
        let mut col = self.outcol;
        if c == 0x0d {
            col = 0;
        }
        if c == 0x0a {
            line = line + 1;
        }
        if col >= TEXT_COLS {
            col = 0;
            line = line + 1;
        }
        if line >= TEXT_ROWS {
            line = TEXT_ROWS - 1;
            self.scroll();
        }
        proof {
            use_type_invariant(&*self);
        }
        self.textbuf[line * TEXT_COLS + col] = c;
        self.outline = line;
        self.outcol = col + 1;
    }
}

/// The Apple-1 keyboard and display adapter, seen from the processor as the
/// memory bytes $D010-$D012, with the text display it writes to.
///
/// Keys the host hands over with [`Apple1Pia::feed`] are delivered at the next
/// probe step: each one is written to KBD with bit 7 set, and bit 7 of KBDCR
/// is set; that strobe is cleared two steps later. ESC stops the run. A
/// non-zero byte in DSP is a character: its low 7 bits go to the display and
/// DSP is cleared.
pub struct Apple1Pia {
    display: TextDisplay,
    screen_dirty: bool,
    keyb_strobe: usize,
    input: Vec<u8>,
}

impl Apple1Pia {
    /// The display, row after row, `TEXT_COLS` characters each.
    pub closed spec fn text(&self) -> Seq<u8> {
        self.display.text()
    }

    /// The row and column where the next character goes.
    pub closed spec fn cursor(&self) -> (int, int) {
        self.display.cursor()
    }

    /// Whether the display changed since it was last drawn.
    pub closed spec fn dirty(&self) -> bool {
        self.screen_dirty
    }

    /// Steps left until the keyboard strobe is cleared; 0 when none is set.
    pub closed spec fn strobe(&self) -> int {
        self.keyb_strobe as int
    }

    /// Keys handed over and not yet delivered.
    pub closed spec fn pending(&self) -> Seq<u8> {
        self.input@
    }

    /// An adapter with a blank display and the cursor at the top left.
    pub fn new() -> (r: Self)
        ensures
            r.text() == Seq::new((TEXT_ROWS * TEXT_COLS) as nat, |i: int| 0x20u8),
            r.cursor() == (0int, 0int),
            r.dirty(),
            r.strobe() == 0,
            r.pending() == Seq::<u8>::empty(),
    {
        Apple1Pia { display: TextDisplay::new(), screen_dirty: true, keyb_strobe: 0, input: Vec::new() }
    }

    /// Hands a key over from the host; it is delivered at the next step.
    pub fn feed(&mut self, key: u8)
        ensures
            final(self).pending() == old(self).pending().push(key),
            final(self).text() == old(self).text(),
            final(self).cursor() == old(self).cursor(),
            final(self).dirty() == old(self).dirty(),
            final(self).strobe() == old(self).strobe(),
    {
        self.input.push(key);
    }

    /// The display, row after row, `TEXT_COLS` characters each.
    pub fn get_text(&self) -> (r: &[u8])
        ensures
            r@ == self.text(),
    {
        self.display.get_text()
    }

    /// Whether the display changed since it was last drawn.
    pub fn is_dirty(&self) -> (r: bool)
        ensures
            r == self.dirty(),
    {
        self.screen_dirty
    }

    /// Records that the display has been drawn.
    pub fn mark_drawn(&mut self)
        ensures
            !final(self).dirty(),
            final(self).text() == old(self).text(),
            final(self).cursor() == old(self).cursor(),
            final(self).strobe() == old(self).strobe(),
            final(self).pending() == old(self).pending(),
    {
        self.screen_dirty = false;
    }

    /// Writes character `c` to the display at the cursor and moves the
    /// cursor on.
    pub fn putc(&mut self, c: u8)
        ensures
            (final(self).text(), final(self).cursor().0, final(self).cursor().1) == put_text(
                old(self).text(),
                old(self).cursor().0,
                old(self).cursor().1,
                c,
            ),
            final(self).dirty(),
            final(self).strobe() == old(self).strobe(),
            final(self).pending() == old(self).pending(),
    {
        self.display.putc(c);
        self.screen_dirty = true;
    }

    /// Advances the keyboard strobe countdown, clearing the strobe bit when
    /// it runs out.
    fn tick_strobe(&mut self, mem: &mut Memory)
        ensures
            (final(mem)@, final(self).strobe()) == strobe_tick(old(mem)@, old(self).strobe()),
            final(self).text() == old(self).text(),
            final(self).cursor() == old(self).cursor(),
            final(self).dirty() == old(self).dirty(),
            final(self).pending() == old(self).pending(),
    {
        if self.keyb_strobe != 0 {
            self.keyb_strobe = self.keyb_strobe - 1;
            if self.keyb_strobe == 0 {
                let v = mem.load(KBDCR);
                mem.store(KBDCR, v & 0x7f);
            }
        }
    }

    /// Delivers the pending keys; true when one of them was ESC.
    fn take_keys(&mut self, mem: &mut Memory) -> (r: bool)
        ensures
            (final(mem)@, final(self).strobe(), r) == deliver(
                old(mem)@,
                old(self).strobe(),
                old(self).pending(),
            ),
            final(self).pending() == Seq::<u8>::empty(),
            final(self).text() == old(self).text(),
            final(self).cursor() == old(self).cursor(),
            final(self).dirty() == old(self).dirty(),
    {
        let keys = &self.input;
        let mut strobe = self.keyb_strobe;
        let mut i: usize = 0;
        assert(keys@.subrange(0, keys@.len() as int) =~= keys@);
        while i < keys.len()
            invariant
                keys@ == old(self).input@,
                self.display == old(self).display,
                self.screen_dirty == old(self).screen_dirty,
                0 <= i <= keys@.len(),
                deliver(old(mem)@, old(self).strobe(), keys@) == deliver(
                    mem@,
                    strobe as int,
                    keys@.subrange(i as int, keys@.len() as int),
                ),
            decreases keys.len() - i,
        {
            let ghost rest = keys@.subrange(i as int, keys@.len() as int);
            assert(rest.drop_first() =~= keys@.subrange(i + 1, keys@.len() as int));
            let k = keys[i];
            if k == ESC {
                self.keyb_strobe = strobe;
                self.input = Vec::new();
                return true;
            }
            if k < 0x80 {
                let v = mem.load(KBDCR);
                mem.store(KBDCR, v | 0x80);
                mem.store(KBD, k | 0x80);
                strobe = 2;
            }
            i = i + 1;
        }
        assert(keys@.subrange(i as int, keys@.len() as int) =~= Seq::<u8>::empty());
        self.keyb_strobe = strobe;
        self.input = Vec::new();
        false
    }
}

impl Default for Apple1Pia {
    /// An adapter with a blank display and the cursor at the top left.
    fn default() -> (r: Self)
        ensures
            r.text() == Seq::new((TEXT_ROWS * TEXT_COLS) as nat, |i: int| 0x20u8),
            r.cursor() == (0int, 0int),
            r.dirty(),
            r.strobe() == 0,
            r.pending() == Seq::<u8>::empty(),
    {
        Apple1Pia::new()
    }
}

impl Dbg for Apple1Pia {
    /// One probe step: the keyboard strobe countdown, then the pending keys
    /// (ESC stops the run), then the display register.
    fn step(&mut self, reg: &mut Registers, mem: &mut Memory) -> (r: bool)
        ensures
            ({
                let (m1, s1) = strobe_tick(old(mem)@, old(self).strobe());
                let (m2, s2, esc) = deliver(m1, s1, old(self).pending());
                let d = m2[DSP as int];
                &&& r == esc
                &&& final(self).strobe() == s2
                &&& final(self).pending() == Seq::<u8>::empty()
                &&& final(self).dirty() == (old(self).dirty() || (!esc && d != 0))
                &&& (esc || d == 0) ==> final(mem)@ == m2 && final(self).text() == old(
                    self,
                ).text() && final(self).cursor() == old(self).cursor()
                &&& (!esc && d != 0) ==> final(mem)@ == m2.update(DSP as int, 0) && (
                    final(self).text(),
                    final(self).cursor().0,
                    final(self).cursor().1,
                ) == put_text(
                    old(self).text(),
                    old(self).cursor().0,
                    old(self).cursor().1,
                    d & 0x7f,
                )
            }),
            *final(reg) == *old(reg),
    {
        self.tick_strobe(mem);
        if self.take_keys(mem) {
            return true;
        }
        let v = mem.load(DSP);
        if v != 0 {
            self.putc(v & 0x7f);
            mem.store(DSP, 0);
        }
        false
    }
}

/// Relies on `rand::thread_rng` and `Rng::gen`: a random byte. Nothing is
/// promised about its value.
#[verifier::external_body]
fn random_byte() -> u8 {
    rand::thread_rng().gen()
}

/// Address that receives a fresh random byte before each instruction.
pub const RANDOM_ADDR: u16 = 0xfe;

/// Address that receives the last key pressed.
pub const KEY_ADDR: u16 = 0xff;

/// Memory after writing each ASCII key of `keys`, in order, to `KEY_ADDR`.
pub open spec fn store_keys(mem: Seq<u8>, keys: Seq<u8>) -> Seq<u8>
    decreases keys.len(),
{
    if keys.len() == 0 {
        mem
    } else if keys[0] < 0x80 {
        store_keys(mem.update(KEY_ADDR as int, keys[0]), keys.drop_first())
    } else {
        store_keys(mem, keys.drop_first())
    }
}

/// The probe for programs that draw a 32x32 screen at $0200-$05FF: before
/// each instruction it writes a random byte to `RANDOM_ADDR` and the keys
/// handed over since the last step to `KEY_ADDR`. It never stops the run.
/// When PC reaches `trigger_pc` the host shows the screen.
pub struct DumpScreen {
    trigger_pc: u16,
    input: Vec<u8>,
}

impl DumpScreen {
    /// The PC at which the host shows the screen.
    pub closed spec fn trigger(&self) -> u16 {
        self.trigger_pc
    }

    /// The PC at which the host shows the screen.
    pub fn trigger_pc(&self) -> (r: u16)
        ensures
            r == self.trigger(),
    {
        self.trigger_pc
    }

    /// Keys handed over and not yet delivered.
    pub closed spec fn pending(&self) -> Seq<u8> {
        self.input@
    }

    /// A probe whose host shows the screen when PC reaches `trigger_pc`.
    pub fn new(trigger_pc: u16) -> (r: Self)
        ensures
            r.trigger() == trigger_pc,
            r.pending() == Seq::<u8>::empty(),
    {
        DumpScreen { trigger_pc, input: Vec::new() }
    }

    /// Hands a key over from the host; it is delivered at the next step.
    pub fn feed(&mut self, key: u8)
        ensures
            final(self).pending() == old(self).pending().push(key),
            final(self).trigger() == old(self).trigger(),
    {
        self.input.push(key);
    }
}

/// The PC at which the snake game program of the easy6502 tutorial has
/// finished drawing a frame.
pub const FRAME_PC: u16 = 0x734;

impl Default for DumpScreen {
    /// A probe whose host shows the screen at [`FRAME_PC`].
    fn default() -> (r: Self)
        ensures
            r.trigger() == FRAME_PC,
            r.pending() == Seq::<u8>::empty(),
    {
        DumpScreen::new(FRAME_PC)
    }
}

impl Dbg for DumpScreen {
    fn step(&mut self, reg: &mut Registers, mem: &mut Memory) -> (r: bool)
        ensures
            !r,
            exists|v: u8|
                final(mem)@ == store_keys(
                    #[trigger] old(mem)@.update(RANDOM_ADDR as int, v),
                    old(self).pending(),
                ),
            final(self).pending() == Seq::<u8>::empty(),
            final(self).trigger() == old(self).trigger(),
            *final(reg) == *old(reg),
    {
        let v = random_byte();
        mem.store(RANDOM_ADDR, v);
        let ghost start = mem@;
        let mut i: usize = 0;
        assert(self.input@.subrange(0, self.input@.len() as int) =~= self.input@);
        while i < self.input.len()
            invariant
                0 <= i <= self.input@.len(),
                self.input@ == old(self).input@,
                store_keys(start, self.input@) == store_keys(
                    mem@,
                    self.input@.subrange(i as int, self.input@.len() as int),
                ),
            decreases self.input.len() - i,
        {
            let ghost rest = self.input@.subrange(i as int, self.input@.len() as int);
            assert(rest.drop_first() =~= self.input@.subrange(i + 1, self.input@.len() as int));
            let k = self.input[i];
            if k < 0x80 {
                mem.store(KEY_ADDR, k);
            }
            i = i + 1;
        }
        assert(self.input@.subrange(i as int, self.input@.len() as int) =~= Seq::<u8>::empty());
        self.input = Vec::new();
        false
    }
}

} // verus!
