use crate::addressable::Addressable;
use crate::bus::{make_word, word};
use crate::cpu_pins::CpuPins;
use crate::gtia::{Gtia, GtiaView};
use crate::mem::{Mem, MemView};
use vstd::prelude::*;

verus! {

/// First address of the register window.
pub const FIRST: u16 = 0xd400;

/// Last register of the window.
pub const LAST: u16 = 0xd40f;

/// Last address at which the window is mirrored.
pub const WRAP_LAST: u16 = 0xd41f;

pub const DMACTL: u16 = 0xd400;

pub const CHACTL: u16 = 0xd401;

pub const DLISTL: u16 = 0xd402;

pub const DLISTH: u16 = 0xd403;

pub const HSCROL: u16 = 0xd404;

pub const VSCROL: u16 = 0xd405;

pub const PMBASE: u16 = 0xd407;

pub const CHBASE: u16 = 0xd409;

pub const WSYNC: u16 = 0xd40a;

pub const VCOUNT: u16 = 0xd40b;

pub const PENH: u16 = 0xd40c;

pub const PENV: u16 = 0xd40d;

pub const NMIEN: u16 = 0xd40e;

pub const NMIRES: u16 = 0xd40f;

pub const NMIST: u16 = 0xd40f;

pub const COLOR_CLOCKS_PER_SCANLINE: u32 = 228;

pub const SCANLINES: u32 = 262;

pub const SCANLINE_VBLANK_START: u32 = 248;

/// Scanlines for which the display list is processed.
pub const VISIBLE_SCANLINES: u32 = 192;

/// Ticks in a scanline: each tick is two colour clocks.
pub const TICKS_PER_SCANLINE: u32 = 114;

/// Ticks in a frame.
pub const TICKS_PER_FRAME: u32 = 29868;

pub const NMI_MASK_DLI: u8 = 0x80;

pub const NMI_MASK_VBI: u8 = 0x40;

/// Colour indices that a text or graphics line is wide.
pub const LINE_PIXELS: usize = 320;

/// Size of the scanline buffer; the slots past the line are not used.
pub const BUFFER_SLOTS: usize = 384;

/// Bytes of screen memory that a row takes.
pub const ROW_BYTES: u16 = 40;

/// Where the character set stands when the character base register is zero.
pub const ROM_FONT: u16 = 0xE000;

/// The display processor: its registers, its place in the display list and
/// on the screen, and the colour indices of the scanline it produced last.
pub struct Antic {
    dmactl: u8,
    chactl: u8,
    dlistl: u8,
    dlisth: u8,
    hscrol: u8,
    vscrol: u8,
    pmbase: u8,
    chbase: u8,
    wsync: u8,
    vcount: u8,
    penh: u8,
    penv: u8,
    nmien: u8,
    nmist: u8,
    instruction: u8,
    dlist_cursor: u16,
    screen_cursor: u16,
    current_mode: u8,
    mode_line: u8,
    lines_remaining: u8,
    dli: bool,
    color_clock: u32,
    scanline: u32,
    scanline_buffer: [u8; 384],
}

/// The state of the display processor.
pub struct AnticView {
    pub dmactl: u8,
    pub chactl: u8,
    pub dlistl: u8,
    pub dlisth: u8,
    pub hscrol: u8,
    pub vscrol: u8,
    pub pmbase: u8,
    pub chbase: u8,
    pub wsync: u8,
    pub vcount: u8,
    pub penh: u8,
    pub penv: u8,
    pub nmien: u8,
    pub nmist: u8,
    /// The display-list instruction that was fetched last.
    pub instruction: u8,
    /// Where the next display-list byte is fetched.
    pub dlist_cursor: u16,
    /// Where the screen data of the current row starts.
    pub screen_cursor: u16,
    /// The mode of the current instruction: its low four bits.
    pub current_mode: u8,
    /// The scanline within the current row.
    pub mode_line: u8,
    /// Scanlines that the current instruction still has to produce; at zero
    /// the next instruction is due.
    pub lines_remaining: u8,
    /// The current instruction asks for an interrupt on its last scanline.
    pub dli: bool,
    pub color_clock: u32,
    pub scanline: u32,
    pub scanline_buffer: Seq<u8>,
}

/// What a tick of the display processor comes to: its new state, whether it
/// raises the non-maskable interrupt line, and whether it holds the bus.
pub struct AnticTick {
    pub antic: AnticView,
    pub nmi: bool,
    pub dma: bool,
}

/// Scanlines that a row of `mode` is high: eight for the text modes, and for
/// the graphics modes what their resolution calls for.
pub open spec fn mode_height(mode: u8) -> u8 {
    if mode == 0x9 || mode == 0xA {
        4
    } else if mode == 0xB || mode == 0xD {
        2
    } else if mode == 0xC || mode == 0xE || mode == 0xF {
        1
    } else {
        8
    }
}

/// Whether bit `n` of `val` is set, for `n` below 8.
pub open spec fn bit_set(val: u8, n: u8) -> bool {
    val & (1u8 << n) != 0
}

impl AnticView {
    pub open spec fn wf(self) -> bool {
        &&& self.color_clock < COLOR_CLOCKS_PER_SCANLINE
        &&& self.color_clock % 2 == 0
        &&& self.scanline < SCANLINES
        &&& self.vcount == self.scanline / 2
        &&& self.scanline_buffer.len() == BUFFER_SLOTS
        &&& self.mode_line + self.lines_remaining <= 8
    }

    /// The display processor after power-on.
    pub open spec fn initial() -> AnticView {
        AnticView {
            dmactl: 0,
            chactl: 0,
            dlistl: 0,
            dlisth: 0,
            hscrol: 0,
            vscrol: 0,
            pmbase: 0,
            chbase: 0,
            wsync: 0,
            vcount: 0,
            penh: 0,
            penv: 0,
            nmien: 0,
            nmist: 0,
            instruction: 0,
            dlist_cursor: 0,
            screen_cursor: 0,
            current_mode: 0,
            mode_line: 0,
            lines_remaining: 0,
            dli: false,
            color_clock: 0,
            scanline: 0,
            scanline_buffer: Seq::new(BUFFER_SLOTS as nat, |i: int| 0u8),
        }
    }

    /// Where the display list starts: what the two display-list registers
    /// hold.
    pub open spec fn dlist_base(self) -> u16 {
        word(self.dlistl, self.dlisth)
    }

    /// Where the character set starts: bits 7 to 1 of the character base
    /// register are the high byte, and a register of zero stands for the
    /// font in ROM.
    pub open spec fn char_base(self) -> u16 {
        if self.chbase == 0 {
            ROM_FONT
        } else {
            (self.chbase / 2 * 2 * 256) as u16
        }
    }

    /// Whether display-list DMA is switched on: bit 5 of the DMA control
    /// register.
    pub open spec fn dma_enabled(self) -> bool {
        bit_set(self.dmactl, 5)
    }

    /// What a read at `addr` returns: the low four address bits select the
    /// register, and a register that cannot be read reads as 0xFF.
    pub open spec fn register(self, addr: u16) -> u8 {
        let reg = addr % 16;
        if reg == 0x0B {
            self.vcount
        } else if reg == 0x0C {
            self.penh
        } else if reg == 0x0D {
            self.penv
        } else if reg == 0x0F {
            self.nmist
        } else {
            0xFF
        }
    }

    /// The display processor after `val` was written at `addr`. A write to
    /// either display-list register also moves the cursor to the new start
    /// of the list; a write to the interrupt-reset register clears the
    /// interrupt status; a write to a register that does not exist does
    /// nothing.
    pub open spec fn written(self, addr: u16, val: u8) -> AnticView {
        let reg = addr % 16;
        if reg == 0x00 {
            AnticView { dmactl: val, ..self }
        } else if reg == 0x01 {
            AnticView { chactl: val, ..self }
        } else if reg == 0x02 {
            AnticView { dlistl: val, dlist_cursor: word(val, self.dlisth), ..self }
        } else if reg == 0x03 {
            AnticView { dlisth: val, dlist_cursor: word(self.dlistl, val), ..self }
        } else if reg == 0x04 {
            AnticView { hscrol: val, ..self }
        } else if reg == 0x05 {
            AnticView { vscrol: val, ..self }
        } else if reg == 0x07 {
            AnticView { pmbase: val, ..self }
        } else if reg == 0x09 {
            AnticView { chbase: val, ..self }
        } else if reg == 0x0A {
            AnticView { wsync: val, ..self }
        } else if reg == 0x0E {
            AnticView { nmien: val, ..self }
        } else if reg == 0x0F {
            AnticView { nmist: 0, ..self }
        } else {
            self
        }
    }

    /// The counters one tick later: two colour clocks on, into the next
    /// scanline after the last clock of a line, and into scanline 0 after
    /// the last line of the frame. The scanline counter register follows.
    pub open spec fn clocked(self) -> AnticView {
        if self.color_clock + 2 < COLOR_CLOCKS_PER_SCANLINE {
            AnticView { color_clock: (self.color_clock + 2) as u32, ..self }
        } else if self.scanline + 1 < SCANLINES {
            AnticView {
                color_clock: 0,
                scanline: (self.scanline + 1) as u32,
                vcount: ((self.scanline + 1) / 2) as u8,
                ..self
            }
        } else {
            AnticView { color_clock: 0, scanline: 0, vcount: 0, ..self }
        }
    }

    /// Whether the tick that leads to this state entered a new scanline.
    pub open spec fn at_line_start(self) -> bool {
        self.color_clock == 0
    }

    /// Whether the tick that leads to this state raises the vertical-blank
    /// interrupt: the vertical blank starts, and the interrupt is enabled.
    pub open spec fn vblank_fires(self) -> bool {
        self.at_line_start() && self.scanline == SCANLINE_VBLANK_START && bit_set(self.nmien, 6)
    }

    /// The next display-list instruction, fetched. A blank instruction
    /// produces one to eight empty scanlines. A jump loads the cursor from
    /// its two operand bytes and leaves the next instruction due. A mode
    /// instruction starts a row, and with its bit 6 set it first loads the
    /// screen cursor from two operand bytes.
    pub open spec fn fetched(self, mem: MemView) -> AnticView {
        let instruction = mem.byte(self.dlist_cursor);
        let next = self.dlist_cursor.wrapping_add(1);
        let operand = word(mem.byte(next), mem.byte(next.wrapping_add(1)));
        let mode = instruction % 16;
        if mode == 0 {
            AnticView {
                instruction,
                current_mode: 0,
                mode_line: 0,
                lines_remaining: (instruction / 16 % 8 + 1) as u8,
                dli: instruction >= 128,
                dlist_cursor: next,
                ..self
            }
        } else if mode == 1 {
            AnticView {
                instruction,
                current_mode: 1,
                mode_line: 0,
                lines_remaining: 0,
                dli: false,
                dlist_cursor: operand,
                ..self
            }
        } else if bit_set(instruction, 6) {
            AnticView {
                instruction,
                current_mode: mode,
                mode_line: 0,
                lines_remaining: mode_height(mode),
                dli: instruction >= 128,
                dlist_cursor: next.wrapping_add(2),
                screen_cursor: operand,
                ..self
            }
        } else {
            AnticView {
                instruction,
                current_mode: mode,
                mode_line: 0,
                lines_remaining: mode_height(mode),
                dli: instruction >= 128,
                dlist_cursor: next,
                ..self
            }
        }
    }

    /// Whether the current scanline belongs to a row of text mode 2.
    pub open spec fn in_text_row(self) -> bool {
        self.current_mode == 2 && self.lines_remaining > 0
    }

    /// The bitmap byte of the character in column `column` for the current
    /// scanline of the row: the character code is read from screen memory,
    /// and its low seven bits select one of 128 cells of eight bytes each.
    pub open spec fn glyph_row(self, mem: MemView, column: int) -> u8 {
        let code = mem.byte(((self.screen_cursor + column) % 0x10000) as u16);
        mem.byte(((self.char_base() + code % 128 * 8 + self.mode_line) % 0x10000) as u16)
    }

    /// The colour index of slot `x` of the current scanline. In a row of
    /// text mode 2 each of the 40 characters gives eight pixels, the most
    /// significant bit of its bitmap byte first: 1 where the bit is set, 0
    /// where it is not. Everything else is 0.
    pub open spec fn pixel_at(self, mem: MemView, x: int) -> u8 {
        if self.in_text_row() && 0 <= x < LINE_PIXELS && bit_set(
            self.glyph_row(mem, x / 8),
            (7 - x % 8) as u8,
        ) {
            1
        } else {
            0
        }
    }

    /// The state with the current scanline in the scanline buffer.
    pub open spec fn rendered(self, mem: MemView) -> AnticView {
        AnticView {
            scanline_buffer: Seq::new(BUFFER_SLOTS as nat, |x: int| self.pixel_at(mem, x)),
            ..self
        }
    }

    /// Whether the current scanline ends a row that asked for an interrupt,
    /// with the interrupt enabled.
    pub open spec fn dli_fires(self) -> bool {
        self.lines_remaining == 1 && self.dli && bit_set(self.nmien, 7)
    }

    /// The state after the current scanline: one line less remains, and
    /// after the last line of a row the screen cursor moves to the next row.
    /// A display-list interrupt that fires is latched in the status.
    pub open spec fn line_done(self) -> AnticView {
        if self.lines_remaining == 0 {
            self
        } else if self.lines_remaining == 1 {
            AnticView {
                lines_remaining: 0,
                mode_line: 0,
                screen_cursor: if self.current_mode >= 2 {
                    self.screen_cursor.wrapping_add(ROW_BYTES)
                } else {
                    self.screen_cursor
                },
                nmist: if self.dli_fires() {
                    self.nmist | NMI_MASK_DLI
                } else {
                    self.nmist
                },
                ..self
            }
        } else {
            AnticView {
                lines_remaining: (self.lines_remaining - 1) as u8,
                mode_line: (self.mode_line + 1) as u8,
                ..self
            }
        }
    }

    /// The state at the start of a scanline, with an instruction fetched
    /// where one is due.
    pub open spec fn prepared(self, mem: MemView) -> AnticView {
        if self.lines_remaining == 0 {
            self.fetched(mem)
        } else {
            self
        }
    }

    /// One scanline of display-list processing.
    pub open spec fn scanned(self, mem: MemView) -> AnticView {
        self.prepared(mem).rendered(mem).line_done()
    }

    /// Whether that scanline raises the display-list interrupt.
    pub open spec fn scan_interrupts(self, mem: MemView) -> bool {
        self.prepared(mem).dli_fires()
    }

    /// Whether the tick from this state processes the display list: it
    /// enters a visible scanline, and DMA is switched on.
    pub open spec fn scan_due(self) -> bool {
        self.clocked().at_line_start() && self.clocked().scanline < VISIBLE_SCANLINES
            && self.dma_enabled()
    }

    /// One tick.
    #[verifier::opaque]
    pub open spec fn ticked(self, mem: MemView) -> AnticTick {
        let c = self.clocked();
        let v = if c.vblank_fires() {
            AnticView { nmist: c.nmist | NMI_MASK_VBI, ..c }
        } else {
            c
        };
        if self.scan_due() {
            AnticTick {
                antic: v.scanned(mem),
                nmi: c.vblank_fires() || v.scan_interrupts(mem),
                dma: true,
            }
        } else {
            AnticTick { antic: v, nmi: c.vblank_fires(), dma: false }
        }
    }

    /// How many ticks the state is into its frame.
    pub open spec fn position(self) -> int {
        self.scanline * TICKS_PER_SCANLINE + self.color_clock / 2
    }

    /// The state `n` ticks later, as far as the counters go.
    pub open spec fn clocked_by(self, n: nat) -> AnticView
        decreases n,
    {
        if n == 0 {
            self
        } else {
            self.clocked_by((n - 1) as nat).clocked()
        }
    }
}

/// The pins after a tick of the display processor: the interrupt line is
/// raised where the tick says so and stays up otherwise, and the halt line
/// says whether the tick held the bus.
pub open spec fn pins_after(pins: CpuPins, tick: AnticTick) -> CpuPins {
    CpuPins { nmi: pins.nmi || tick.nmi, halt: tick.dma, ..pins }
}

/// Display processor and video chip after `n` scanlines of a frame were
/// processed and painted, from the top of the picture.
pub open spec fn frame_drawn(antic: AnticView, gtia: GtiaView, mem: MemView, n: nat) -> (
    AnticView,
    GtiaView,
)
    decreases n,
{
    if n == 0 {
        (antic, gtia)
    } else {
        let before = frame_drawn(antic, gtia, mem, (n - 1) as nat);
        let scanned = before.0.scanned(mem);
        (scanned, before.1.painted(n - 1, scanned.scanline_buffer))
    }
}

impl View for Antic {
    type V = AnticView;

    closed spec fn view(&self) -> AnticView {
        AnticView {
            dmactl: self.dmactl,
            chactl: self.chactl,
            dlistl: self.dlistl,
            dlisth: self.dlisth,
            hscrol: self.hscrol,
            vscrol: self.vscrol,
            pmbase: self.pmbase,
            chbase: self.chbase,
            wsync: self.wsync,
            vcount: self.vcount,
            penh: self.penh,
            penv: self.penv,
            nmien: self.nmien,
            nmist: self.nmist,
            instruction: self.instruction,
            dlist_cursor: self.dlist_cursor,
            screen_cursor: self.screen_cursor,
            current_mode: self.current_mode,
            mode_line: self.mode_line,
            lines_remaining: self.lines_remaining,
            dli: self.dli,
            color_clock: self.color_clock,
            scanline: self.scanline,
            scanline_buffer: self.scanline_buffer@,
        }
    }
}

/// Tests bit `n` of `val`.
pub fn test_bit(val: u8, n: u8) -> (set: bool)
    requires
        n < 8,
    ensures
        set == bit_set(val, n),
{
    val & (1u8 << n) != 0
}

/// Scanlines that a row of `mode` is high.
pub fn height_of(mode: u8) -> (height: u8)
    ensures
        height == mode_height(mode),
        1 <= height <= 8,
{
    match mode {
        0x9 | 0xA => 4,
        0xB | 0xD => 2,
        0xC | 0xE | 0xF => 1,
        _ => 8,
    }
}

impl Antic {
    /// The invariant: the counters are inside the frame, and the scanline
    /// counter register follows the scanline.
    pub closed spec fn inv(&self) -> bool {
        self@.wf()
    }

    pub proof fn lemma_inv_wf(&self)
        requires
            self.inv(),
        ensures
            self@.wf(),
    {
    }

    pub fn new() -> (antic: Antic)
        ensures
            antic.inv(),
            antic@ == AnticView::initial(),
    {
        let antic = Antic {
            dmactl: 0,
            chactl: 0,
            dlistl: 0,
            dlisth: 0,
            hscrol: 0,
            vscrol: 0,
            pmbase: 0,
            chbase: 0,
            wsync: 0,
            vcount: 0,
            penh: 0,
            penv: 0,
            nmien: 0,
            nmist: 0,
            instruction: 0,
            dlist_cursor: 0,
            screen_cursor: 0,
            current_mode: 0,
            mode_line: 0,
            lines_remaining: 0,
            dli: false,
            color_clock: 0,
            scanline: 0,
            scanline_buffer: [0;384],
        };
        assert(antic@.scanline_buffer =~= AnticView::initial().scanline_buffer);
        antic
    }

    /// The register that `addr` selects, as the address of its first
    /// occurrence.
    pub fn map_addr(&self, addr: u16) -> (mapped: u16)
        ensures
            mapped == FIRST + addr % 16,
    {
        assert(addr & 0x0F == addr % 16) by (bit_vector);
        FIRST + (addr & 0x0F)
    }

    pub fn get_byte(&self, addr: u16) -> (val: u8)
        ensures
            val == self@.register(addr),
    {
        let mapped_addr: u16 = self.map_addr(addr);
        match mapped_addr {
            VCOUNT => self.vcount,
            PENH => self.penh,
            PENV => self.penv,
            NMIST => self.nmist,
            _ => 0xff,
        }
    }

    pub fn set_byte(&mut self, addr: u16, val: u8)
        requires
            old(self).inv(),
        ensures
            final(self).inv(),
            final(self)@ == old(self)@.written(addr, val),
    {
        let mapped_addr: u16 = self.map_addr(addr);
        match mapped_addr {
            DMACTL => self.dmactl = val,
            CHACTL => self.chactl = val,
            DLISTL => {
                self.dlistl = val;
                self.dlist_cursor = self.initial_dl_counter();
            },
            DLISTH => {
                self.dlisth = val;
                self.dlist_cursor = self.initial_dl_counter();
            },
            HSCROL => self.hscrol = val,
            VSCROL => self.vscrol = val,
            PMBASE => self.pmbase = val,
            CHBASE => self.chbase = val,
            WSYNC => self.wsync = val,
            NMIEN => self.nmien = val,
            NMIRES => self.nmist = 0,
            _ => {},
        }
    }

    /// Where the display list starts.
    pub fn initial_dl_counter(&self) -> (base: u16)
        ensures
            base == self@.dlist_base(),
    {
        make_word(self.dlistl, self.dlisth)
    }

    /// Where the character set starts.
    pub fn char_base(&self) -> (base: u16)
        ensures
            base == self@.char_base(),
    {
        if self.chbase == 0 {
            ROM_FONT
        } else {
            let chbase: u8 = self.chbase;
            assert(chbase & 0xFE == chbase / 2 * 2) by (bit_vector);
            make_word(0, chbase & 0xFE)
        }
    }

    /// Where the next display-list byte is fetched.
    pub fn dlist_cursor(&self) -> (cursor: u16)
        ensures
            cursor == self@.dlist_cursor,
    {
        self.dlist_cursor
    }

    /// Where the screen data of the current row starts.
    pub fn screen_cursor(&self) -> (cursor: u16)
        ensures
            cursor == self@.screen_cursor,
    {
        self.screen_cursor
    }

    /// The mode of the current display-list instruction.
    pub fn current_mode(&self) -> (mode: u8)
        ensures
            mode == self@.current_mode,
    {
        self.current_mode
    }

    /// Scanlines that the current instruction still has to produce.
    pub fn lines_remaining(&self) -> (lines: u8)
        ensures
            lines == self@.lines_remaining,
    {
        self.lines_remaining
    }

    /// The scanline within the current row.
    pub fn mode_line(&self) -> (line: u8)
        ensures
            line == self@.mode_line,
    {
        self.mode_line
    }

    pub fn scanline(&self) -> (line: u32)
        ensures
            line == self@.scanline,
    {
        self.scanline
    }

    pub fn color_clock(&self) -> (clock: u32)
        ensures
            clock == self@.color_clock,
    {
        self.color_clock
    }

    /// The colour indices of the scanline that was produced last.
    pub fn scanline_buffer(&self) -> (buffer: &[u8; 384])
        ensures
            buffer@ == self@.scanline_buffer,
    {
        &self.scanline_buffer
    }

    /// Raises the non-maskable interrupt line.
    pub fn set_nmi(&self, pins: &mut CpuPins)
        ensures
            *final(pins) == (CpuPins { nmi: true, ..*old(pins) }),
    {
        pins.nmi = true;
    }

    /// Lowers the non-maskable interrupt line.
    pub fn clear_nmi(&self, pins: &mut CpuPins)
        ensures
            *final(pins) == (CpuPins { nmi: false, ..*old(pins) }),
    {
        pins.nmi = false;
    }

    /// At the start of the vertical blank, latches the vertical-blank
    /// interrupt and raises the interrupt line, if that interrupt is
    /// enabled.
    pub fn check_set_vblank(&mut self, pins: &mut CpuPins)
        requires
            old(self).inv(),
        ensures
            final(self).inv(),
            final(self)@ == if old(self)@.scanline == SCANLINE_VBLANK_START && bit_set(
                old(self)@.nmien,
                6,
            ) {
                AnticView { nmist: old(self)@.nmist | NMI_MASK_VBI, ..old(self)@ }
            } else {
                old(self)@
            },
            *final(pins) == if old(self)@.scanline == SCANLINE_VBLANK_START && bit_set(
                old(self)@.nmien,
                6,
            ) {
                CpuPins { nmi: true, ..*old(pins) }
            } else {
                *old(pins)
            },
    {
        if self.scanline == SCANLINE_VBLANK_START {
            if test_bit(self.nmien, 6) {
                self.set_nmi(pins);
                self.nmist = self.nmist | NMI_MASK_VBI;
            }
        }
    }

    /// Moves the counters on by one tick and tells whether a new scanline
    /// began.
    pub fn advance_clock(&mut self) -> (new_line: bool)
        requires
            old(self).inv(),
        ensures
            final(self).inv(),
            final(self)@ == old(self)@.clocked(),
            new_line == final(self)@.at_line_start(),
    {
        self.color_clock = self.color_clock + 2;
        if self.color_clock >= COLOR_CLOCKS_PER_SCANLINE {
            self.color_clock = 0;
            self.scanline = self.scanline + 1;
            if self.scanline >= SCANLINES {
                self.scanline = 0;
            }
            self.vcount = (self.scanline / 2) as u8;
            true
        } else {
            false
        }
    }

    /// Fetches the next display-list instruction.
    pub fn fetch_instruction(&mut self, mem: &Mem)
        requires
            old(self).inv(),
            old(self)@.lines_remaining == 0,
            mem.inv(),
        ensures
            final(self).inv(),
            final(self)@ == old(self)@.fetched(mem@),
    {
        let instruction: u8 = mem.get_byte(self.dlist_cursor);
        let next: u16 = self.dlist_cursor.wrapping_add(1);
        let mode: u8 = instruction % 16;
        self.instruction = instruction;
        self.current_mode = mode;
        self.mode_line = 0;
        if mode == 0 {
            self.lines_remaining = instruction / 16 % 8 + 1;
            self.dli = instruction >= 128;
            self.dlist_cursor = next;
        } else if mode == 1 {
            self.lines_remaining = 0;
            self.dli = false;
            self.dlist_cursor = mem.get_word(next);
        } else {
            self.lines_remaining = height_of(mode);
            self.dli = instruction >= 128;
            if test_bit(instruction, 6) {
                self.screen_cursor = mem.get_word(next);
                self.dlist_cursor = next.wrapping_add(2);
            } else {
                self.dlist_cursor = next;
            }
        }
    }

    /// Fills the scanline buffer with the colour indices of the current
    /// scanline.
    pub fn render_line(&mut self, mem: &Mem)
        requires
            old(self).inv(),
            mem.inv(),
        ensures
            final(self).inv(),
            final(self)@ == old(self)@.rendered(mem@),
    {
        let ghost before = self@;
        let text: bool = self.current_mode == 2 && self.lines_remaining > 0;
        let base: u16 = self.char_base();
        let mut column: u16 = 0;
        while column < 40
            invariant
                column <= 40,
                mem.inv(),
                text == before.in_text_row(),
                base == before.char_base(),
                self@ == (AnticView { scanline_buffer: self.scanline_buffer@, ..before }),
                before.wf(),
                forall|x: int|
                    0 <= x < 8 * column ==> #[trigger] self.scanline_buffer@[x] == before.pixel_at(
                        mem@,
                        x,
                    ),
            decreases 40 - column,
        {
            let bitmap: u8 = if text {
                let code: u8 = mem.get_byte(self.screen_cursor.wrapping_add(column));
                let cell: u16 = (code % 128) as u16 * 8 + self.mode_line as u16;
                mem.get_byte(base.wrapping_add(cell))
            } else {
                0
            };
            assert(text ==> bitmap == before.glyph_row(mem@, column as int));
            let mut k: u8 = 0;
            while k < 8
                invariant
                    k <= 8,
                    column < 40,
                    text == before.in_text_row(),
                    text ==> bitmap == before.glyph_row(mem@, column as int),
                    self@ == (AnticView { scanline_buffer: self.scanline_buffer@, ..before }),
                    before.wf(),
                    forall|x: int|
                        0 <= x < 8 * column + k ==> #[trigger] self.scanline_buffer@[x]
                            == before.pixel_at(mem@, x),
                decreases 8 - k,
            {
                let x: usize = column as usize * 8 + k as usize;
                assert(x / 8 == column && x % 8 == k);
                let on: bool = text && test_bit(bitmap, 7 - k);
                self.scanline_buffer[x] = if on {
                    1
                } else {
                    0
                };
                k = k + 1;
            }
            column = column + 1;
        }
        let mut x: usize = LINE_PIXELS;
        while x < BUFFER_SLOTS
            invariant
                LINE_PIXELS <= x <= BUFFER_SLOTS,
                self@ == (AnticView { scanline_buffer: self.scanline_buffer@, ..before }),
                before.wf(),
                forall|i: int|
                    0 <= i < x ==> #[trigger] self.scanline_buffer@[i] == before.pixel_at(mem@, i),
            decreases BUFFER_SLOTS - x,
        {
            self.scanline_buffer[x] = 0;
            x = x + 1;
        }
        assert(self.scanline_buffer@ =~= before.rendered(mem@).scanline_buffer);
    }

    /// Ends the current scanline and tells whether it raises the
    /// display-list interrupt.
    pub fn finish_line(&mut self) -> (interrupt: bool)
        requires
            old(self).inv(),
        ensures
            final(self).inv(),
            final(self)@ == old(self)@.line_done(),
            interrupt == old(self)@.dli_fires(),
    {
        if self.lines_remaining == 0 {
            false
        } else if self.lines_remaining == 1 {
            let interrupt: bool = self.dli && test_bit(self.nmien, 7);
            self.lines_remaining = 0;
            self.mode_line = 0;
            if self.current_mode >= 2 {
                self.screen_cursor = self.screen_cursor.wrapping_add(ROW_BYTES);
            }
            if interrupt {
                self.nmist = self.nmist | NMI_MASK_DLI;
            }
            interrupt
        } else {
            self.lines_remaining = self.lines_remaining - 1;
            self.mode_line = self.mode_line + 1;
            false
        }
    }

    /// Processes the display list for one scanline and leaves the line's
    /// colour indices in the scanline buffer. Tells whether the line raises
    /// the display-list interrupt.
    pub fn process_scanline(&mut self, mem: &Mem) -> (interrupt: bool)
        requires
            old(self).inv(),
            mem.inv(),
        ensures
            final(self).inv(),
            final(self)@ == old(self)@.scanned(mem@),
            interrupt == old(self)@.scan_interrupts(mem@),
    {
        if self.lines_remaining == 0 {
            self.fetch_instruction(mem);
        }
        self.render_line(mem);
        self.finish_line()
    }

    /// One tick: the counters move on; at the start of the vertical blank
    /// the vertical-blank interrupt is raised if enabled; at the start of a
    /// visible scanline the display list is processed if DMA is on, and the
    /// halt line then tells the processor to wait.
    pub fn tick(&mut self, mem: &Mem, pins: &mut CpuPins)
        requires
            old(self).inv(),
            mem.inv(),
        ensures
            final(self).inv(),
            final(self)@ == old(self)@.ticked(mem@).antic,
            final(self)@.vcount == final(self)@.scanline / 2,
            *final(pins) == pins_after(*old(pins), old(self)@.ticked(mem@)),
    {
        proof {
            reveal(AnticView::ticked);
        }
        let dma_on: bool = test_bit(self.dmactl, 5);
        let new_line: bool = self.advance_clock();
        if new_line {
            self.check_set_vblank(pins);
        }
        if new_line && self.scanline < VISIBLE_SCANLINES && dma_on {
            if self.process_scanline(mem) {
                self.set_nmi(pins);
            }
            pins.halt = true;
        } else {
            pins.halt = false;
        }
    }

    /// Produces the picture of one frame: each of the visible scanlines is
    /// processed and handed to the video chip, from the top.
    pub fn draw_frame(&mut self, mem: &Mem, gtia: &mut Gtia)
        requires
            old(self).inv(),
            old(gtia).inv(),
            mem.inv(),
        ensures
            final(self).inv(),
            final(gtia).inv(),
            (final(self)@, final(gtia)@) == frame_drawn(
                old(self)@,
                old(gtia)@,
                mem@,
                VISIBLE_SCANLINES as nat,
            ),
    {
        let mut y: usize = 0;
        while y < 192
            invariant
                y <= 192,
                self.inv(),
                gtia.inv(),
                mem.inv(),
                (self@, gtia@) == frame_drawn(old(self)@, old(gtia)@, mem@, y as nat),
            decreases 192 - y,
        {
            self.process_scanline(mem);
            gtia.render_scanline(y, &self.scanline_buffer);
            y = y + 1;
        }
    }
}

/// A tick moves the counters one position on in the frame, and from the last
/// position of a frame to the first. It changes no register but the scanline
/// counter, which stays half the scanline.
pub proof fn lemma_clock_advances(a: AnticView)
    requires
        a.wf(),
    ensures
        a.clocked().wf(),
        a.clocked().position() == (a.position() + 1) % (TICKS_PER_FRAME as int),
        0 <= a.position() < TICKS_PER_FRAME,
        a.clocked().nmien == a.nmien,
        a.clocked().at_line_start() <==> a.clocked().position() % (TICKS_PER_SCANLINE as int) == 0,
        a.clocked().scanline == a.clocked().position() / (TICKS_PER_SCANLINE as int),
{
}

/// The counters after a tick of the display processor are those that the
/// clock alone gives, whatever the display list does; the interrupt enable
/// register is left alone, and the scanline counter register is half the
/// scanline.
pub proof fn lemma_tick_follows_clock(a: AnticView, mem: MemView)
    requires
        a.wf(),
    ensures
        a.ticked(mem).antic.color_clock == a.clocked().color_clock,
        a.ticked(mem).antic.scanline == a.clocked().scanline,
        a.ticked(mem).antic.vcount == a.ticked(mem).antic.scanline / 2,
        a.ticked(mem).antic.nmien == a.nmien,
        a.clocked().vblank_fires() ==> a.ticked(mem).nmi,
{
    reveal(AnticView::ticked);
}

/// After `n` ticks the counters are `n` positions further in the frame.
pub proof fn lemma_clocked_by(a: AnticView, n: nat)
    requires
        a.wf(),
    ensures
        a.clocked_by(n).wf(),
        a.clocked_by(n).position() == (a.position() + n) % (TICKS_PER_FRAME as int),
        a.clocked_by(n).nmien == a.nmien,
        a.clocked_by(n).scanline == a.clocked_by(n).position() / (TICKS_PER_SCANLINE as int),
        a.clocked_by(n).at_line_start() <==> a.clocked_by(n).position() % (
        TICKS_PER_SCANLINE as int) == 0,
    decreases n,
{
    if n > 0 {
        lemma_clocked_by(a, (n - 1) as nat);
        lemma_clock_advances(a.clocked_by((n - 1) as nat));
    }
}

/// Whether the `n`-th tick from state `a` enters scanline `line`.
pub open spec fn enters_line(a: AnticView, n: nat, line: int) -> bool {
    a.clocked_by(n).at_line_start() && a.clocked_by(n).scanline == line
}

/// The tick of the next frame's worth of ticks that enters scanline `line`.
pub open spec fn entry_tick(a: AnticView, line: int) -> nat {
    ((line * TICKS_PER_SCANLINE - a.position() - 1) % (TICKS_PER_FRAME as int) + 1) as nat
}

/// Among the ticks of one frame, counted from any state, exactly one enters
/// a given scanline: the scanline counter visits every value from 0 to 261
/// once.
pub proof fn lemma_each_scanline_once(a: AnticView, line: int, n: nat)
    requires
        a.wf(),
        0 <= line < SCANLINES,
    ensures
        1 <= entry_tick(a, line) <= TICKS_PER_FRAME,
        enters_line(a, entry_tick(a, line), line),
        1 <= n <= TICKS_PER_FRAME && enters_line(a, n, line) ==> n == entry_tick(a, line),
{
    let n0 = entry_tick(a, line);
    lemma_clock_advances(a);
    lemma_clocked_by(a, n0);
    lemma_clocked_by(a, n);
    let p = a.position();
    let target = line * TICKS_PER_SCANLINE;
    assert(0 <= target < TICKS_PER_FRAME);
    assert(target % (TICKS_PER_SCANLINE as int) == 0 && target / (TICKS_PER_SCANLINE as int)
        == line) by (nonlinear_arith)
        requires
            target == line * 114,
            TICKS_PER_SCANLINE == 114,
    ;
    assert((p + n0) % (TICKS_PER_FRAME as int) == target);
    if 1 <= n <= TICKS_PER_FRAME && enters_line(a, n, line) {
        let q = a.clocked_by(n).position();
        assert(q % (TICKS_PER_SCANLINE as int) == 0 && q / (TICKS_PER_SCANLINE as int) == line);
        assert(q == target);
    }
}

/// With the vertical-blank interrupt enabled, exactly one tick among the
/// ticks of one frame raises it.
pub proof fn lemma_vblank_once(a: AnticView, n: nat)
    requires
        a.wf(),
        bit_set(a.nmien, 6),
    ensures
        1 <= entry_tick(a, SCANLINE_VBLANK_START as int) <= TICKS_PER_FRAME,
        a.clocked_by(entry_tick(a, SCANLINE_VBLANK_START as int)).vblank_fires(),
        1 <= n <= TICKS_PER_FRAME && a.clocked_by(n).vblank_fires() ==> n == entry_tick(
            a,
            SCANLINE_VBLANK_START as int,
        ),
{
    lemma_each_scanline_once(a, SCANLINE_VBLANK_START as int, n);
    lemma_clocked_by(a, n);
    lemma_clocked_by(a, entry_tick(a, SCANLINE_VBLANK_START as int));
}

} // verus!
