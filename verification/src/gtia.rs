use crate::framebuffer::{Framebuffer, FramebufferView};
use vstd::prelude::*;

verus! {

/// Width of the picture in pixels.
pub const SCREEN_WIDTH: usize = 320;

/// Height of the picture in pixels.
pub const SCREEN_HEIGHT: usize = 192;

/// Colour indices that the display processor hands over for each scanline.
pub const SCANLINE_SLOTS: usize = 384;

/// Colour clocks in a scanline.
pub const CLOCKS_PER_LINE: u16 = 228;

/// Scanlines in a frame.
pub const LINES_PER_FRAME: u16 = 262;

/// The colours of the machine: sixteen hues of eight luminances each, as red,
/// green and blue. The index is the hue times eight plus the luminance.
pub const ATARI_PALETTE: [(u8, u8, u8); 128] = [
    (0, 0, 0), (25, 25, 25), (55, 55, 55), (79, 79, 79),
    (109, 109, 109), (139, 139, 139), (169, 169, 169), (255, 255, 255),
    (65, 45, 0), (89, 67, 0), (119, 97, 11), (143, 121, 35),
    (173, 151, 65), (203, 181, 95), (233, 211, 125), (255, 255, 195),
    (105, 35, 0), (129, 59, 0), (159, 89, 0), (183, 113, 23),
    (213, 143, 53), (243, 173, 83), (255, 203, 113), (255, 255, 183),
    (105, 20, 0), (129, 44, 0), (159, 74, 0), (183, 98, 19),
    (213, 128, 49), (243, 158, 79), (255, 188, 109), (255, 255, 179),
    (85, 0, 20), (109, 0, 44), (139, 15, 74), (163, 39, 98),
    (193, 69, 128), (223, 99, 158), (253, 129, 188), (255, 199, 255),
    (65, 0, 60), (89, 0, 84), (119, 5, 114), (143, 29, 138),
    (173, 59, 168), (203, 89, 198), (233, 119, 228), (255, 189, 255),
    (35, 0, 85), (59, 0, 109), (89, 0, 139), (113, 23, 163),
    (143, 53, 193), (173, 83, 223), (203, 113, 253), (255, 183, 255),
    (0, 0, 100), (0, 24, 124), (0, 54, 154), (17, 78, 178),
    (47, 108, 208), (77, 138, 238), (107, 168, 255), (177, 238, 255),
    (0, 20, 105), (0, 44, 129), (0, 74, 159), (0, 98, 183),
    (23, 128, 213), (53, 158, 243), (83, 188, 255), (153, 255, 255),
    (0, 40, 85), (0, 64, 109), (0, 94, 139), (0, 118, 163),
    (3, 148, 193), (33, 178, 223), (63, 208, 253), (133, 255, 255),
    (0, 55, 45), (0, 79, 69), (0, 109, 99), (0, 133, 123),
    (0, 163, 153), (19, 193, 183), (49, 223, 213), (119, 255, 255),
    (0, 60, 0), (0, 84, 0), (0, 114, 11), (0, 138, 35),
    (0, 168, 65), (27, 198, 95), (57, 228, 125), (127, 255, 195),
    (20, 65, 0), (44, 89, 0), (74, 119, 0), (98, 143, 0),
    (128, 173, 23), (158, 203, 53), (188, 233, 83), (255, 255, 153),
    (45, 60, 0), (69, 84, 0), (99, 114, 0), (123, 138, 0),
    (153, 168, 15), (183, 198, 45), (213, 228, 75), (255, 255, 145),
    (60, 55, 0), (84, 79, 0), (114, 109, 0), (138, 133, 0),
    (168, 163, 0), (198, 193, 27), (228, 223, 57), (255, 255, 127),
    (65, 50, 0), (89, 74, 0), (119, 104, 0), (143, 128, 0),
    (173, 158, 21), (203, 188, 51), (233, 218, 81), (255, 255, 151),
];

/// The red, green and blue of a colour register value: its bits 7 to 4 are
/// the hue, its bits 3 to 1 the luminance, its bit 0 counts for nothing.
pub open spec fn rgb_of(atari_color: u8) -> (u8, u8, u8) {
    ATARI_PALETTE[atari_color as int / 2]
}

/// The video chip: colour registers, collision registers, trigger inputs, a
/// beam position and the picture that it produces.
pub struct Gtia {
    colpm: [u8; 4],
    colpf: [u8; 4],
    colbk: u8,
    prior: u8,
    vdelay: u8,
    gractl: u8,
    hitclr: u8,
    consol: u8,
    collision: [u8; 16],
    trig: [u8; 4],
    pixel_x: u16,
    pixel_y: u16,
    framebuffer: Framebuffer,
}

/// The state of the video chip. The sixteen collision registers stand in the
/// order of their addresses.
pub struct GtiaView {
    pub colpm: Seq<u8>,
    pub colpf: Seq<u8>,
    pub colbk: u8,
    pub prior: u8,
    pub vdelay: u8,
    pub gractl: u8,
    pub hitclr: u8,
    pub consol: u8,
    pub collision: Seq<u8>,
    pub trig: Seq<u8>,
    pub pixel_x: u16,
    pub pixel_y: u16,
    pub framebuffer: FramebufferView,
}

impl GtiaView {
    pub open spec fn wf(self) -> bool {
        &&& self.colpm.len() == 4
        &&& self.colpf.len() == 4
        &&& self.collision.len() == 16
        &&& self.trig.len() == 4
        &&& self.pixel_x < CLOCKS_PER_LINE
        &&& self.pixel_y < LINES_PER_FRAME
        &&& self.framebuffer.width == SCREEN_WIDTH
        &&& self.framebuffer.height == SCREEN_HEIGHT
        &&& self.framebuffer.wf()
    }

    /// The chip after power-on: no collisions, no trigger pressed, a black
    /// picture.
    pub open spec fn initial() -> GtiaView {
        GtiaView {
            colpm: Seq::new(4, |i: int| 0u8),
            colpf: Seq::new(4, |i: int| 0u8),
            colbk: 0,
            prior: 0,
            vdelay: 0,
            gractl: 0,
            hitclr: 0,
            consol: 0,
            collision: Seq::new(16, |i: int| 0u8),
            trig: Seq::new(4, |i: int| 1u8),
            pixel_x: 0,
            pixel_y: 0,
            framebuffer: FramebufferView {
                width: SCREEN_WIDTH as nat,
                height: SCREEN_HEIGHT as nat,
                pixels: Seq::new((SCREEN_WIDTH * SCREEN_HEIGHT * 3) as nat, |k: int| 0u8),
            },
        }
    }

    /// What a read at `addr` returns: the low five address bits select the
    /// register. Collisions come first, then the triggers; the console
    /// switches are the last register. Everything else reads as 0xFF.
    pub open spec fn register(self, addr: u16) -> u8 {
        let reg = addr % 32;
        if reg < 0x10 {
            self.collision[reg as int]
        } else if reg < 0x14 {
            self.trig[reg - 0x10]
        } else if reg == 0x1F {
            self.consol
        } else {
            0xFF
        }
    }

    /// The chip after `val` was written at `addr`. A write to the
    /// collision-clear register sets every collision register to zero.
    pub open spec fn written(self, addr: u16, val: u8) -> GtiaView {
        let reg = addr % 32;
        if 0x12 <= reg < 0x16 {
            GtiaView { colpm: self.colpm.update(reg - 0x12, val), ..self }
        } else if 0x16 <= reg < 0x1A {
            GtiaView { colpf: self.colpf.update(reg - 0x16, val), ..self }
        } else if reg == 0x1A {
            GtiaView { colbk: val, ..self }
        } else if reg == 0x1B {
            GtiaView { prior: val, ..self }
        } else if reg == 0x1C {
            GtiaView { vdelay: val, ..self }
        } else if reg == 0x1D {
            GtiaView { gractl: val, ..self }
        } else if reg == 0x1E {
            GtiaView { hitclr: val, collision: Seq::new(16, |i: int| 0u8), ..self }
        } else if reg == 0x1F {
            GtiaView { consol: val, ..self }
        } else {
            self
        }
    }

    /// The beam one colour clock later.
    pub open spec fn ticked(self) -> GtiaView {
        if self.pixel_x + 1 < CLOCKS_PER_LINE {
            GtiaView { pixel_x: (self.pixel_x + 1) as u16, ..self }
        } else if self.pixel_y + 1 < LINES_PER_FRAME {
            GtiaView { pixel_x: 0, pixel_y: (self.pixel_y + 1) as u16, ..self }
        } else {
            GtiaView { pixel_x: 0, pixel_y: 0, ..self }
        }
    }

    /// The colour register that a colour index of the display processor
    /// selects: 0 is the background, 1 to 3 are the first three playfield
    /// colours, and anything else falls back to the background.
    pub open spec fn color_for_index(self, index: u8) -> u8 {
        if index == 1 {
            self.colpf[0]
        } else if index == 2 {
            self.colpf[1]
        } else if index == 3 {
            self.colpf[2]
        } else {
            self.colbk
        }
    }

    /// One byte of the picture after scanline `y` was painted from the colour
    /// indices `line`: byte `k` of the pixel data.
    pub open spec fn painted_byte(self, y: int, line: Seq<u8>, k: int) -> u8 {
        let row = y * (SCREEN_WIDTH * 3);
        if row <= k < row + SCREEN_WIDTH * 3 {
            let rgb = rgb_of(self.color_for_index(line[(k - row) / 3]));
            if (k - row) % 3 == 0 {
                rgb.0
            } else if (k - row) % 3 == 1 {
                rgb.1
            } else {
                rgb.2
            }
        } else {
            self.framebuffer.pixels[k]
        }
    }

    /// The chip after scanline `y` was painted from the colour indices
    /// `line`. A scanline below the picture changes nothing.
    pub open spec fn painted(self, y: int, line: Seq<u8>) -> GtiaView {
        if 0 <= y < SCREEN_HEIGHT {
            GtiaView {
                framebuffer: FramebufferView {
                    pixels: Seq::new(
                        self.framebuffer.pixels.len(),
                        |k: int| self.painted_byte(y, line, k),
                    ),
                    ..self.framebuffer
                },
                ..self
            }
        } else {
            self
        }
    }
}

impl View for Gtia {
    type V = GtiaView;

    closed spec fn view(&self) -> GtiaView {
        GtiaView {
            colpm: self.colpm@,
            colpf: self.colpf@,
            colbk: self.colbk,
            prior: self.prior,
            vdelay: self.vdelay,
            gractl: self.gractl,
            hitclr: self.hitclr,
            consol: self.consol,
            collision: self.collision@,
            trig: self.trig@,
            pixel_x: self.pixel_x,
            pixel_y: self.pixel_y,
            framebuffer: self.framebuffer@,
        }
    }
}

/// Sixteen collision registers without a collision.
fn no_collisions() -> (registers: [u8; 16])
    ensures
        registers@ == Seq::new(16, |i: int| 0u8),
{
    let registers: [u8; 16] = [0, 0, 0, 0, 0, 0, 0, 0, 0, 0, 0, 0, 0, 0, 0, 0];
    assert(registers@ =~= Seq::new(16, |i: int| 0u8));
    registers
}

impl Gtia {
    /// The invariant: the beam is inside the frame, and the picture has its
    /// fixed size.
    pub closed spec fn inv(&self) -> bool {
        &&& self.pixel_x < CLOCKS_PER_LINE
        &&& self.pixel_y < LINES_PER_FRAME
        &&& self.framebuffer.inv()
        &&& self.framebuffer@.width == SCREEN_WIDTH
        &&& self.framebuffer@.height == SCREEN_HEIGHT
    }

    pub proof fn lemma_inv_wf(&self)
        requires
            self.inv(),
        ensures
            self@.wf(),
    {
        self.framebuffer.lemma_inv_wf();
    }

    pub fn new() -> (gtia: Gtia)
        ensures
            gtia.inv(),
            gtia@ == GtiaView::initial(),
    {
        let gtia = Gtia {
            colpm: [0;4],
            colpf: [0;4],
            colbk: 0,
            prior: 0,
            vdelay: 0,
            gractl: 0,
            hitclr: 0,
            consol: 0,
            collision: [0;16],
            trig: [1;4],
            pixel_x: 0,
            pixel_y: 0,
            framebuffer: Framebuffer::new(SCREEN_WIDTH, SCREEN_HEIGHT),
        };
        assert(gtia@.colpm =~= GtiaView::initial().colpm);
        assert(gtia@.colpf =~= GtiaView::initial().colpf);
        assert(gtia@.collision =~= GtiaView::initial().collision);
        assert(gtia@.trig =~= GtiaView::initial().trig);
        gtia
    }

    /// The picture.
    pub fn framebuffer(&self) -> (fb: &Framebuffer)
        ensures
            fb@ == self@.framebuffer,
            self.inv() ==> fb.inv(),
    {
        &self.framebuffer
    }

    /// One colour clock.
    pub fn tick(&mut self)
        requires
            old(self).inv(),
        ensures
            final(self).inv(),
            final(self)@ == old(self)@.ticked(),
    {
        self.pixel_x = self.pixel_x + 1;
        if self.pixel_x >= 228 {
            self.pixel_x = 0;
            self.pixel_y = self.pixel_y + 1;
            if self.pixel_y >= 262 {
                self.pixel_y = 0;
            }
        }
    }

    pub fn read_register(&self, addr: u16) -> (val: u8)
        ensures
            val == self@.register(addr),
    {
        assert(addr & 0x1F == addr % 32) by (bit_vector);
        let reg: u16 = addr & 0x1F;
        if reg < 0x10 {
            self.collision[reg as usize]
        } else if reg < 0x14 {
            self.trig[(reg - 0x10) as usize]
        } else if reg == 0x1F {
            self.consol
        } else {
            0xFF
        }
    }

    pub fn write_register(&mut self, addr: u16, val: u8)
        requires
            old(self).inv(),
        ensures
            final(self).inv(),
            final(self)@ == old(self)@.written(addr, val),
    {
        assert(addr & 0x1F == addr % 32) by (bit_vector);
        let reg: u16 = addr & 0x1F;
        match reg {
            0x12 | 0x13 | 0x14 | 0x15 => {
                self.colpm[(reg - 0x12) as usize] = val;
            },
            0x16 | 0x17 | 0x18 | 0x19 => {
                self.colpf[(reg - 0x16) as usize] = val;
            },
            0x1A => self.colbk = val,
            0x1B => self.prior = val,
            0x1C => self.vdelay = val,
            0x1D => self.gractl = val,
            0x1E => {
                self.hitclr = val;
                self.collision = no_collisions();
            },
            0x1F => self.consol = val,
            _ => {},
        }
    }

    pub fn color_to_rgb(&self, atari_color: u8) -> (rgb: (u8, u8, u8))
        ensures
            rgb == rgb_of(atari_color),
    {
        let hue: u8 = (atari_color >> 4) & 0x0F;
        let lum: u8 = (atari_color >> 1) & 0x07;
        let index: u8 = (hue << 3) | lum;
        assert(index == atari_color / 2) by (bit_vector)
            requires
                hue == (atari_color >> 4) & 0x0F,
                lum == (atari_color >> 1) & 0x07,
                index == (hue << 3) | lum,
        ;
        ATARI_PALETTE[index as usize]
    }

    /// Fills the picture with the background colour.
    pub fn clear_framebuffer(&mut self)
        requires
            old(self).inv(),
        ensures
            final(self).inv(),
            final(self)@ == (GtiaView {
                framebuffer: old(self)@.framebuffer.filled(
                    rgb_of(old(self)@.colbk).0,
                    rgb_of(old(self)@.colbk).1,
                    rgb_of(old(self)@.colbk).2,
                ),
                ..old(self)@
            }),
    {
        let (r, g, b) = self.color_to_rgb(self.colbk);
        self.framebuffer.clear_color(r, g, b);
    }

    /// The colour of a colour index of the display processor.
    pub fn get_color_for_index(&self, index: u8) -> (rgb: (u8, u8, u8))
        ensures
            rgb == rgb_of(self@.color_for_index(index)),
    {
        let atari_color: u8 = match index {
            1 => self.colpf[0],
            2 => self.colpf[1],
            3 => self.colpf[2],
            _ => self.colbk,
        };
        self.color_to_rgb(atari_color)
    }

    /// Paints scanline `scanline_y` of the picture from the colour indices
    /// that the display processor produced for it.
    pub fn render_scanline(&mut self, scanline_y: usize, antic_pixels: &[u8; 384])
        requires
            old(self).inv(),
        ensures
            final(self).inv(),
            final(self)@ == old(self)@.painted(scanline_y as int, antic_pixels@),
    {
        if scanline_y >= SCREEN_HEIGHT {
            return ;
        }
        let ghost before = self@;
        let ghost line = antic_pixels@;
        let ghost row = scanline_y * (SCREEN_WIDTH * 3);
        proof {
            self.framebuffer.lemma_inv_wf();
        }
        let mut x: usize = 0;
        while x < 320
            invariant
                x <= 320,
                scanline_y < SCREEN_HEIGHT,
                row == scanline_y * (SCREEN_WIDTH * 3),
                line == antic_pixels@,
                before.wf(),
                self.inv(),
                self@ == (GtiaView { framebuffer: self.framebuffer@, ..before }),
                self.framebuffer@.width == SCREEN_WIDTH,
                self.framebuffer@.height == SCREEN_HEIGHT,
                self.framebuffer@.pixels.len() == before.framebuffer.pixels.len(),
                forall|k: int|
                    0 <= k < before.framebuffer.pixels.len()
                        ==> #[trigger] self.framebuffer@.pixels[k] == if row <= k < row + 3 * x {
                        before.painted_byte(scanline_y as int, line, k)
                    } else {
                        before.framebuffer.pixels[k]
                    },
            decreases 320 - x,
        {
            let ghost prev = self.framebuffer@;
            let color_index: u8 = antic_pixels[x];
            let (r, g, b) = self.get_color_for_index(color_index);
            self.framebuffer.set_pixel(x, scanline_y, r, g, b);
            proof {
                let o = row + 3 * x;
                assert(prev.offset(x as nat, scanline_y as nat) == o) by (nonlinear_arith)
                    requires
                        prev.width == 320,
                        o == scanline_y * (320 * 3) + 3 * x,
                        prev.offset(x as nat, scanline_y as nat) == (scanline_y * prev.width + x)
                            * 3,
                ;
                assert(self@.color_for_index(color_index) == before.color_for_index(color_index));
                assert((o - row) / 3 == x && (o + 1 - row) / 3 == x && (o + 2 - row) / 3 == x);
                assert(before.painted_byte(scanline_y as int, line, o) == r);
                assert(before.painted_byte(scanline_y as int, line, o + 1) == g);
                assert(before.painted_byte(scanline_y as int, line, o + 2) == b);
            }
            x = x + 1;
        }
        assert(self.framebuffer@.pixels =~= before.painted(
            scanline_y as int,
            line,
        ).framebuffer.pixels);
    }
}

} // verus!
