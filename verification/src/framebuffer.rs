use vstd::prelude::*;
use vstd::slice::slice_subrange;

verus! {

/// A picture in memory: rows of pixels from the top left, three bytes (red,
/// green, blue) for each pixel.
pub struct Framebuffer {
    width: usize,
    height: usize,
    pixels: Vec<u8>,
}

/// What a framebuffer holds.
pub struct FramebufferView {
    pub width: nat,
    pub height: nat,
    pub pixels: Seq<u8>,
}

impl FramebufferView {
    /// There are three bytes for each pixel.
    pub open spec fn wf(self) -> bool {
        self.pixels.len() == self.width * self.height * 3
    }

    /// Where the three bytes of the pixel at (`x`, `y`) start.
    pub open spec fn offset(self, x: nat, y: nat) -> nat {
        (y * self.width + x) * 3
    }

    /// The colour of the pixel at (`x`, `y`).
    pub open spec fn pixel(self, x: nat, y: nat) -> (u8, u8, u8) {
        let o = self.offset(x, y) as int;
        (self.pixels[o], self.pixels[o + 1], self.pixels[o + 2])
    }

    /// The picture with the pixel at (`x`, `y`) set, or unchanged where that
    /// lies outside.
    pub open spec fn with_pixel(self, x: nat, y: nat, r: u8, g: u8, b: u8) -> FramebufferView {
        if x < self.width && y < self.height {
            let o = self.offset(x, y) as int;
            FramebufferView {
                pixels: self.pixels.update(o, r).update(o + 1, g).update(o + 2, b),
                ..self
            }
        } else {
            self
        }
    }

    /// The picture with every pixel set to one colour.
    pub open spec fn filled(self, r: u8, g: u8, b: u8) -> FramebufferView {
        FramebufferView {
            pixels: Seq::new(
                self.pixels.len(),
                |k: int|
                    if k % 3 == 0 {
                        r
                    } else if k % 3 == 1 {
                        g
                    } else {
                        b
                    },
            ),
            ..self
        }
    }
}

/// The bytes of a pixel inside the picture lie inside the pixel data.
pub proof fn lemma_offset_in_bounds(width: nat, height: nat, x: nat, y: nat)
    by (nonlinear_arith)
    requires
        x < width,
        y < height,
    ensures
        (y * width + x) * 3 + 3 <= width * height * 3,
        y * width <= (y * width + x) * 3,
{
}

/// A row inside the picture lies inside the pixel data.
pub proof fn lemma_row_in_bounds(width: nat, height: nat, y: nat)
    by (nonlinear_arith)
    requires
        y < height,
    ensures
        y * width * 3 + width * 3 <= width * height * 3,
        y * width <= y * width * 3,
{
}

impl View for Framebuffer {
    type V = FramebufferView;

    closed spec fn view(&self) -> FramebufferView {
        FramebufferView {
            width: self.width as nat,
            height: self.height as nat,
            pixels: self.pixels@,
        }
    }
}

impl Framebuffer {
    /// The invariant: the pixel data has the size that the dimensions call
    /// for.
    pub closed spec fn inv(&self) -> bool {
        self@.wf()
    }

    pub proof fn lemma_inv_wf(&self)
        requires
            self.inv(),
        ensures
            self@.wf(),
    {
    }

    /// A black picture.
    pub fn new(width: usize, height: usize) -> (fb: Framebuffer)
        requires
            width * height * 3 <= usize::MAX,
        ensures
            fb.inv(),
            fb@.width == width,
            fb@.height == height,
            fb@.pixels == Seq::new((width * height * 3) as nat, |k: int| 0u8),
    {
        assert(width * height <= width * height * 3) by (nonlinear_arith)
            requires
                width >= 0,
                height >= 0,
        ;
        let pixels: Vec<u8> = vec![0; width * height * 3];
        assert(pixels@ =~= Seq::new((width * height * 3) as nat, |k: int| 0u8));
        Framebuffer { width, height, pixels }
    }

    pub fn width(&self) -> (w: usize)
        ensures
            w == self@.width,
    {
        self.width
    }

    pub fn height(&self) -> (h: usize)
        ensures
            h == self@.height,
    {
        self.height
    }

    /// The pixel data, row by row.
    pub fn pixels(&self) -> (data: &[u8])
        ensures
            data@ == self@.pixels,
    {
        self.pixels.as_slice()
    }

    /// Sets the pixel at (`x`, `y`); outside the picture nothing happens.
    pub fn set_pixel(&mut self, x: usize, y: usize, r: u8, g: u8, b: u8)
        requires
            old(self).inv(),
        ensures
            final(self).inv(),
            final(self)@ == old(self)@.with_pixel(x as nat, y as nat, r, g, b),
    {
        let n: usize = self.pixels.len();
        if x < self.width && y < self.height {
            proof {
                lemma_offset_in_bounds(self.width as nat, self.height as nat, x as nat, y as nat);
            }
            let offset: usize = (y * self.width + x) * 3;
            self.pixels[offset] = r;
            self.pixels[offset + 1] = g;
            self.pixels[offset + 2] = b;
        }
    }

    /// Makes the picture black.
    pub fn clear(&mut self)
        requires
            old(self).inv(),
        ensures
            final(self).inv(),
            final(self)@ == old(self)@.filled(0, 0, 0),
    {
        self.clear_color(0, 0, 0);
    }

    /// Gives every pixel the same colour.
    pub fn clear_color(&mut self, r: u8, g: u8, b: u8)
        requires
            old(self).inv(),
        ensures
            final(self).inv(),
            final(self)@ == old(self)@.filled(r, g, b),
    {
        let n: usize = self.pixels.len();
        let mut k: usize = 0;
        assert(n % 3 == 0) by (nonlinear_arith)
            requires
                n == self.width * self.height * 3,
        ;
        while k < n
            invariant
                k <= n,
                k % 3 == 0,
                n % 3 == 0,
                n == self.pixels@.len(),
                self.width == old(self).width,
                self.height == old(self).height,
                n == old(self).pixels@.len(),
                forall|j: int| 0 <= j < k ==> #[trigger] self.pixels@[j] == old(self)@.filled(r, g, b).pixels[j],
            decreases n - k,
        {
            self.pixels[k] = r;
            self.pixels[k + 1] = g;
            self.pixels[k + 2] = b;
            k = k + 3;
        }
        assert(self.pixels@ =~= old(self)@.filled(r, g, b).pixels);
    }

    /// The bytes of row `y`.
    pub fn get_scanline(&self, y: usize) -> (row: &[u8])
        requires
            self.inv(),
            y < self@.height,
        ensures
            row@ == self@.pixels.subrange(
                y * self@.width * 3,
                y * self@.width * 3 + self@.width * 3,
            ),
    {
        let n: usize = self.pixels.len();
        proof {
            lemma_row_in_bounds(self.width as nat, self.height as nat, y as nat);
        }
        let start: usize = y * self.width * 3;
        let end: usize = start + self.width * 3;
        slice_subrange(self.pixels.as_slice(), start, end)
    }

    /// The bytes of row `y`, to be changed in place: what the caller leaves in
    /// them is what the picture then holds in that row.
    pub fn get_scanline_mut(&mut self, y: usize) -> (row: &mut [u8])
        requires
            old(self).inv(),
            y < old(self)@.height,
        ensures
            row@ == old(self)@.pixels.subrange(
                y * old(self)@.width * 3,
                y * old(self)@.width * 3 + old(self)@.width * 3,
            ),
            final(row)@.len() == row@.len() ==> final(self).inv(),
            final(self)@.width == old(self)@.width,
            final(self)@.height == old(self)@.height,
            final(self)@.pixels == old(self)@.pixels.subrange(0, y * old(self)@.width * 3)
                + final(row)@ + old(self)@.pixels.subrange(
                y * old(self)@.width * 3 + old(self)@.width * 3,
                old(self)@.pixels.len() as int,
            ),
    {
        let n: usize = self.pixels.len();
        proof {
            lemma_row_in_bounds(self.width as nat, self.height as nat, y as nat);
        }
        let start: usize = y * self.width * 3;
        let len: usize = self.width * 3;
        let (_head, rest) = self.pixels.as_mut_slice().split_at_mut(start);
        let (row, _tail) = rest.split_at_mut(len);
        row
    }
}

} // verus!
