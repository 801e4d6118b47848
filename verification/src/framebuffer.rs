//! A width-by-height grid of colours, stored row after row.

use crate::color::Color;
use vstd::prelude::*;

verus! {

/// The image a render pass paints into.
pub struct Framebuffer {
    pub width: usize,
    pub height: usize,
    pub buffer: Vec<Color>,
    pub background_color: Color,
    pub current_color: Color,
}

/// A pixel written at `(x, y)` in a grid `width` wide lands at one index only:
/// two pixels inside the grid that share an index are the same pixel.
pub proof fn lemma_index_injective(width: int, x1: int, y1: int, x2: int, y2: int)
    requires
        0 <= x1 < width,
        0 <= x2 < width,
        0 <= y1,
        0 <= y2,
        y1 * width + x1 == y2 * width + x2,
    ensures
        x1 == x2,
        y1 == y2,
{
    if y1 < y2 {
        assert((y1 + 1) * width <= y2 * width) by (nonlinear_arith)
            requires
                y1 + 1 <= y2,
                0 <= width,
        ;
        assert((y1 + 1) * width == y1 * width + width) by (nonlinear_arith);
    } else if y2 < y1 {
        assert((y2 + 1) * width <= y1 * width) by (nonlinear_arith)
            requires
                y2 + 1 <= y1,
                0 <= width,
        ;
        assert((y2 + 1) * width == y2 * width + width) by (nonlinear_arith);
    }
}

/// Every pixel inside a `width` by `height` grid has an index below
/// `width * height`.
pub proof fn lemma_index_in_range(width: int, height: int, x: int, y: int)
    requires
        0 <= x < width,
        0 <= y < height,
    ensures
        0 <= y * width + x < width * height,
{
    assert(y * width >= 0) by (nonlinear_arith)
        requires
            0 <= y,
            0 <= width,
    ;
    assert((y + 1) * width <= height * width) by (nonlinear_arith)
        requires
            y + 1 <= height,
            0 <= width,
    ;
    assert((y + 1) * width == y * width + width) by (nonlinear_arith);
    assert(height * width == width * height) by (nonlinear_arith);
}

impl Framebuffer {
    /// The buffer holds exactly one colour for each pixel.
    pub open spec fn wf(&self) -> bool {
        self.buffer.len() == self.width * self.height
    }

    /// Whether `(x, y)` names a pixel of this framebuffer.
    pub open spec fn contains(&self, x: int, y: int) -> bool {
        0 <= x < self.width && 0 <= y < self.height
    }

    /// The colour stored for the pixel `(x, y)`.
    pub open spec fn pixel(&self, x: int, y: int) -> Color
        recommends
            self.wf(),
            self.contains(x, y),
    {
        self.buffer@[y * self.width + x]
    }

    /// A black framebuffer of the given size, with a black background colour and
    /// a white current colour.
    pub fn new(width: usize, height: usize) -> (fb: Self)
        requires
            width * height <= usize::MAX,
        ensures
            fb.wf(),
            fb.width == width,
            fb.height == height,
            fb.buffer@ =~= Seq::new((width * height) as nat, |i: int| Color { r: 0, g: 0, b: 0 }),
            fb.background_color == (Color { r: 0, g: 0, b: 0 }),
            fb.current_color == (Color { r: 255, g: 255, b: 255 }),
    {
        let buffer = vec![Color::new(0, 0, 0); width * height];
        Self {
            buffer,
            width,
            height,
            background_color: Color::new(0, 0, 0),
            current_color: Color::new(255, 255, 255),
        }
    }

    /// Stores `color` at `(x, y)`; a point outside the framebuffer is ignored.
    pub fn point_with_color(&mut self, x: usize, y: usize, color: Color)
        requires
            old(self).wf(),
        ensures
            final(self).wf(),
            final(self).width == old(self).width,
            final(self).height == old(self).height,
            final(self).background_color == old(self).background_color,
            final(self).current_color == old(self).current_color,
            old(self).contains(x as int, y as int) ==> final(self).buffer@ == old(
                self,
            ).buffer@.update(y * old(self).width + x, color),
            !old(self).contains(x as int, y as int) ==> final(self).buffer@ == old(self).buffer@,
            forall|px: int, py: int|
                old(self).contains(px, py) ==> #[trigger] final(self).pixel(px, py) == if px == x
                    && py == y {
                    color
                } else {
                    old(self).pixel(px, py)
                },
    {
        if x < self.width && y < self.height {
            proof {
                lemma_index_in_range(self.width as int, self.height as int, x as int, y as int);
            }
            let index: usize = y * self.width + x;
            self.buffer.set(index, color);
            proof {
                assert forall|px: int, py: int| old(self).contains(px, py) implies #[trigger] self.pixel(
                    px,
                    py,
                ) == if px == x && py == y {
                    color
                } else {
                    old(self).pixel(px, py)
                } by {
                    lemma_index_in_range(self.width as int, self.height as int, px, py);
                    if py * self.width + px == index {
                        lemma_index_injective(self.width as int, px, py, x as int, y as int);
                    }
                }
            }
        }
    }

    /// Sets the colour that `clear` fills with.
    pub fn set_background_color(&mut self, color: Color)
        ensures
            final(self).background_color == color,
            final(self).width == old(self).width,
            final(self).height == old(self).height,
            final(self).buffer == old(self).buffer,
            final(self).current_color == old(self).current_color,
    {
        self.background_color = color;
    }

    /// Sets the current colour from a packed `0xRRGGBB` word.
    pub fn set_current_color(&mut self, color: u32)
        ensures
            final(self).current_color == Color::spec_from_hex(color),
            final(self).width == old(self).width,
            final(self).height == old(self).height,
            final(self).buffer == old(self).buffer,
            final(self).background_color == old(self).background_color,
    {
        self.current_color = Color::from_hex(color);
    }

    /// Fills the rectangle that is `width` wide and `height` high and has its
    /// first corner at `(x, y)`; the part of it outside the framebuffer is left
    /// out.
    pub fn draw_rectangle(&mut self, x: usize, y: usize, width: usize, height: usize, color: Color)
        requires
            old(self).wf(),
        ensures
            final(self).wf(),
            final(self).width == old(self).width,
            final(self).height == old(self).height,
            final(self).background_color == old(self).background_color,
            final(self).current_color == old(self).current_color,
            forall|px: int, py: int|
                old(self).contains(px, py) ==> #[trigger] final(self).pixel(px, py) == if x <= px
                    < x + width && y <= py < y + height {
                    color
                } else {
                    old(self).pixel(px, py)
                },
    {
        if x >= self.width || y >= self.height {
            return ;
        }
        let cols: usize = if width < self.width - x {
            width
        } else {
            self.width - x
        };
        let rows: usize = if height < self.height - y {
            height
        } else {
            self.height - y
        };
        let mut i: usize = 0;
        while i < cols
            invariant
                self.wf(),
                self.width == old(self).width,
                self.height == old(self).height,
                self.background_color == old(self).background_color,
                self.current_color == old(self).current_color,
                i <= cols,
                x + cols <= self.width,
                y + rows <= self.height,
                forall|px: int, py: int|
                    self.contains(px, py) ==> #[trigger] self.pixel(px, py) == if x <= px < x + i
                        && y <= py < y + rows {
                        color
                    } else {
                        old(self).pixel(px, py)
                    },
            decreases cols - i,
        {
            let mut j: usize = 0;
            while j < rows
                invariant
                    self.wf(),
                    self.width == old(self).width,
                    self.height == old(self).height,
                    self.background_color == old(self).background_color,
                    self.current_color == old(self).current_color,
                    i < cols,
                    j <= rows,
                    x + cols <= self.width,
                    y + rows <= self.height,
                    forall|px: int, py: int|
                        self.contains(px, py) ==> #[trigger] self.pixel(px, py) == if (x <= px < x
                            + i && y <= py < y + rows) || (px == x + i && y <= py < y + j) {
                            color
                        } else {
                            old(self).pixel(px, py)
                        },
                decreases rows - j,
            {
                self.point_with_color(x + i, y + j, color);
                j += 1;
            }
            i += 1;
        }
    }

    /// Fills the whole buffer with the background colour.
    pub fn clear(&mut self)
        ensures
            final(self).buffer@ =~= Seq::new(
                old(self).buffer@.len(),
                |i: int| old(self).background_color,
            ),
            final(self).width == old(self).width,
            final(self).height == old(self).height,
            final(self).background_color == old(self).background_color,
            final(self).current_color == old(self).current_color,
    {
        let len: usize = self.buffer.len();
        let mut i: usize = 0;
        while i < len
            invariant
                i <= len,
                self.buffer@.len() == len,
                len == old(self).buffer@.len(),
                self.width == old(self).width,
                self.height == old(self).height,
                self.background_color == old(self).background_color,
                self.current_color == old(self).current_color,
                forall|k: int| 0 <= k < i ==> self.buffer@[k] == self.background_color,
            decreases len - i,
        {
            self.buffer.set(i, self.background_color);
            i += 1;
        }
    }

    /// Whether `(x, y)` is a pixel of the framebuffer that holds pure white.
    pub fn is_point_set(&self, x: usize, y: usize) -> (set: bool)
        requires
            self.wf(),
        ensures
            set == (self.contains(x as int, y as int) && self.pixel(x as int, y as int) == (Color {
                r: 255,
                g: 255,
                b: 255,
            })),
    {
        if x < self.width && y < self.height {
            proof {
                lemma_index_in_range(self.width as int, self.height as int, x as int, y as int);
            }
            self.buffer[y * self.width + x] == Color::from_hex(0xFFFFFF)
        } else {
            false
        }
    }

    /// The buffer as packed `0xRRGGBB` words, in the same order.
    pub fn to_u32_buffer(&self) -> (words: Vec<u32>)
        ensures
            words@ =~= self.buffer@.map_values(|c: Color| c.spec_to_hex()),
    {
        let len: usize = self.buffer.len();
        let mut words: Vec<u32> = Vec::with_capacity(len);
        let mut i: usize = 0;
        while i < len
            invariant
                i <= len,
                len == self.buffer@.len(),
                words@.len() == i,
                forall|k: int| 0 <= k < i ==> words@[k] == self.buffer@[k].spec_to_hex(),
            decreases len - i,
        {
            words.push(self.buffer[i].to_hex());
            i += 1;
        }
        words
    }
}

/// One channel of `new` laid over `existing` with opacity `alpha` out of 255.
pub open spec fn blend_channel(existing: u8, new: u8, alpha: int) -> u8 {
    ((existing as int * (255 - alpha) + new as int * alpha) / 255) as u8
}

/// The colour `new` laid over `existing` with opacity `alpha` out of 255.
pub open spec fn spec_blend(existing: Color, new: Color, alpha: int) -> Color {
    Color {
        r: blend_channel(existing.r, new.r, alpha),
        g: blend_channel(existing.g, new.g, alpha),
        b: blend_channel(existing.b, new.b, alpha),
    }
}

fn blend(existing: u32, new: u32, alpha: u32) -> (blended: u32)
    requires
        existing <= 255,
        new <= 255,
        alpha <= 255,
    ensures
        blended == blend_channel(existing as u8, new as u8, alpha as int),
        blended <= 255,
{
    assert(existing * (255 - alpha) + new * alpha <= 255 * 255) by (nonlinear_arith)
        requires
            existing <= 255,
            new <= 255,
            alpha <= 255,
    ;
    assert(existing * (255 - alpha) >= 0 && new * alpha >= 0) by (nonlinear_arith)
        requires
            alpha <= 255,
    ;
    (existing * (255 - alpha) + new * alpha) / 255
}

/// Blends two packed `0xRRGGBB` colours channel by channel: `alpha` 0 keeps
/// `existing`, `alpha` 255 gives `new`. The top byte of both words is ignored.
pub fn blend_colors(existing: u32, new: u32, alpha: u32) -> (blended: u32)
    requires
        alpha <= 255,
    ensures
        blended == spec_blend(
            Color::spec_from_hex(existing),
            Color::spec_from_hex(new),
            alpha as int,
        ).spec_to_hex(),
{
    let old_color = Color::from_hex(existing);
    let new_color = Color::from_hex(new);
    let r: u32 = blend(old_color.r as u32, new_color.r as u32, alpha);
    let g: u32 = blend(old_color.g as u32, new_color.g as u32, alpha);
    let b: u32 = blend(old_color.b as u32, new_color.b as u32, alpha);
    let blended: u32 = (r << 16) | (g << 8) | b;
    assert(blended == r * 0x1_0000 + g * 0x100 + b) by (bit_vector)
        requires
            blended == (r << 16) | (g << 8) | b,
            r < 0x100,
            g < 0x100,
            b < 0x100,
    ;
    blended
}

} // verus!
