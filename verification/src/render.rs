//! The frame driver: one colour for every pixel of a framebuffer, each row
//! shaded on its own.

use crate::color::Color;
use crate::framebuffer::Framebuffer;
use rayon::iter::{IndexedParallelIterator, ParallelIterator};
use rayon::slice::ParallelSliceMut;
use vstd::prelude::*;

verus! {

/// Shades the pixels of row `y` from left to right.
pub fn fill_row<F: Fn(usize, usize) -> Color>(row: &mut [Color], y: usize, shade: &F)
    requires
        forall|x: usize| x < old(row)@.len() ==> shade.requires((x, y)),
    ensures
        final(row)@.len() == old(row)@.len(),
        forall|x: usize| x < old(row)@.len() ==> shade.ensures((x, y), #[trigger] final(row)@[x as int]),
{
    let len: usize = row.len();
    let mut x: usize = 0;
    while x < len
        invariant
            x <= len,
            row@.len() == len,
            len == old(row)@.len(),
            forall|k: usize| k < len ==> shade.requires((k, y)),
            forall|k: usize| k < x ==> shade.ensures((k, y), #[trigger] row@[k as int]),
        decreases len - x,
    {
        let color = shade(x, y);
        row[x] = color;
        x += 1;
    }
}

/// `par_chunks_mut`, `enumerate` and `for_each` of rayon: the buffer is cut
/// into rows of `width` colours that do not overlap, and `fill_row` runs once
/// on each row together with the row's number, rows possibly at the same time.
/// When the call returns every row has been filled. rayon panics on a chunk
/// size of zero, so `width` is asked to be positive.
#[verifier::external_body]
fn fill_rows<F: Fn(usize, usize) -> Color + Sync>(
    buffer: &mut Vec<Color>,
    width: usize,
    height: usize,
    shade: &F,
)
    requires
        width > 0,
        old(buffer)@.len() == width * height,
        forall|x: usize, y: usize| x < width && y < height ==> shade.requires((x, y)),
    ensures
        final(buffer)@.len() == old(buffer)@.len(),
        forall|x: usize, y: usize|
            x < width && y < height ==> shade.ensures(
                (x, y),
                #[trigger] final(buffer)@[y * width + x],
            ),
{
    buffer.par_chunks_mut(width).enumerate().for_each(|(y, row)| fill_row(row, y, shade));
}

/// Paints the whole framebuffer: the pixel `(x, y)` gets the colour that
/// `shade` gives for `(x, y)`. Rows may be shaded at the same time, so `shade`
/// must not depend on the order of its calls.
pub fn render<F: Fn(usize, usize) -> Color + Sync>(framebuffer: &mut Framebuffer, shade: &F)
    requires
        old(framebuffer).wf(),
        forall|x: usize, y: usize|
            x < old(framebuffer).width && y < old(framebuffer).height ==> shade.requires((x, y)),
    ensures
        final(framebuffer).wf(),
        final(framebuffer).width == old(framebuffer).width,
        final(framebuffer).height == old(framebuffer).height,
        final(framebuffer).background_color == old(framebuffer).background_color,
        final(framebuffer).current_color == old(framebuffer).current_color,
        forall|x: usize, y: usize|
            x < old(framebuffer).width && y < old(framebuffer).height ==> shade.ensures(
                (x, y),
                #[trigger] final(framebuffer).pixel(x as int, y as int),
            ),
{
    if framebuffer.width > 0 {
        fill_rows(&mut framebuffer.buffer, framebuffer.width, framebuffer.height, shade);
    }
}

} // verus!
