//! GOP framebuffer console: the geometry saved from the Graphics Output
//! Protocol before boot services end, and the pixel operations on the
//! framebuffer, modelled as a row-major buffer of `stride * height` 32-bit
//! pixels in which row `y` starts at `y * stride`.

use vstd::prelude::*;
use vstd::arithmetic::div_mod::lemma_fundamental_div_mod_converse;

verus! {

/// Pixel layout reported by the Graphics Output Protocol.
#[derive(PartialEq, Eq, Structural, Debug, Clone, Copy)]
pub enum GopPixelFormat {
    /// 32-bit pixels, 24-bit RGB, last byte reserved.
    Rgb,
    /// 32-bit pixels, 24-bit BGR, last byte reserved.
    Bgr,
    /// Custom layout given by a bitmask.
    Bitmask,
    /// No direct framebuffer access.
    BltOnly,
}

/// Framebuffer information (saved before boot services end).
#[derive(PartialEq, Eq, Structural, Debug, Clone, Copy)]
pub struct FramebufferInfo {
    /// Base address of the framebuffer.
    pub base: u64,
    /// Width in pixels.
    pub width: usize,
    /// Height in pixels.
    pub height: usize,
    /// Pixels per scan line: row offsets use this, not the width.
    pub stride: usize,
    /// Bytes per pixel.
    pub bpp: usize,
    /// Pixel format from GOP.
    pub pixel_format: GopPixelFormat,
}

/// Red in the 0x00BBGGRR layout.
pub const RED: u32 = 0x000000FF;
/// Green in the 0x00BBGGRR layout.
pub const GREEN: u32 = 0x0000FF00;
/// Blue in the 0x00BBGGRR layout.
pub const BLUE: u32 = 0x00FF0000;
/// Yellow in the 0x00BBGGRR layout.
pub const YELLOW: u32 = 0x00FFFF00;

impl FramebufferInfo {
    /// A scan line holds at least the visible width, and the whole buffer
    /// is addressable.
    pub open spec fn wf(&self) -> bool {
        &&& self.width <= self.stride
        &&& self.stride * self.height <= usize::MAX
    }

    /// Number of pixels in the buffer, padding included.
    pub open spec fn pixel_count(&self) -> int {
        self.stride * self.height
    }
}

/// The buffer fits the geometry (or there is no framebuffer).
pub open spec fn buffer_fits(info: Option<FramebufferInfo>, pixels: Seq<u32>) -> bool {
    match info {
        Some(i) => i.wf() && pixels.len() == i.pixel_count(),
        None => true,
    }
}

/// What pixel `i` holds after painting with `colour`: the colour of its
/// column and row when the column is visible, its old value in the
/// padding at the end of a scan line.
pub open spec fn paint_target(
    stride: int,
    width: int,
    before: Seq<u32>,
    colour: spec_fn(int, int) -> u32,
    i: int,
) -> u32 {
    if i % stride < width {
        colour(i % stride, i / stride)
    } else {
        before[i]
    }
}

/// `after` is `before` with every visible pixel painted by `colour`.
pub open spec fn painted(
    stride: int,
    width: int,
    before: Seq<u32>,
    after: Seq<u32>,
    colour: spec_fn(int, int) -> u32,
) -> bool {
    &&& after.len() == before.len()
    &&& forall|i: int|
        0 <= i < before.len() ==> #[trigger] after[i] == paint_target(stride, width, before, colour, i)
}

/// Colour of the test pattern at a pixel: red, green, blue and yellow
/// quadrants (top-left, top-right, bottom-left, bottom-right).
pub open spec fn quadrant_spec(width: int, height: int, x: int, y: int) -> u32 {
    let half_w = width / 2;
    let half_h = height / 2;
    if x < half_w && y < half_h {
        RED
    } else if x >= half_w && y < half_h {
        GREEN
    } else if x < half_w && y >= half_h {
        BLUE
    } else {
        YELLOW
    }
}

/// The colour used when painting in solid or test-pattern mode.
pub open spec fn paint_colour(info: FramebufferInfo, pattern: bool, color: u32) -> spec_fn(int, int) -> u32 {
    |x: int, y: int| if pattern { quadrant_spec(info.width as int, info.height as int, x, y) } else { color }
}

proof fn lemma_row_fits(stride: int, height: int, y: int)
    by (nonlinear_arith)
    requires
        0 <= y < height,
        0 <= stride,
    ensures
        y * stride + stride <= stride * height,
        0 <= y * stride,
{
}

/// Colour of the test pattern at (x, y).
pub fn quadrant_color(width: usize, height: usize, x: usize, y: usize) -> (r: u32)
    ensures
        r == quadrant_spec(width as int, height as int, x as int, y as int),
{
    let half_w = width / 2;
    let half_h = height / 2;
    if x < half_w && y < half_h {
        RED
    } else if x >= half_w && y < half_h {
        GREEN
    } else if x < half_w && y >= half_h {
        BLUE
    } else {
        YELLOW
    }
}

/// Paints every visible pixel, row by row with the stride as row offset,
/// in one colour or in the test pattern.
fn paint(info: &FramebufferInfo, pixels: &mut Vec<u32>, pattern: bool, color: u32)
    requires
        info.wf(),
        old(pixels)@.len() == info.pixel_count(),
    ensures
        painted(
            info.stride as int,
            info.width as int,
            old(pixels)@,
            final(pixels)@,
            paint_colour(*info, pattern, color),
        ),
{
    let ghost before = pixels@;
    let ghost stride = info.stride as int;
    let ghost width = info.width as int;
    let ghost colour = paint_colour(*info, pattern, color);
    let mut y: usize = 0;
    while y < info.height
        invariant
            info.wf(),
            stride == info.stride,
            width == info.width,
            colour == paint_colour(*info, pattern, color),
            y <= info.height,
            before.len() == info.pixel_count(),
            pixels@.len() == before.len(),
            0 <= y * stride <= before.len(),
            forall|i: int|
                0 <= i < y * stride ==> #[trigger] pixels@[i] == paint_target(stride, width, before, colour, i),
            forall|i: int| y * stride <= i < before.len() ==> #[trigger] pixels@[i] == before[i],
        decreases info.height - y,
    {
        proof {
            lemma_row_fits(stride, info.height as int, y as int);
        }
        let row_offset = y * info.stride;
        let mut x: usize = 0;
        while x < info.width
            invariant
                info.wf(),
                stride == info.stride,
                width == info.width,
                colour == paint_colour(*info, pattern, color),
                y < info.height,
                x <= info.width,
                row_offset == y * stride,
                row_offset + stride <= before.len(),
                before.len() == info.pixel_count(),
                pixels@.len() == before.len(),
                forall|i: int|
                    0 <= i < row_offset + x ==> #[trigger] pixels@[i] == paint_target(stride, width, before, colour, i),
                forall|i: int| row_offset + x <= i < before.len() ==> #[trigger] pixels@[i] == before[i],
            decreases info.width - x,
        {
            let c = if pattern {
                quadrant_color(info.width, info.height, x, y)
            } else {
                color
            };
            pixels.set(row_offset + x, c);
            proof {
                lemma_fundamental_div_mod_converse((row_offset + x) as int, stride, y as int, x as int);
                assert(pixels@[row_offset + x] == paint_target(stride, width, before, colour, row_offset + x));
            }
            x = x + 1;
        }
        proof {
            assert forall|i: int| 0 <= i < row_offset + stride implies #[trigger] pixels@[i] == paint_target(
                stride,
                width,
                before,
                colour,
                i,
            ) by {
                if i >= row_offset + x {
                    lemma_fundamental_div_mod_converse(i, stride, y as int, i - row_offset);
                }
            }
            assert((y + 1) * stride == row_offset + stride) by (nonlinear_arith)
                requires
                    row_offset == y * stride,
            ;
        }
        y = y + 1;
    }
    proof {
        assert(y * stride == before.len()) by (nonlinear_arith)
            requires
                y == info.height,
                stride == info.stride,
                before.len() == info.stride * info.height,
        ;
    }
}

/// Fill the entire screen with a solid colour (32-bit, 0x00BBGGRR);
/// without a framebuffer nothing changes.
pub fn fill_screen(info: &Option<FramebufferInfo>, pixels: &mut Vec<u32>, color: u32)
    requires
        buffer_fits(*info, old(pixels)@),
    ensures
        match *info {
            Some(i) => painted(i.stride as int, i.width as int, old(pixels)@, final(pixels)@, paint_colour(i, false, color)),
            None => final(pixels)@ == old(pixels)@,
        },
{
    match info {
        Some(i) => paint(i, pixels, false, color),
        None => {},
    }
}

/// Set a single pixel to a colour; a pixel outside the visible area, or
/// no framebuffer, leaves the buffer unchanged.
pub fn set_pixel(info: &Option<FramebufferInfo>, pixels: &mut Vec<u32>, x: usize, y: usize, color: u32)
    requires
        buffer_fits(*info, old(pixels)@),
    ensures
        match *info {
            Some(i) => if x < i.width && y < i.height {
                final(pixels)@ == old(pixels)@.update(y * i.stride + x, color)
            } else {
                final(pixels)@ == old(pixels)@
            },
            None => final(pixels)@ == old(pixels)@,
        },
{
    match info {
        Some(i) => {
            if x < i.width && y < i.height {
                proof {
                    lemma_row_fits(i.stride as int, i.height as int, y as int);
                }
                let offset = y * i.stride + x;
                pixels.set(offset, color);
            }
        },
        None => {},
    }
}

/// First framebuffer check: one red pixel at the top-left corner.
pub fn test_single_pixel(info: &Option<FramebufferInfo>, pixels: &mut Vec<u32>)
    requires
        buffer_fits(*info, old(pixels)@),
        info.is_some() ==> old(pixels)@.len() > 0,
    ensures
        info.is_some() ==> final(pixels)@ == old(pixels)@.update(0, RED),
        info.is_none() ==> final(pixels)@ == old(pixels)@,
{
    if info.is_some() {
        pixels.set(0, RED);
    }
}

/// Second framebuffer check: the first scan line, `width` pixels, in red.
pub fn test_single_scanline(info: &Option<FramebufferInfo>, pixels: &mut Vec<u32>)
    requires
        buffer_fits(*info, old(pixels)@),
        info.is_some() ==> info.unwrap().height > 0,
    ensures
        final(pixels)@.len() == old(pixels)@.len(),
        match *info {
            Some(i) => forall|k: int|
                0 <= k < old(pixels)@.len() ==> #[trigger] final(pixels)@[k] == if k < i.width {
                    RED
                } else {
                    old(pixels)@[k]
                },
            None => final(pixels)@ == old(pixels)@,
        },
{
    match info {
        Some(i) => {
            proof {
                lemma_row_fits(i.stride as int, i.height as int, 0);
            }
            let ghost before = pixels@;
            let mut x: usize = 0;
            while x < i.width
                invariant
                    x <= i.width,
                    i.width <= pixels@.len(),
                    pixels@.len() == before.len(),
                    forall|k: int|
                        0 <= k < before.len() ==> #[trigger] pixels@[k] == if k < x {
                            RED
                        } else {
                            before[k]
                        },
                decreases i.width - x,
            {
                pixels.set(x, RED);
                x = x + 1;
            }
        },
        None => {},
    }
}

/// Test pattern: the screen in four coloured quadrants.
pub fn display_test_pattern(info: &Option<FramebufferInfo>, pixels: &mut Vec<u32>)
    requires
        buffer_fits(*info, old(pixels)@),
    ensures
        match *info {
            Some(i) => painted(i.stride as int, i.width as int, old(pixels)@, final(pixels)@, paint_colour(i, true, 0)),
            None => final(pixels)@ == old(pixels)@,
        },
{
    match info {
        Some(i) => paint(i, pixels, true, 0),
        None => {},
    }
}

/// Green screen: the framebuffer works.
pub fn display_status(info: &Option<FramebufferInfo>, pixels: &mut Vec<u32>)
    requires
        buffer_fits(*info, old(pixels)@),
    ensures
        match *info {
            Some(i) => painted(i.stride as int, i.width as int, old(pixels)@, final(pixels)@, paint_colour(i, false, GREEN)),
            None => final(pixels)@ == old(pixels)@,
        },
{
    fill_screen(info, pixels, GREEN);
}

/// Whether a framebuffer was found.
pub fn is_available(info: &Option<FramebufferInfo>) -> (r: bool)
    ensures
        r == info.is_some(),
{
    info.is_some()
}

} // verus!
