//! Linear framebuffers: display modes, pixel addressing and rectangle
//! clipping.
use vstd::prelude::*;

verus! {

/// A linear display mode: `pitch` bytes per row, `bpp` bytes per pixel, at
/// physical address `base_addr`.
#[derive(Debug, Clone, Copy, PartialEq, Eq, Structural)]
pub struct DisplayMode {
    pub width: usize,
    pub height: usize,
    pub pitch: usize,
    pub bpp: usize,
    pub base_addr: usize,
}

impl DisplayMode {
    /// 1920x1080 at 4 bytes per pixel, at 0xFD000000.
    pub fn default_1080p() -> (r: DisplayMode)
        ensures
            r == (DisplayMode {
                width: 1920,
                height: 1080,
                pitch: 7680,
                bpp: 4,
                base_addr: 0xFD000000,
            }),
    {
        DisplayMode { width: 1920, height: 1080, pitch: 7680, bpp: 4, base_addr: 0xFD000000 }
    }
}

/// A filled rectangle to draw.
#[derive(Debug, Clone, Copy, PartialEq, Eq, Structural)]
pub struct FillRect {
    pub x: usize,
    pub y: usize,
    pub width: usize,
    pub height: usize,
    pub color: u32,
}

/// A framebuffer in a display mode.
pub struct Framebuffer {
    pub mode: DisplayMode,
}

impl Framebuffer {
    /// The framebuffer of `mode`.
    pub fn new(mode: DisplayMode) -> (r: Framebuffer)
        ensures
            r.mode == mode,
    {
        Framebuffer { mode }
    }

    /// Byte offset of pixel (`x`, `y`) from the framebuffer base, or `None`
    /// for a pixel off the screen (which drawing skips).
    pub fn pixel_offset(&self, x: usize, y: usize) -> (r: Option<usize>)
        requires
            x < self.mode.width && y < self.mode.height ==> y * self.mode.pitch + x * self.mode.bpp
                <= usize::MAX,
        ensures
            r == (if x < self.mode.width && y < self.mode.height {
                Some((y * self.mode.pitch + x * self.mode.bpp) as usize)
            } else {
                None::<usize>
            }),
    {
        if x < self.mode.width && y < self.mode.height {
            assert(0 <= y * self.mode.pitch <= y * self.mode.pitch + x * self.mode.bpp) by (nonlinear_arith)
                requires
                    x * self.mode.bpp >= 0,
                    y * self.mode.pitch >= 0,
            ;
            proof {
                vstd::arithmetic::mul::lemma_mul_nonnegative(y as int, self.mode.pitch as int);
                vstd::arithmetic::mul::lemma_mul_nonnegative(x as int, self.mode.bpp as int);
            }
            Some(y * self.mode.pitch + x * self.mode.bpp)
        } else {
            None
        }
    }

    /// The exclusive end corner of a rectangle cut to the screen: the pixel
    /// rows and columns that drawing it touches.
    pub fn clip_rect(&self, x: usize, y: usize, w: usize, h: usize) -> (r: (usize, usize))
        requires
            x + w <= usize::MAX,
            y + h <= usize::MAX,
        ensures
            r.0 == (if x + w < self.mode.width { x + w } else { self.mode.width as int }),
            r.1 == (if y + h < self.mode.height { y + h } else { self.mode.height as int }),
    {
        let max_x = if x + w < self.mode.width {
            x + w
        } else {
            self.mode.width
        };
        let max_y = if y + h < self.mode.height {
            y + h
        } else {
            self.mode.height
        };
        (max_x, max_y)
    }
}

} // verus!
