//! A decoded picture in planar YUV form.
//!
//! The external codec hands back pictures as one luma plane plus, except for
//! monochrome streams, two chroma planes, each with its own row stride. This
//! module models such a picture as plain byte vectors together with the
//! metadata the color converter dispatches on.

use vstd::prelude::*;

verus! {

/// Chroma subsampling layout of a decoded picture.
#[derive(Debug, Clone, Copy, PartialEq, Eq, Structural)]
pub enum PixelLayout {
    /// Monochrome: a single luma plane.
    I400,
    /// 4:2:0: chroma planes halved in both directions.
    I420,
    /// 4:2:2: chroma planes halved horizontally.
    I422,
    /// 4:4:4: chroma planes at full resolution.
    I444,
}

/// Sample value range of a decoded picture.
#[derive(Debug, Clone, Copy, PartialEq, Eq, Structural)]
pub enum ColorRange {
    /// Studio swing: luma 16..=235 at 8-bit depth.
    Limited,
    /// Full swing: samples use the whole 0..=255 range.
    Full,
}

/// Matrix coefficients signalled in the bitstream, reduced to the values the
/// converter distinguishes; everything else arrives as `Other`.
#[derive(Debug, Clone, Copy, PartialEq, Eq, Structural)]
pub enum MatrixCoefficients {
    Bt709,
    Bt470bg,
    St170m,
    St240m,
    Bt2020Ncl,
    Bt2020Cl,
    Other,
}

/// One decoded planar picture plus the metadata needed to convert it.
///
/// For the monochrome layout the chroma planes are unused and may be empty.
#[derive(Debug)]
pub struct Picture {
    /// Luma plane, rows `y_stride` bytes apart.
    pub y: Vec<u8>,
    /// First chroma plane.
    pub u: Vec<u8>,
    /// Second chroma plane.
    pub v: Vec<u8>,
    /// Bytes per luma row.
    pub y_stride: u32,
    /// Bytes per row of the first chroma plane.
    pub u_stride: u32,
    /// Bytes per row of the second chroma plane.
    pub v_stride: u32,
    /// Picture width in pixels.
    pub width: u32,
    /// Picture height in pixels.
    pub height: u32,
    /// Bits per sample; only 8 is convertible.
    pub bit_depth: u8,
    /// Chroma subsampling layout.
    pub layout: PixelLayout,
    /// Sample range.
    pub range: ColorRange,
    /// Matrix coefficients.
    pub matrix: MatrixCoefficients,
    /// Presentation timestamp in container timebase units.
    pub timestamp: u64,
}

/// Width in samples of a chroma plane for the given layout.
pub open spec fn chroma_width(layout: PixelLayout, w: int) -> int {
    match layout {
        PixelLayout::I400 => 0,
        PixelLayout::I420 | PixelLayout::I422 => (w + 1) / 2,
        PixelLayout::I444 => w,
    }
}

/// Height in rows of a chroma plane for the given layout.
pub open spec fn chroma_height(layout: PixelLayout, h: int) -> int {
    match layout {
        PixelLayout::I400 => 0,
        PixelLayout::I420 => (h + 1) / 2,
        PixelLayout::I422 | PixelLayout::I444 => h,
    }
}

impl Picture {
    /// The planes are large enough for the declared dimensions, strides and
    /// layout, and the dimensions are non-zero and no larger than a container
    /// header can declare.
    pub open spec fn valid_plane_layout(self) -> bool {
        &&& 0 < self.width <= 0xFFFF
        &&& 0 < self.height <= 0xFFFF
        &&& self.width * self.height * 4 <= 0x7FFF_FFFF
        &&& self.y_stride <= 0x7FFF_FFFF
        &&& self.u_stride <= 0x7FFF_FFFF
        &&& self.v_stride <= 0x7FFF_FFFF
        &&& self.y_stride >= self.width
        &&& self.y@.len() >= self.y_stride * (self.height - 1) + self.width
        &&& self.layout != PixelLayout::I400 ==> {
            let cw = chroma_width(self.layout, self.width as int);
            let ch = chroma_height(self.layout, self.height as int);
            &&& self.u_stride >= cw
            &&& self.u@.len() >= self.u_stride * (ch - 1) + cw
            &&& self.v_stride >= cw
            &&& self.v@.len() >= self.v_stride * (ch - 1) + cw
        }
    }
}

} // verus!
