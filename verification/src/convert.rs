//! Conversion of decoded planar pictures into packed BGRA buffers.
//!
//! The dispatch logic — bit-depth gate, range and matrix selection, layout
//! dispatch and buffer sizing — is verified here; the per-pixel arithmetic is
//! delegated to the `yuv` crate behind trusted wrappers, one per conversion
//! routine.

use vstd::prelude::*;

use crate::frame::{spec_timestamp_nanos, timestamp_nanos, VideoFrame};
use crate::picture::{ColorRange, MatrixCoefficients, Picture, PixelLayout};

verus! {

/// Why a picture could not be converted.
#[derive(Debug, Clone, Copy, PartialEq, Eq, Structural)]
pub enum ConversionError {
    /// The picture's sample bit depth is not 8.
    UnsupportedDepth,
    /// The picture's planes are too small for its declared dimensions,
    /// strides and layout, or the dimensions themselves are out of range.
    InvalidPlaneLayout,
}

/// The conversion matrices the converter can apply.
#[derive(Debug, Clone, Copy, PartialEq, Eq, Structural)]
pub enum YuvMatrix {
    Bt601,
    Bt709,
    Smpte240,
    Bt2020,
}

/// The conversion matrix used for each signalled matrix-coefficients value:
/// BT.709 and SMPTE-240M map to themselves, both BT.2020 variants to BT.2020,
/// and BT.470BG, SMPTE-170M and everything unrecognized to BT.601.
pub open spec fn spec_select_matrix(m: MatrixCoefficients) -> YuvMatrix {
    match m {
        MatrixCoefficients::Bt709 => YuvMatrix::Bt709,
        MatrixCoefficients::Bt470bg | MatrixCoefficients::St170m => YuvMatrix::Bt601,
        MatrixCoefficients::St240m => YuvMatrix::Smpte240,
        MatrixCoefficients::Bt2020Ncl | MatrixCoefficients::Bt2020Cl => YuvMatrix::Bt2020,
        MatrixCoefficients::Other => YuvMatrix::Bt601,
    }
}

/// Picks the conversion matrix for a signalled matrix-coefficients value,
/// falling back to BT.601 for anything unrecognized.
pub fn select_matrix(m: MatrixCoefficients) -> (r: YuvMatrix)
    ensures
        r == spec_select_matrix(m),
{
    match m {
        MatrixCoefficients::Bt709 => YuvMatrix::Bt709,
        MatrixCoefficients::Bt470bg | MatrixCoefficients::St170m => YuvMatrix::Bt601,
        MatrixCoefficients::St240m => YuvMatrix::Smpte240,
        MatrixCoefficients::Bt2020Ncl | MatrixCoefficients::Bt2020Cl => YuvMatrix::Bt2020,
        MatrixCoefficients::Other => YuvMatrix::Bt601,
    }
}

#[verifier::external_type_specification]
#[verifier::external_body]
pub struct ExYuvError(yuv::YuvError);

#[verifier::external_type_specification]
#[verifier::external_body]
pub struct ExYuvRange(yuv::YuvRange);

#[verifier::external_type_specification]
#[verifier::external_body]
pub struct ExYuvStandardMatrix(yuv::YuvStandardMatrix);

/// Relies on the `yuv` crate's `YuvRange` enum: builds the variant matching
/// the picture's sample range, one for one.
#[verifier::external_body]
fn to_yuv_range(range: ColorRange) -> yuv::YuvRange {
    match range {
        ColorRange::Limited => yuv::YuvRange::Limited,
        ColorRange::Full => yuv::YuvRange::Full,
    }
}

/// Relies on the `yuv` crate's `YuvStandardMatrix` enum: builds the variant
/// matching the selected conversion matrix, one for one.
#[verifier::external_body]
fn to_yuv_matrix(matrix: YuvMatrix) -> yuv::YuvStandardMatrix {
    match matrix {
        YuvMatrix::Bt601 => yuv::YuvStandardMatrix::Bt601,
        YuvMatrix::Bt709 => yuv::YuvStandardMatrix::Bt709,
        YuvMatrix::Smpte240 => yuv::YuvStandardMatrix::Smpte240,
        YuvMatrix::Bt2020 => yuv::YuvStandardMatrix::Bt2020,
    }
}

/// Relies on yuv::yuv400_to_bgra: validates the luma plane and destination
/// sizes, then overwrites `out` in place with one BGRA pixel per luma sample;
/// with the sizes below the validation passes and the call returns `Ok`.
#[verifier::external_body]
fn bgra_from_yuv400(
    y: &Vec<u8>,
    y_stride: u32,
    width: u32,
    height: u32,
    out: &mut Vec<u8>,
    out_stride: u32,
    range: yuv::YuvRange,
    matrix: yuv::YuvStandardMatrix,
) -> (r: Result<(), yuv::YuvError>)
    requires
        0 < width,
        0 < height,
        width * height * 4 <= 0x7FFF_FFFF,
        y_stride <= 0x7FFF_FFFF,
        y_stride >= width,
        y@.len() >= y_stride * (height - 1) + width,
        out_stride == width * 4,
        old(out)@.len() >= out_stride * (height - 1) + width * 4,
    ensures
        final(out)@.len() == old(out)@.len(),
        r is Ok,
{
    let img = yuv::YuvGrayImage { y_plane: y.as_slice(), y_stride, width, height };
    yuv::yuv400_to_bgra(&img, out.as_mut_slice(), out_stride, range, matrix)
}

/// Relies on yuv::yuv420_to_bgra: validates plane and destination sizes for
/// 4:2:0 subsampling, then overwrites `out` in place with packed BGRA pixels;
/// with the sizes below the validation passes and the call returns `Ok`.
#[verifier::external_body]
fn bgra_from_yuv420(
    y: &Vec<u8>,
    y_stride: u32,
    u: &Vec<u8>,
    u_stride: u32,
    v: &Vec<u8>,
    v_stride: u32,
    width: u32,
    height: u32,
    out: &mut Vec<u8>,
    out_stride: u32,
    range: yuv::YuvRange,
    matrix: yuv::YuvStandardMatrix,
) -> (r: Result<(), yuv::YuvError>)
    requires
        0 < width,
        0 < height,
        width * height * 4 <= 0x7FFF_FFFF,
        y_stride <= 0x7FFF_FFFF,
        y_stride >= width,
        y@.len() >= y_stride * (height - 1) + width,
        u_stride <= 0x7FFF_FFFF,
        u_stride >= (width + 1) / 2,
        u@.len() >= u_stride * ((height + 1) / 2 - 1) + (width + 1) / 2,
        v_stride <= 0x7FFF_FFFF,
        v_stride >= (width + 1) / 2,
        v@.len() >= v_stride * ((height + 1) / 2 - 1) + (width + 1) / 2,
        out_stride == width * 4,
        old(out)@.len() >= out_stride * (height - 1) + width * 4,
    ensures
        final(out)@.len() == old(out)@.len(),
        r is Ok,
{
    let img = yuv::YuvPlanarImage {
        y_plane: y.as_slice(), y_stride, u_plane: u.as_slice(), u_stride,
        v_plane: v.as_slice(), v_stride, width, height,
    };
    yuv::yuv420_to_bgra(&img, out.as_mut_slice(), out_stride, range, matrix)
}

/// Relies on yuv::yuv422_to_bgra: validates plane and destination sizes for
/// 4:2:2 subsampling, then overwrites `out` in place with packed BGRA pixels;
/// with the sizes below the validation passes and the call returns `Ok`.
#[verifier::external_body]
fn bgra_from_yuv422(
    y: &Vec<u8>,
    y_stride: u32,
    u: &Vec<u8>,
    u_stride: u32,
    v: &Vec<u8>,
    v_stride: u32,
    width: u32,
    height: u32,
    out: &mut Vec<u8>,
    out_stride: u32,
    range: yuv::YuvRange,
    matrix: yuv::YuvStandardMatrix,
) -> (r: Result<(), yuv::YuvError>)
    requires
        0 < width,
        0 < height,
        width * height * 4 <= 0x7FFF_FFFF,
        y_stride <= 0x7FFF_FFFF,
        y_stride >= width,
        y@.len() >= y_stride * (height - 1) + width,
        u_stride <= 0x7FFF_FFFF,
        u_stride >= (width + 1) / 2,
        u@.len() >= u_stride * (height - 1) + (width + 1) / 2,
        v_stride <= 0x7FFF_FFFF,
        v_stride >= (width + 1) / 2,
        v@.len() >= v_stride * (height - 1) + (width + 1) / 2,
        out_stride == width * 4,
        old(out)@.len() >= out_stride * (height - 1) + width * 4,
    ensures
        final(out)@.len() == old(out)@.len(),
        r is Ok,
{
    let img = yuv::YuvPlanarImage {
        y_plane: y.as_slice(), y_stride, u_plane: u.as_slice(), u_stride,
        v_plane: v.as_slice(), v_stride, width, height,
    };
    yuv::yuv422_to_bgra(&img, out.as_mut_slice(), out_stride, range, matrix)
}

/// Relies on yuv::yuv444_to_bgra: validates plane and destination sizes for
/// full-resolution chroma, then overwrites `out` in place with packed BGRA
/// pixels; with the sizes below the validation passes and the call returns
/// `Ok`.
#[verifier::external_body]
fn bgra_from_yuv444(
    y: &Vec<u8>,
    y_stride: u32,
    u: &Vec<u8>,
    u_stride: u32,
    v: &Vec<u8>,
    v_stride: u32,
    width: u32,
    height: u32,
    out: &mut Vec<u8>,
    out_stride: u32,
    range: yuv::YuvRange,
    matrix: yuv::YuvStandardMatrix,
) -> (r: Result<(), yuv::YuvError>)
    requires
        0 < width,
        0 < height,
        width * height * 4 <= 0x7FFF_FFFF,
        y_stride <= 0x7FFF_FFFF,
        y_stride >= width,
        y@.len() >= y_stride * (height - 1) + width,
        u_stride <= 0x7FFF_FFFF,
        u_stride >= width,
        u@.len() >= u_stride * (height - 1) + width,
        v_stride <= 0x7FFF_FFFF,
        v_stride >= width,
        v@.len() >= v_stride * (height - 1) + width,
        out_stride == width * 4,
        old(out)@.len() >= out_stride * (height - 1) + width * 4,
    ensures
        final(out)@.len() == old(out)@.len(),
        r is Ok,
{
    let img = yuv::YuvPlanarImage {
        y_plane: y.as_slice(), y_stride, u_plane: u.as_slice(), u_stride,
        v_plane: v.as_slice(), v_stride, width, height,
    };
    yuv::yuv444_to_bgra(&img, out.as_mut_slice(), out_stride, range, matrix)
}

/// A vector of `n` zero bytes.
fn zero_vec(n: usize) -> (v: Vec<u8>)
    ensures
        v@.len() == n,
{
    let mut v: Vec<u8> = Vec::new();
    let mut i: usize = 0;
    while i < n
        invariant
            i <= n,
            v@.len() == i,
        decreases n - i,
    {
        v.push(0);
        i = i + 1;
    }
    v
}

/// Checks that the picture's planes are large enough for its declared
/// dimensions, strides and layout.
fn check_plane_layout(p: &Picture) -> (r: bool)
    ensures
        r == p.valid_plane_layout(),
{
    if p.width == 0 || p.width > 0xFFFF || p.height == 0 || p.height > 0xFFFF {
        return false;
    }
    let w = p.width as u64;
    let h = p.height as u64;
    proof {
        vstd::arithmetic::mul::lemma_mul_upper_bound(w as int, 0xFFFF, h as int, 0xFFFF);
        vstd::arithmetic::mul::lemma_mul_upper_bound(
            p.y_stride as int,
            u32::MAX as int,
            (h - 1) as int,
            0xFFFE,
        );
        vstd::arithmetic::mul::lemma_mul_upper_bound(
            p.u_stride as int,
            u32::MAX as int,
            (h - 1) as int,
            0xFFFE,
        );
        vstd::arithmetic::mul::lemma_mul_upper_bound(
            p.v_stride as int,
            u32::MAX as int,
            (h - 1) as int,
            0xFFFE,
        );
    }
    if w * h * 4 > 0x7FFF_FFFF {
        return false;
    }
    if p.y_stride > 0x7FFF_FFFF || p.u_stride > 0x7FFF_FFFF || p.v_stride > 0x7FFF_FFFF {
        return false;
    }
    if (p.y_stride as u64) < w {
        return false;
    }
    if (p.y.len() as u64) < p.y_stride as u64 * (h - 1) + w {
        return false;
    }
    if matches!(p.layout, PixelLayout::I400) {
        return true;
    }
    let cw: u64 = if matches!(p.layout, PixelLayout::I444) { w } else { (w + 1) / 2 };
    let ch: u64 = if matches!(p.layout, PixelLayout::I420) { (h + 1) / 2 } else { h };
    proof {
        vstd::arithmetic::mul::lemma_mul_upper_bound(
            p.u_stride as int,
            u32::MAX as int,
            (ch - 1) as int,
            0xFFFE,
        );
        vstd::arithmetic::mul::lemma_mul_upper_bound(
            p.v_stride as int,
            u32::MAX as int,
            (ch - 1) as int,
            0xFFFE,
        );
    }
    if (p.u_stride as u64) < cw || (p.v_stride as u64) < cw {
        return false;
    }
    if (p.u.len() as u64) < p.u_stride as u64 * (ch - 1) + cw {
        return false;
    }
    if (p.v.len() as u64) < p.v_stride as u64 * (ch - 1) + cw {
        return false;
    }
    true
}

/// Converts a decoded picture into a packed BGRA buffer of exactly
/// `width * height * 4` bytes.
///
/// Succeeds for every 8-bit picture whose planes match its declared layout;
/// a deeper bit depth is rejected as `UnsupportedDepth` and an inconsistent
/// layout as `InvalidPlaneLayout`.
pub fn yuv_to_bgr(p: &Picture) -> (r: Result<Vec<u8>, ConversionError>)
    ensures
        p.bit_depth != 8 ==> r matches Err(ConversionError::UnsupportedDepth),
        p.bit_depth == 8 && !p.valid_plane_layout() ==> r matches Err(
            ConversionError::InvalidPlaneLayout,
        ),
        p.bit_depth == 8 && p.valid_plane_layout() ==> (r matches Ok(buf) && buf@.len()
            == p.width * p.height * 4),
{
    if p.bit_depth != 8 {
        return Err(ConversionError::UnsupportedDepth);
    }
    if !check_plane_layout(p) {
        return Err(ConversionError::InvalidPlaneLayout);
    }
    let out_stride: u32 = p.width * 4;
    let size: usize = (p.width as usize) * (p.height as usize) * 4;
    let mut out = zero_vec(size);
    let range = to_yuv_range(p.range);
    let matrix = to_yuv_matrix(select_matrix(p.matrix));
    proof {
        assert(out_stride * (p.height - 1) + p.width * 4 == p.width * p.height * 4)
            by (nonlinear_arith)
            requires
                out_stride == p.width * 4,
                p.height >= 1,
        ;
    }
    let status = match p.layout {
        PixelLayout::I400 => bgra_from_yuv400(
            &p.y, p.y_stride, p.width, p.height, &mut out, out_stride, range, matrix,
        ),
        PixelLayout::I420 => bgra_from_yuv420(
            &p.y, p.y_stride, &p.u, p.u_stride, &p.v, p.v_stride, p.width, p.height,
            &mut out, out_stride, range, matrix,
        ),
        PixelLayout::I422 => bgra_from_yuv422(
            &p.y, p.y_stride, &p.u, p.u_stride, &p.v, p.v_stride, p.width, p.height,
            &mut out, out_stride, range, matrix,
        ),
        PixelLayout::I444 => bgra_from_yuv444(
            &p.y, p.y_stride, &p.u, p.u_stride, &p.v, p.v_stride, p.width, p.height,
            &mut out, out_stride, range, matrix,
        ),
    };
    match status {
        Ok(()) => Ok(out),
        Err(_) => Err(ConversionError::InvalidPlaneLayout),
    }
}

/// Converts a decoded picture into a renderer-ready frame, translating its
/// presentation timestamp from container timebase units into nanoseconds.
///
/// Succeeds exactly when [`yuv_to_bgr`] succeeds on the picture.
pub fn convert_frame(p: &Picture, timebase_num: u32, timebase_den: u32) -> (r: Result<
    VideoFrame,
    ConversionError,
>)
    requires
        timebase_den > 0,
    ensures
        p.bit_depth != 8 ==> r matches Err(ConversionError::UnsupportedDepth),
        p.bit_depth == 8 && !p.valid_plane_layout() ==> r matches Err(
            ConversionError::InvalidPlaneLayout,
        ),
        p.bit_depth == 8 && p.valid_plane_layout() ==> (r matches Ok(f) && {
            &&& f.width == p.width
            &&& f.height == p.height
            &&& f.data@.len() == p.width * p.height * 4
            &&& f.timestamp == if spec_timestamp_nanos(p.timestamp, timebase_num, timebase_den)
                > u64::MAX {
                u64::MAX as int
            } else {
                spec_timestamp_nanos(p.timestamp, timebase_num, timebase_den)
            }
        }),
{
    let data = yuv_to_bgr(p)?;
    let timestamp = timestamp_nanos(p.timestamp, timebase_num, timebase_den);
    Ok(VideoFrame { data, width: p.width, height: p.height, timestamp })
}

} // verus!
