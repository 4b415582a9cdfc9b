//! Color conversion dispatch and the conversion routines themselves.

use av1_video::convert::{convert_frame, select_matrix, yuv_to_bgr, ConversionError, YuvMatrix};
use av1_video::picture::{ColorRange, MatrixCoefficients, Picture, PixelLayout};

fn picture_i420(w: u32, h: u32, y: u8, u: u8, v: u8, range: ColorRange) -> Picture {
    let cw = (w + 1) / 2;
    let ch = (h + 1) / 2;
    Picture {
        y: vec![y; (w * h) as usize],
        u: vec![u; (cw * ch) as usize],
        v: vec![v; (cw * ch) as usize],
        y_stride: w,
        u_stride: cw,
        v_stride: cw,
        width: w,
        height: h,
        bit_depth: 8,
        layout: PixelLayout::I420,
        range,
        matrix: MatrixCoefficients::Bt470bg,
        timestamp: 0,
    }
}

#[test]
fn matrix_selection_follows_signalled_coefficients() {
    assert_eq!(select_matrix(MatrixCoefficients::Bt709), YuvMatrix::Bt709);
    assert_eq!(select_matrix(MatrixCoefficients::Bt470bg), YuvMatrix::Bt601);
    assert_eq!(select_matrix(MatrixCoefficients::St170m), YuvMatrix::Bt601);
    assert_eq!(select_matrix(MatrixCoefficients::St240m), YuvMatrix::Smpte240);
    assert_eq!(select_matrix(MatrixCoefficients::Bt2020Ncl), YuvMatrix::Bt2020);
    assert_eq!(select_matrix(MatrixCoefficients::Bt2020Cl), YuvMatrix::Bt2020);
    assert_eq!(select_matrix(MatrixCoefficients::Other), YuvMatrix::Bt601);
}

#[test]
fn limited_range_black_converts_to_black_pixels() {
    // All samples at the limited-range black point: Y=16, U=V=128.
    let p = picture_i420(4, 4, 16, 128, 128, ColorRange::Limited);
    let buf = yuv_to_bgr(&p).unwrap();
    assert_eq!(buf.len(), 4 * 4 * 4);
    for px in buf.chunks(4) {
        assert!(px[0] <= 2, "blue not black: {}", px[0]);
        assert!(px[1] <= 2, "green not black: {}", px[1]);
        assert!(px[2] <= 2, "red not black: {}", px[2]);
        assert_eq!(px[3], 255);
    }
}

#[test]
fn limited_range_red_converts_to_red_pixels() {
    // BT.601 limited-range primary red: Y=81, U=90, V=240.
    let p = picture_i420(4, 2, 81, 90, 240, ColorRange::Limited);
    let buf = yuv_to_bgr(&p).unwrap();
    assert_eq!(buf.len(), 4 * 2 * 4);
    for px in buf.chunks(4) {
        assert!(px[0] <= 30, "blue too high: {}", px[0]);
        assert!(px[1] <= 30, "green too high: {}", px[1]);
        assert!(px[2] >= 230, "red too low: {}", px[2]);
        assert_eq!(px[3], 255);
    }
}

#[test]
fn monochrome_white_converts_to_white_pixels() {
    let p = Picture {
        y: vec![235; 9],
        u: Vec::new(),
        v: Vec::new(),
        y_stride: 3,
        u_stride: 0,
        v_stride: 0,
        width: 3,
        height: 3,
        bit_depth: 8,
        layout: PixelLayout::I400,
        range: ColorRange::Limited,
        matrix: MatrixCoefficients::Other,
        timestamp: 0,
    };
    let buf = yuv_to_bgr(&p).unwrap();
    assert_eq!(buf.len(), 3 * 3 * 4);
    for px in buf.chunks(4) {
        assert!(px[0] >= 250 && px[1] >= 250 && px[2] >= 250);
        assert_eq!(px[3], 255);
    }
}

#[test]
fn full_range_gray_stays_gray() {
    let p = Picture {
        y: vec![128; 4],
        u: vec![128; 4],
        v: vec![128; 4],
        y_stride: 2,
        u_stride: 2,
        v_stride: 2,
        width: 2,
        height: 2,
        bit_depth: 8,
        layout: PixelLayout::I444,
        range: ColorRange::Full,
        matrix: MatrixCoefficients::Bt709,
        timestamp: 0,
    };
    let buf = yuv_to_bgr(&p).unwrap();
    for px in buf.chunks(4) {
        assert!(px[0] >= 126 && px[0] <= 130);
        assert!(px[1] >= 126 && px[1] <= 130);
        assert!(px[2] >= 126 && px[2] <= 130);
        assert_eq!(px[3], 255);
    }
}

#[test]
fn i422_layout_converts_with_half_width_chroma() {
    let p = Picture {
        y: vec![128; 4 * 2],
        u: vec![128; 2 * 2],
        v: vec![128; 2 * 2],
        y_stride: 4,
        u_stride: 2,
        v_stride: 2,
        width: 4,
        height: 2,
        bit_depth: 8,
        layout: PixelLayout::I422,
        range: ColorRange::Limited,
        matrix: MatrixCoefficients::Bt470bg,
        timestamp: 0,
    };
    let buf = yuv_to_bgr(&p).unwrap();
    assert_eq!(buf.len(), 4 * 2 * 4);
}

#[test]
fn padded_strides_are_accepted() {
    // Rows padded beyond the pixel width, as decoders commonly hand out.
    let p = Picture {
        y: vec![16; 8 * 4],
        u: vec![128; 8 * 2],
        v: vec![128; 8 * 2],
        y_stride: 8,
        u_stride: 8,
        v_stride: 8,
        width: 5,
        height: 4,
        bit_depth: 8,
        layout: PixelLayout::I420,
        range: ColorRange::Limited,
        matrix: MatrixCoefficients::Bt470bg,
        timestamp: 0,
    };
    let buf = yuv_to_bgr(&p).unwrap();
    assert_eq!(buf.len(), 5 * 4 * 4);
}

#[test]
fn deep_bit_depth_is_rejected() {
    let mut p = picture_i420(4, 4, 16, 128, 128, ColorRange::Limited);
    p.bit_depth = 10;
    assert_eq!(yuv_to_bgr(&p).unwrap_err(), ConversionError::UnsupportedDepth);
}

#[test]
fn undersized_luma_plane_is_rejected() {
    let mut p = picture_i420(4, 4, 16, 128, 128, ColorRange::Limited);
    p.y.truncate(3);
    assert_eq!(yuv_to_bgr(&p).unwrap_err(), ConversionError::InvalidPlaneLayout);
}

#[test]
fn undersized_chroma_plane_is_rejected() {
    let mut p = picture_i420(4, 4, 16, 128, 128, ColorRange::Limited);
    p.u.truncate(1);
    assert_eq!(yuv_to_bgr(&p).unwrap_err(), ConversionError::InvalidPlaneLayout);
}

#[test]
fn zero_width_is_rejected() {
    let mut p = picture_i420(4, 4, 16, 128, 128, ColorRange::Limited);
    p.width = 0;
    assert_eq!(yuv_to_bgr(&p).unwrap_err(), ConversionError::InvalidPlaneLayout);
}

#[test]
fn convert_frame_translates_timestamp_to_nanoseconds() {
    let mut p = picture_i420(4, 4, 16, 128, 128, ColorRange::Limited);
    p.timestamp = 2;
    let f = convert_frame(&p, 1, 30).unwrap();
    assert_eq!(f.width, 4);
    assert_eq!(f.height, 4);
    assert_eq!(f.data.len(), 4 * 4 * 4);
    assert_eq!(f.timestamp, 66_666_666);
}

#[test]
fn convert_frame_rejects_deep_depth() {
    let mut p = picture_i420(4, 4, 16, 128, 128, ColorRange::Limited);
    p.bit_depth = 12;
    assert_eq!(convert_frame(&p, 1, 30).unwrap_err(), ConversionError::UnsupportedDepth);
}
