use parlab::fourcc::{
    v4l2_fourcc, v4l2_fourcc_be, V4L2_PIX_FMT_ARGB555X, V4L2_PIX_FMT_MJPEG, V4L2_PIX_FMT_RGB332,
    V4L2_PIX_FMT_Y16_BE, V4L2_PIX_FMT_YUYV,
};

#[test]
fn rgb332_code() {
    assert_eq!(v4l2_fourcc('R', 'G', 'B', '1'), 826427218);
}

#[test]
fn mjpeg_code() {
    assert_eq!(v4l2_fourcc('M', 'J', 'P', 'G'), 1196444237);
}

#[test]
fn yuyv_code_bytes_are_little_endian() {
    let c = v4l2_fourcc('Y', 'U', 'Y', 'V');
    assert_eq!(c, 1448695129);
    assert_eq!(c.to_le_bytes(), [b'Y', b'U', b'Y', b'V']);
}

#[test]
fn big_endian_variant_sets_bit_31() {
    let be = v4l2_fourcc_be('A', 'R', '1', '5');
    assert_eq!(be, 3039908417);
    assert_eq!(be & 0x7FFF_FFFF, v4l2_fourcc('A', 'R', '1', '5'));
}

#[test]
fn space_padded_code() {
    assert_eq!(v4l2_fourcc('Y', '8', 'I', ' '), 0x2049_3859);
}

#[test]
fn wide_characters_shift_out_of_range() {
    // Code points above a byte overlap the next lane; those above 24 bits lose their top.
    assert_eq!(v4l2_fourcc('\u{100}', '\0', '\0', '\0'), 0x100);
    assert_eq!(v4l2_fourcc('\0', '\0', '\0', '\u{1FF}'), 0xFF00_0000);
}

#[test]
fn named_pixel_formats_are_their_codes() {
    assert_eq!(V4L2_PIX_FMT_YUYV, v4l2_fourcc('Y', 'U', 'Y', 'V'));
    assert_eq!(V4L2_PIX_FMT_MJPEG, v4l2_fourcc('M', 'J', 'P', 'G'));
    assert_eq!(V4L2_PIX_FMT_RGB332, v4l2_fourcc('R', 'G', 'B', '1'));
    assert_eq!(V4L2_PIX_FMT_ARGB555X, v4l2_fourcc_be('A', 'R', '1', '5'));
    assert_eq!(V4L2_PIX_FMT_Y16_BE, v4l2_fourcc_be('Y', '1', '6', ' '));
}
