use vstd::prelude::*;

verus! {

/// A four-character code from the code points of its four characters: the
/// first in the lowest byte, each next one shifted eight bits further up
/// (bits shifted past bit 31 are dropped).
pub open spec fn fourcc_code(a: u32, b: u32, c: u32, d: u32) -> u32 {
    a | (b << 8u32) | (c << 16u32) | (d << 24u32)
}

/// The big-endian variant of a code: the same code with bit 31 set.
pub open spec fn fourcc_be_code(a: u32, b: u32, c: u32, d: u32) -> u32 {
    fourcc_code(a, b, c, d) | 0x8000_0000u32
}

/// The V4L2 four-character code of `a`, `b`, `c`, `d`.
pub fn v4l2_fourcc(a: char, b: char, c: char, d: char) -> (r: u32)
    ensures
        r == fourcc_code(a as u32, b as u32, c as u32, d as u32),
{
    (a as u32) | ((b as u32) << 8u32) | ((c as u32) << 16u32) | ((d as u32) << 24u32)
}

/// The V4L2 four-character code of `a`, `b`, `c`, `d` with the big-endian
/// flag (bit 31) set.
pub fn v4l2_fourcc_be(a: char, b: char, c: char, d: char) -> (r: u32)
    ensures
        r == fourcc_be_code(a as u32, b as u32, c as u32, d as u32),
{
    let code = v4l2_fourcc(a, b, c, d);
    let r = code | (1u32 << 31u32);
    assert(r == code | 0x8000_0000u32) by (bit_vector)
        requires
            r == code | (1u32 << 31u32),
    ;
    r
}

/// For characters that fit a byte, the code stores them little-endian: it is
/// the number `a + 256 b + 65536 c + 16777216 d`, and byte `i` of it is the
/// `i`-th character.
pub proof fn lemma_fourcc_bytes(a: u32, b: u32, c: u32, d: u32)
    requires
        a < 256,
        b < 256,
        c < 256,
        d < 256,
    ensures
        fourcc_code(a, b, c, d) == a + 256 * b + 65536 * c + 16777216 * d,
        fourcc_code(a, b, c, d) % 256 == a,
        (fourcc_code(a, b, c, d) / 256) % 256 == b,
        (fourcc_code(a, b, c, d) / 65536) % 256 == c,
        fourcc_code(a, b, c, d) / 16777216 == d,
{
    assert((a | (b << 8u32) | (c << 16u32) | (d << 24u32)) == a + 256 * b + 65536 * c + 16777216
        * d) by (bit_vector)
        requires
            a < 256,
            b < 256,
            c < 256,
            d < 256,
    ;
}

/// For characters of seven bits, the big-endian code is the plain code plus
/// 2^31, and clearing bit 31 gives the plain code back.
pub proof fn lemma_fourcc_be_flag(a: u32, b: u32, c: u32, d: u32)
    requires
        a < 256,
        b < 256,
        c < 256,
        d < 128,
    ensures
        fourcc_be_code(a, b, c, d) == fourcc_code(a, b, c, d) + 0x8000_0000,
        fourcc_be_code(a, b, c, d) & 0x7FFF_FFFFu32 == fourcc_code(a, b, c, d),
{
    assert(((a | (b << 8u32) | (c << 16u32) | (d << 24u32)) | 0x8000_0000u32) == (a | (b << 8u32)
        | (c << 16u32) | (d << 24u32)) + 0x8000_0000) by (bit_vector)
        requires
            a < 256,
            b < 256,
            c < 256,
            d < 128,
    ;
    assert((((a | (b << 8u32) | (c << 16u32) | (d << 24u32)) | 0x8000_0000u32) & 0x7FFF_FFFFu32)
        == (a | (b << 8u32) | (c << 16u32) | (d << 24u32))) by (bit_vector)
        requires
            a < 256,
            b < 256,
            c < 256,
            d < 128,
    ;
}

/// Distinct byte-sized character quadruples have distinct codes.
pub proof fn lemma_fourcc_injective(
    a1: u32,
    b1: u32,
    c1: u32,
    d1: u32,
    a2: u32,
    b2: u32,
    c2: u32,
    d2: u32,
)
    requires
        a1 < 256,
        b1 < 256,
        c1 < 256,
        d1 < 256,
        a2 < 256,
        b2 < 256,
        c2 < 256,
        d2 < 256,
        fourcc_code(a1, b1, c1, d1) == fourcc_code(a2, b2, c2, d2),
    ensures
        a1 == a2 && b1 == b2 && c1 == c2 && d1 == d2,
{
    lemma_fourcc_bytes(a1, b1, c1, d1);
    lemma_fourcc_bytes(a2, b2, c2, d2);
}

// The V4L2 pixel and metadata formats, each as its four-character code.

/// The code of `RGB1`: 8  RGB-3-3-2.
pub const V4L2_PIX_FMT_RGB332: u32 = 0x31424752;

/// The code of `R444`: 16  xxxxrrrr ggggbbbb.
pub const V4L2_PIX_FMT_RGB444: u32 = 0x34343452;

/// The code of `AR12`: 16  aaaarrrr ggggbbbb.
pub const V4L2_PIX_FMT_ARGB444: u32 = 0x32315241;

/// The code of `XR12`: 16  xxxxrrrr ggggbbbb.
pub const V4L2_PIX_FMT_XRGB444: u32 = 0x32315258;

/// The code of `RA12`: 16  rrrrgggg bbbbaaaa.
pub const V4L2_PIX_FMT_RGBA444: u32 = 0x32314152;

/// The code of `RX12`: 16  rrrrgggg bbbbxxxx.
pub const V4L2_PIX_FMT_RGBX444: u32 = 0x32315852;

/// The code of `AB12`: 16  aaaabbbb ggggrrrr.
pub const V4L2_PIX_FMT_ABGR444: u32 = 0x32314241;

/// The code of `XB12`: 16  xxxxbbbb ggggrrrr.
pub const V4L2_PIX_FMT_XBGR444: u32 = 0x32314258;

/// The code of `GA12`: 16  bbbbgggg rrrraaaa.
pub const V4L2_PIX_FMT_BGRA444: u32 = 0x32314147;

/// The code of `BX12`: 16  bbbbgggg rrrrxxxx.
pub const V4L2_PIX_FMT_BGRX444: u32 = 0x32315842;

/// The code of `RGBO`: 16  RGB-5-5-5.
pub const V4L2_PIX_FMT_RGB555: u32 = 0x4f424752;

/// The code of `AR15`: 16  ARGB-1-5-5-5.
pub const V4L2_PIX_FMT_ARGB555: u32 = 0x35315241;

/// The code of `XR15`: 16  XRGB-1-5-5-5.
pub const V4L2_PIX_FMT_XRGB555: u32 = 0x35315258;

/// The code of `RA15`: 16  RGBA-5-5-5-1.
pub const V4L2_PIX_FMT_RGBA555: u32 = 0x35314152;

/// The code of `RX15`: 16  RGBX-5-5-5-1.
pub const V4L2_PIX_FMT_RGBX555: u32 = 0x35315852;

/// The code of `AB15`: 16  ABGR-1-5-5-5.
pub const V4L2_PIX_FMT_ABGR555: u32 = 0x35314241;

/// The code of `XB15`: 16  XBGR-1-5-5-5.
pub const V4L2_PIX_FMT_XBGR555: u32 = 0x35314258;

/// The code of `BA15`: 16  BGRA-5-5-5-1.
pub const V4L2_PIX_FMT_BGRA555: u32 = 0x35314142;

/// The code of `BX15`: 16  BGRX-5-5-5-1.
pub const V4L2_PIX_FMT_BGRX555: u32 = 0x35315842;

/// The code of `RGBP`: 16  RGB-5-6-5.
pub const V4L2_PIX_FMT_RGB565: u32 = 0x50424752;

/// The code of `RGBQ`: 16  RGB-5-5-5 BE.
pub const V4L2_PIX_FMT_RGB555X: u32 = 0x51424752;

/// The code of `AR15` with the big-endian flag: 16  ARGB-5-5-5 BE.
pub const V4L2_PIX_FMT_ARGB555X: u32 = 0xb5315241;

/// The code of `XR15` with the big-endian flag: 16  XRGB-5-5-5 BE.
pub const V4L2_PIX_FMT_XRGB555X: u32 = 0xb5315258;

/// The code of `RGBR`: 16  RGB-5-6-5 BE.
pub const V4L2_PIX_FMT_RGB565X: u32 = 0x52424752;

/// The code of `BGRH`: 18  BGR-6-6-6.
pub const V4L2_PIX_FMT_BGR666: u32 = 0x48524742;

/// The code of `BGR3`: 24  BGR-8-8-8.
pub const V4L2_PIX_FMT_BGR24: u32 = 0x33524742;

/// The code of `RGB3`: 24  RGB-8-8-8.
pub const V4L2_PIX_FMT_RGB24: u32 = 0x33424752;

/// The code of `BGR4`: 32  BGR-8-8-8-8.
pub const V4L2_PIX_FMT_BGR32: u32 = 0x34524742;

/// The code of `AR24`: 32  BGRA-8-8-8-8.
pub const V4L2_PIX_FMT_ABGR32: u32 = 0x34325241;

/// The code of `XR24`: 32  BGRX-8-8-8-8.
pub const V4L2_PIX_FMT_XBGR32: u32 = 0x34325258;

/// The code of `RA24`: 32  ABGR-8-8-8-8.
pub const V4L2_PIX_FMT_BGRA32: u32 = 0x34324152;

/// The code of `RX24`: 32  XBGR-8-8-8-8.
pub const V4L2_PIX_FMT_BGRX32: u32 = 0x34325852;

/// The code of `RGB4`: 32  RGB-8-8-8-8.
pub const V4L2_PIX_FMT_RGB32: u32 = 0x34424752;

/// The code of `AB24`: 32  RGBA-8-8-8-8.
pub const V4L2_PIX_FMT_RGBA32: u32 = 0x34324241;

/// The code of `XB24`: 32  RGBX-8-8-8-8.
pub const V4L2_PIX_FMT_RGBX32: u32 = 0x34324258;

/// The code of `BA24`: 32  ARGB-8-8-8-8.
pub const V4L2_PIX_FMT_ARGB32: u32 = 0x34324142;

/// The code of `BX24`: 32  XRGB-8-8-8-8.
pub const V4L2_PIX_FMT_XRGB32: u32 = 0x34325842;

/// The code of `RX30`: 32  RGBX-10-10-10-2.
pub const V4L2_PIX_FMT_RGBX1010102: u32 = 0x30335852;

/// The code of `RA30`: 32  RGBA-10-10-10-2.
pub const V4L2_PIX_FMT_RGBA1010102: u32 = 0x30334152;

/// The code of `AR30`: 32  ARGB-2-10-10-10.
pub const V4L2_PIX_FMT_ARGB2101010: u32 = 0x30335241;

/// The code of `B312`: 48  BGR 12-bit per component.
pub const V4L2_PIX_FMT_BGR48_12: u32 = 0x32313342;

/// The code of `BGR6`: 48  BGR 16-bit per component.
pub const V4L2_PIX_FMT_BGR48: u32 = 0x36524742;

/// The code of `RGB6`: 48  RGB 16-bit per component.
pub const V4L2_PIX_FMT_RGB48: u32 = 0x36424752;

/// The code of `B412`: 64  BGRA 12-bit per component.
pub const V4L2_PIX_FMT_ABGR64_12: u32 = 0x32313442;

/// The code of `GREY`: 8  Greyscale.
pub const V4L2_PIX_FMT_GREY: u32 = 0x59455247;

/// The code of `Y04 `: 4  Greyscale.
pub const V4L2_PIX_FMT_Y4: u32 = 0x20343059;

/// The code of `Y06 `: 6  Greyscale.
pub const V4L2_PIX_FMT_Y6: u32 = 0x20363059;

/// The code of `Y10 `: 10  Greyscale.
pub const V4L2_PIX_FMT_Y10: u32 = 0x20303159;

/// The code of `Y12 `: 12  Greyscale.
pub const V4L2_PIX_FMT_Y12: u32 = 0x20323159;

/// The code of `Y012`: 12  Greyscale.
pub const V4L2_PIX_FMT_Y012: u32 = 0x32313059;

/// The code of `Y14 `: 14  Greyscale.
pub const V4L2_PIX_FMT_Y14: u32 = 0x20343159;

/// The code of `Y16 `: 16  Greyscale.
pub const V4L2_PIX_FMT_Y16: u32 = 0x20363159;

/// The code of `Y16 ` with the big-endian flag: 16  Greyscale BE.
pub const V4L2_PIX_FMT_Y16_BE: u32 = 0xa0363159;

/// The code of `Y10B`: 10  Greyscale bit-packed.
pub const V4L2_PIX_FMT_Y10BPACK: u32 = 0x42303159;

/// The code of `Y10P`: 10  Greyscale, MIPI RAW10 packed.
pub const V4L2_PIX_FMT_Y10P: u32 = 0x50303159;

/// The code of `ip3y`: IPU3 packed 10-bit greyscale.
pub const V4L2_PIX_FMT_IPU3_Y10: u32 = 0x79337069;

/// The code of `Y12P`: 12  Greyscale, MIPI RAW12 packed.
pub const V4L2_PIX_FMT_Y12P: u32 = 0x50323159;

/// The code of `Y14P`: 14  Greyscale, MIPI RAW14 packed.
pub const V4L2_PIX_FMT_Y14P: u32 = 0x50343159;

/// The code of `PAL8`: 8  8-bit palette.
pub const V4L2_PIX_FMT_PAL8: u32 = 0x384c4150;

/// The code of `UV8 `: 8  UV 4:4.
pub const V4L2_PIX_FMT_UV8: u32 = 0x20385655;

/// The code of `YUYV`: 16  YUV 4:2:2.
pub const V4L2_PIX_FMT_YUYV: u32 = 0x56595559;

/// The code of `YYUV`: 16  YUV 4:2:2.
pub const V4L2_PIX_FMT_YYUV: u32 = 0x56555959;

/// The code of `YVYU`: 16 YVU 4:2:2.
pub const V4L2_PIX_FMT_YVYU: u32 = 0x55595659;

/// The code of `UYVY`: 16  YUV 4:2:2.
pub const V4L2_PIX_FMT_UYVY: u32 = 0x59565955;

/// The code of `VYUY`: 16  YUV 4:2:2.
pub const V4L2_PIX_FMT_VYUY: u32 = 0x59555956;

/// The code of `Y41P`: 12  YUV 4:1:1.
pub const V4L2_PIX_FMT_Y41P: u32 = 0x50313459;

/// The code of `Y444`: 16  xxxxyyyy uuuuvvvv.
pub const V4L2_PIX_FMT_YUV444: u32 = 0x34343459;

/// The code of `YUVO`: 16  YUV-5-5-5.
pub const V4L2_PIX_FMT_YUV555: u32 = 0x4f565559;

/// The code of `YUVP`: 16  YUV-5-6-5.
pub const V4L2_PIX_FMT_YUV565: u32 = 0x50565559;

/// The code of `YUV3`: 24  YUV-8-8-8.
pub const V4L2_PIX_FMT_YUV24: u32 = 0x33565559;

/// The code of `YUV4`: 32  YUV-8-8-8-8.
pub const V4L2_PIX_FMT_YUV32: u32 = 0x34565559;

/// The code of `AYUV`: 32  AYUV-8-8-8-8.
pub const V4L2_PIX_FMT_AYUV32: u32 = 0x56555941;

/// The code of `XYUV`: 32  XYUV-8-8-8-8.
pub const V4L2_PIX_FMT_XYUV32: u32 = 0x56555958;

/// The code of `VUYA`: 32  VUYA-8-8-8-8.
pub const V4L2_PIX_FMT_VUYA32: u32 = 0x41595556;

/// The code of `VUYX`: 32  VUYX-8-8-8-8.
pub const V4L2_PIX_FMT_VUYX32: u32 = 0x58595556;

/// The code of `YUVA`: 32  YUVA-8-8-8-8.
pub const V4L2_PIX_FMT_YUVA32: u32 = 0x41565559;

/// The code of `YUVX`: 32  YUVX-8-8-8-8.
pub const V4L2_PIX_FMT_YUVX32: u32 = 0x58565559;

/// The code of `M420`: 12  YUV 4:2:0 2 lines y, 1 line uv interleaved.
pub const V4L2_PIX_FMT_M420: u32 = 0x3032344d;

/// The code of `Y312`: 48  YUV 4:4:4 12-bit per component.
pub const V4L2_PIX_FMT_YUV48_12: u32 = 0x32313359;

/// The code of `Y210`: 32  YUYV 4:2:2.
pub const V4L2_PIX_FMT_Y210: u32 = 0x30313259;

/// The code of `Y212`: 32  YUYV 4:2:2.
pub const V4L2_PIX_FMT_Y212: u32 = 0x32313259;

/// The code of `Y216`: 32  YUYV 4:2:2.
pub const V4L2_PIX_FMT_Y216: u32 = 0x36313259;

/// The code of `NV12`: 12  Y/CbCr 4:2:0.
pub const V4L2_PIX_FMT_NV12: u32 = 0x3231564e;

/// The code of `NV21`: 12  Y/CrCb 4:2:0.
pub const V4L2_PIX_FMT_NV21: u32 = 0x3132564e;

/// The code of `NV15`: 15  Y/CbCr 4:2:0 10-bit packed.
pub const V4L2_PIX_FMT_NV15: u32 = 0x3531564e;

/// The code of `NV16`: 16  Y/CbCr 4:2:2.
pub const V4L2_PIX_FMT_NV16: u32 = 0x3631564e;

/// The code of `NV61`: 16  Y/CrCb 4:2:2.
pub const V4L2_PIX_FMT_NV61: u32 = 0x3136564e;

/// The code of `NV20`: 20  Y/CbCr 4:2:2 10-bit packed.
pub const V4L2_PIX_FMT_NV20: u32 = 0x3032564e;

/// The code of `NV24`: 24  Y/CbCr 4:4:4.
pub const V4L2_PIX_FMT_NV24: u32 = 0x3432564e;

/// The code of `NV42`: 24  Y/CrCb 4:4:4.
pub const V4L2_PIX_FMT_NV42: u32 = 0x3234564e;

/// The code of `P010`: 24  Y/CbCr 4:2:0 10-bit per component.
pub const V4L2_PIX_FMT_P010: u32 = 0x30313050;

/// The code of `P012`: 24  Y/CbCr 4:2:0 12-bit per component.
pub const V4L2_PIX_FMT_P012: u32 = 0x32313050;

/// The code of `NM12`: 12  Y/CbCr 4:2:0.
pub const V4L2_PIX_FMT_NV12M: u32 = 0x32314d4e;

/// The code of `NM21`: 21  Y/CrCb 4:2:0.
pub const V4L2_PIX_FMT_NV21M: u32 = 0x31324d4e;

/// The code of `NM16`: 16  Y/CbCr 4:2:2.
pub const V4L2_PIX_FMT_NV16M: u32 = 0x36314d4e;

/// The code of `NM61`: 16  Y/CrCb 4:2:2.
pub const V4L2_PIX_FMT_NV61M: u32 = 0x31364d4e;

/// The code of `PM12`: 24  Y/CbCr 4:2:0 12-bit per component.
pub const V4L2_PIX_FMT_P012M: u32 = 0x32314d50;

/// The code of `YUV9`: 9  YUV 4:1:0.
pub const V4L2_PIX_FMT_YUV410: u32 = 0x39565559;

/// The code of `YVU9`: 9  YVU 4:1:0.
pub const V4L2_PIX_FMT_YVU410: u32 = 0x39555659;

/// The code of `411P`: 12  YVU411 planar.
pub const V4L2_PIX_FMT_YUV411P: u32 = 0x50313134;

/// The code of `YU12`: 12  YUV 4:2:0.
pub const V4L2_PIX_FMT_YUV420: u32 = 0x32315559;

/// The code of `YV12`: 12  YVU 4:2:0.
pub const V4L2_PIX_FMT_YVU420: u32 = 0x32315659;

/// The code of `422P`: 16  YVU422 planar.
pub const V4L2_PIX_FMT_YUV422P: u32 = 0x50323234;

/// The code of `YM12`: 12  YUV420 planar.
pub const V4L2_PIX_FMT_YUV420M: u32 = 0x32314d59;

/// The code of `YM21`: 12  YVU420 planar.
pub const V4L2_PIX_FMT_YVU420M: u32 = 0x31324d59;

/// The code of `YM16`: 16  YUV422 planar.
pub const V4L2_PIX_FMT_YUV422M: u32 = 0x36314d59;

/// The code of `YM61`: 16  YVU422 planar.
pub const V4L2_PIX_FMT_YVU422M: u32 = 0x31364d59;

/// The code of `YM24`: 24  YUV444 planar.
pub const V4L2_PIX_FMT_YUV444M: u32 = 0x34324d59;

/// The code of `YM42`: 24  YVU444 planar.
pub const V4L2_PIX_FMT_YVU444M: u32 = 0x32344d59;

/// The code of `VT12`: 12  Y/CbCr 4:2:0  4x4 tiles.
pub const V4L2_PIX_FMT_NV12_4L4: u32 = 0x32315456;

/// The code of `HM12`: 12  Y/CbCr 4:2:0 16x16 tiles.
pub const V4L2_PIX_FMT_NV12_16L16: u32 = 0x32314d48;

/// The code of `ST12`: 12  Y/CbCr 4:2:0 32x32 tiles.
pub const V4L2_PIX_FMT_NV12_32L32: u32 = 0x32315453;

/// The code of `VT15`: 15 Y/CbCr 4:2:0 10-bit 4x4 tiles.
pub const V4L2_PIX_FMT_NV15_4L4: u32 = 0x35315456;

/// The code of `T010`: 12  Y/CbCr 4:2:0 10-bit 4x4 macroblocks.
pub const V4L2_PIX_FMT_P010_4L4: u32 = 0x30313054;

/// The code of `AT12`: Y/CbCr 4:2:0 8x128 tiles.
pub const V4L2_PIX_FMT_NV12_8L128: u32 = 0x32315441;

/// The code of `AX12` with the big-endian flag: Y/CbCr 4:2:0 10-bit 8x128 tiles.
pub const V4L2_PIX_FMT_NV12_10BE_8L128: u32 = 0xb2315841;

/// The code of `TM12`: 12  Y/CbCr 4:2:0 64x32 tiles.
pub const V4L2_PIX_FMT_NV12MT: u32 = 0x32314d54;

/// The code of `VM12`: 12  Y/CbCr 4:2:0 16x16 tiles.
pub const V4L2_PIX_FMT_NV12MT_16X16: u32 = 0x32314d56;

/// The code of `NA12`: Y/CbCr 4:2:0 8x128 tiles.
pub const V4L2_PIX_FMT_NV12M_8L128: u32 = 0x3231414e;

/// The code of `NT12` with the big-endian flag: Y/CbCr 4:2:0 10-bit 8x128 tiles.
pub const V4L2_PIX_FMT_NV12M_10BE_8L128: u32 = 0xb231544e;

/// The code of `BA81`: 8  BGBG.. GRGR...
pub const V4L2_PIX_FMT_SBGGR8: u32 = 0x31384142;

/// The code of `GBRG`: 8  GBGB.. RGRG...
pub const V4L2_PIX_FMT_SGBRG8: u32 = 0x47524247;

/// The code of `GRBG`: 8  GRGR.. BGBG...
pub const V4L2_PIX_FMT_SGRBG8: u32 = 0x47425247;

/// The code of `RGGB`: 8  RGRG.. GBGB...
pub const V4L2_PIX_FMT_SRGGB8: u32 = 0x42474752;

/// The code of `BG10`: 10  BGBG.. GRGR...
pub const V4L2_PIX_FMT_SBGGR10: u32 = 0x30314742;

/// The code of `GB10`: 10  GBGB.. RGRG...
pub const V4L2_PIX_FMT_SGBRG10: u32 = 0x30314247;

/// The code of `BA10`: 10  GRGR.. BGBG...
pub const V4L2_PIX_FMT_SGRBG10: u32 = 0x30314142;

/// The code of `RG10`: 10  RGRG.. GBGB...
pub const V4L2_PIX_FMT_SRGGB10: u32 = 0x30314752;

/// The code of `pBAA`.
pub const V4L2_PIX_FMT_SBGGR10P: u32 = 0x41414270;

/// The code of `pGAA`.
pub const V4L2_PIX_FMT_SGBRG10P: u32 = 0x41414770;

/// The code of `pgAA`.
pub const V4L2_PIX_FMT_SGRBG10P: u32 = 0x41416770;

/// The code of `pRAA`.
pub const V4L2_PIX_FMT_SRGGB10P: u32 = 0x41415270;

/// The code of `aBA8`.
pub const V4L2_PIX_FMT_SBGGR10ALAW8: u32 = 0x38414261;

/// The code of `aGA8`.
pub const V4L2_PIX_FMT_SGBRG10ALAW8: u32 = 0x38414761;

/// The code of `agA8`.
pub const V4L2_PIX_FMT_SGRBG10ALAW8: u32 = 0x38416761;

/// The code of `aRA8`.
pub const V4L2_PIX_FMT_SRGGB10ALAW8: u32 = 0x38415261;

/// The code of `bBA8`.
pub const V4L2_PIX_FMT_SBGGR10DPCM8: u32 = 0x38414262;

/// The code of `bGA8`.
pub const V4L2_PIX_FMT_SGBRG10DPCM8: u32 = 0x38414762;

/// The code of `BD10`.
pub const V4L2_PIX_FMT_SGRBG10DPCM8: u32 = 0x30314442;

/// The code of `bRA8`.
pub const V4L2_PIX_FMT_SRGGB10DPCM8: u32 = 0x38415262;

/// The code of `BG12`: 12  BGBG.. GRGR...
pub const V4L2_PIX_FMT_SBGGR12: u32 = 0x32314742;

/// The code of `GB12`: 12  GBGB.. RGRG...
pub const V4L2_PIX_FMT_SGBRG12: u32 = 0x32314247;

/// The code of `BA12`: 12  GRGR.. BGBG...
pub const V4L2_PIX_FMT_SGRBG12: u32 = 0x32314142;

/// The code of `RG12`: 12  RGRG.. GBGB...
pub const V4L2_PIX_FMT_SRGGB12: u32 = 0x32314752;

/// The code of `pBCC`.
pub const V4L2_PIX_FMT_SBGGR12P: u32 = 0x43434270;

/// The code of `pGCC`.
pub const V4L2_PIX_FMT_SGBRG12P: u32 = 0x43434770;

/// The code of `pgCC`.
pub const V4L2_PIX_FMT_SGRBG12P: u32 = 0x43436770;

/// The code of `pRCC`.
pub const V4L2_PIX_FMT_SRGGB12P: u32 = 0x43435270;

/// The code of `BG14`: 14  BGBG.. GRGR...
pub const V4L2_PIX_FMT_SBGGR14: u32 = 0x34314742;

/// The code of `GB14`: 14  GBGB.. RGRG...
pub const V4L2_PIX_FMT_SGBRG14: u32 = 0x34314247;

/// The code of `GR14`: 14  GRGR.. BGBG...
pub const V4L2_PIX_FMT_SGRBG14: u32 = 0x34315247;

/// The code of `RG14`: 14  RGRG.. GBGB...
pub const V4L2_PIX_FMT_SRGGB14: u32 = 0x34314752;

/// The code of `pBEE`.
pub const V4L2_PIX_FMT_SBGGR14P: u32 = 0x45454270;

/// The code of `pGEE`.
pub const V4L2_PIX_FMT_SGBRG14P: u32 = 0x45454770;

/// The code of `pgEE`.
pub const V4L2_PIX_FMT_SGRBG14P: u32 = 0x45456770;

/// The code of `pREE`.
pub const V4L2_PIX_FMT_SRGGB14P: u32 = 0x45455270;

/// The code of `BYR2`: 16  BGBG.. GRGR...
pub const V4L2_PIX_FMT_SBGGR16: u32 = 0x32525942;

/// The code of `GB16`: 16  GBGB.. RGRG...
pub const V4L2_PIX_FMT_SGBRG16: u32 = 0x36314247;

/// The code of `GR16`: 16  GRGR.. BGBG...
pub const V4L2_PIX_FMT_SGRBG16: u32 = 0x36315247;

/// The code of `RG16`: 16  RGRG.. GBGB...
pub const V4L2_PIX_FMT_SRGGB16: u32 = 0x36314752;

/// The code of `HSV3`.
pub const V4L2_PIX_FMT_HSV24: u32 = 0x33565348;

/// The code of `HSV4`.
pub const V4L2_PIX_FMT_HSV32: u32 = 0x34565348;

/// The code of `MJPG`: Motion-JPEG.
pub const V4L2_PIX_FMT_MJPEG: u32 = 0x47504a4d;

/// The code of `JPEG`: JFIF JPEG.
pub const V4L2_PIX_FMT_JPEG: u32 = 0x4745504a;

/// The code of `dvsd`: 1394.
pub const V4L2_PIX_FMT_DV: u32 = 0x64737664;

/// The code of `MPEG`: MPEG-1/2/4 Multiplexed.
pub const V4L2_PIX_FMT_MPEG: u32 = 0x4745504d;

/// The code of `H264`: H264 with start codes.
pub const V4L2_PIX_FMT_H264: u32 = 0x34363248;

/// The code of `AVC1`: H264 without start codes.
pub const V4L2_PIX_FMT_H264_NO_SC: u32 = 0x31435641;

/// The code of `M264`: H264 MVC.
pub const V4L2_PIX_FMT_H264_MVC: u32 = 0x3436324d;

/// The code of `H263`: H263.
pub const V4L2_PIX_FMT_H263: u32 = 0x33363248;

/// The code of `MPG1`: MPEG-1 ES.
pub const V4L2_PIX_FMT_MPEG1: u32 = 0x3147504d;

/// The code of `MPG2`: MPEG-2 ES.
pub const V4L2_PIX_FMT_MPEG2: u32 = 0x3247504d;

/// The code of `MG2S`: MPEG-2 parsed slice data.
pub const V4L2_PIX_FMT_MPEG2_SLICE: u32 = 0x5332474d;

/// The code of `MPG4`: MPEG-4 part 2 ES.
pub const V4L2_PIX_FMT_MPEG4: u32 = 0x3447504d;

/// The code of `XVID`: Xvid.
pub const V4L2_PIX_FMT_XVID: u32 = 0x44495658;

/// The code of `VC1G`: SMPTE 421M Annex G compliant stream.
pub const V4L2_PIX_FMT_VC1_ANNEX_G: u32 = 0x47314356;

/// The code of `VC1L`: SMPTE 421M Annex L compliant stream.
pub const V4L2_PIX_FMT_VC1_ANNEX_L: u32 = 0x4c314356;

/// The code of `VP80`: VP8.
pub const V4L2_PIX_FMT_VP8: u32 = 0x30385056;

/// The code of `VP8F`: VP8 parsed frame.
pub const V4L2_PIX_FMT_VP8_FRAME: u32 = 0x46385056;

/// The code of `VP90`: VP9.
pub const V4L2_PIX_FMT_VP9: u32 = 0x30395056;

/// The code of `VP9F`: VP9 parsed frame.
pub const V4L2_PIX_FMT_VP9_FRAME: u32 = 0x46395056;

/// The code of `HEVC`: HEVC aka H.265.
pub const V4L2_PIX_FMT_HEVC: u32 = 0x43564548;

/// The code of `FWHT`: Fast Walsh Hadamard Transform (vicodec).
pub const V4L2_PIX_FMT_FWHT: u32 = 0x54485746;

/// The code of `SFWH`: Stateless FWHT (vicodec).
pub const V4L2_PIX_FMT_FWHT_STATELESS: u32 = 0x48574653;

/// The code of `S264`: H264 parsed slices.
pub const V4L2_PIX_FMT_H264_SLICE: u32 = 0x34363253;

/// The code of `S265`: HEVC parsed slices.
pub const V4L2_PIX_FMT_HEVC_SLICE: u32 = 0x35363253;

/// The code of `AV1F`: AV1 parsed frame.
pub const V4L2_PIX_FMT_AV1_FRAME: u32 = 0x46315641;

/// The code of `SPK0`: Sorenson Spark.
pub const V4L2_PIX_FMT_SPK: u32 = 0x304b5053;

/// The code of `RV30`: RealVideo 8.
pub const V4L2_PIX_FMT_RV30: u32 = 0x30335652;

/// The code of `RV40`: RealVideo 9 & 10.
pub const V4L2_PIX_FMT_RV40: u32 = 0x30345652;

/// The code of `CPIA`: cpia1 YUV.
pub const V4L2_PIX_FMT_CPIA1: u32 = 0x41495043;

/// The code of `WNVA`: Winnov hw compress.
pub const V4L2_PIX_FMT_WNVA: u32 = 0x41564e57;

/// The code of `S910`: SN9C10x compression.
pub const V4L2_PIX_FMT_SN9C10X: u32 = 0x30313953;

/// The code of `S920`: SN9C20x YUV 4:2:0.
pub const V4L2_PIX_FMT_SN9C20X_I420: u32 = 0x30323953;

/// The code of `PWC1`: pwc older webcam.
pub const V4L2_PIX_FMT_PWC1: u32 = 0x31435750;

/// The code of `PWC2`: pwc newer webcam.
pub const V4L2_PIX_FMT_PWC2: u32 = 0x32435750;

/// The code of `E625`: ET61X251 compression.
pub const V4L2_PIX_FMT_ET61X251: u32 = 0x35323645;

/// The code of `S501`: YUYV per line.
pub const V4L2_PIX_FMT_SPCA501: u32 = 0x31303553;

/// The code of `S505`: YYUV per line.
pub const V4L2_PIX_FMT_SPCA505: u32 = 0x35303553;

/// The code of `S508`: YUVY per line.
pub const V4L2_PIX_FMT_SPCA508: u32 = 0x38303553;

/// The code of `S561`: compressed GBRG bayer.
pub const V4L2_PIX_FMT_SPCA561: u32 = 0x31363553;

/// The code of `P207`: compressed BGGR bayer.
pub const V4L2_PIX_FMT_PAC207: u32 = 0x37303250;

/// The code of `M310`: compressed BGGR bayer.
pub const V4L2_PIX_FMT_MR97310A: u32 = 0x3031334d;

/// The code of `JL20`: compressed RGGB bayer.
pub const V4L2_PIX_FMT_JL2005BCD: u32 = 0x30324c4a;

/// The code of `SONX`: compressed GBRG bayer.
pub const V4L2_PIX_FMT_SN9C2028: u32 = 0x584e4f53;

/// The code of `905C`: compressed RGGB bayer.
pub const V4L2_PIX_FMT_SQ905C: u32 = 0x43353039;

/// The code of `PJPG`: Pixart 73xx JPEG.
pub const V4L2_PIX_FMT_PJPG: u32 = 0x47504a50;

/// The code of `O511`: ov511 JPEG.
pub const V4L2_PIX_FMT_OV511: u32 = 0x3131354f;

/// The code of `O518`: ov518 JPEG.
pub const V4L2_PIX_FMT_OV518: u32 = 0x3831354f;

/// The code of `S680`: stv0680 bayer.
pub const V4L2_PIX_FMT_STV0680: u32 = 0x30383653;

/// The code of `TM60`: tm5600/tm60x0.
pub const V4L2_PIX_FMT_TM6000: u32 = 0x30364d54;

/// The code of `CITV`: one line of Y then 1 line of VYUY.
pub const V4L2_PIX_FMT_CIT_YYVYUY: u32 = 0x56544943;

/// The code of `KONI`: YUV420 planar in blocks of 256 pixels.
pub const V4L2_PIX_FMT_KONICA420: u32 = 0x494e4f4b;

/// The code of `JPGL`: JPEG-Lite.
pub const V4L2_PIX_FMT_JPGL: u32 = 0x4c47504a;

/// The code of `S401`: se401 janggu compressed rgb.
pub const V4L2_PIX_FMT_SE401: u32 = 0x31303453;

/// The code of `S5CI`: S5C73M3 interleaved UYVY/JPEG.
pub const V4L2_PIX_FMT_S5C_UYVY_JPG: u32 = 0x49433553;

/// The code of `Y8I `: Greyscale 8-bit L/R interleaved.
pub const V4L2_PIX_FMT_Y8I: u32 = 0x20493859;

/// The code of `Y12I`: Greyscale 12-bit L/R interleaved.
pub const V4L2_PIX_FMT_Y12I: u32 = 0x49323159;

/// The code of `Y16I`: Greyscale 16-bit L/R interleaved.
pub const V4L2_PIX_FMT_Y16I: u32 = 0x49363159;

/// The code of `Z16 `: Depth data 16-bit.
pub const V4L2_PIX_FMT_Z16: u32 = 0x2036315a;

/// The code of `MT21`: Mediatek compressed block mode.
pub const V4L2_PIX_FMT_MT21C: u32 = 0x3132544d;

/// The code of `MM21`: Mediatek 8-bit block mode, two non-contiguous planes.
pub const V4L2_PIX_FMT_MM21: u32 = 0x31324d4d;

/// The code of `MT2T`: Mediatek 10-bit block tile mode.
pub const V4L2_PIX_FMT_MT2110T: u32 = 0x5432544d;

/// The code of `MT2R`: Mediatek 10-bit block raster mode.
pub const V4L2_PIX_FMT_MT2110R: u32 = 0x5232544d;

/// The code of `INZI`: Intel Planar Greyscale 10-bit and Depth 16-bit.
pub const V4L2_PIX_FMT_INZI: u32 = 0x495a4e49;

/// The code of `CNF4`: Intel 4-bit packed depth confidence information.
pub const V4L2_PIX_FMT_CNF4: u32 = 0x34464e43;

/// The code of `HI24`: BTTV 8-bit dithered RGB.
pub const V4L2_PIX_FMT_HI240: u32 = 0x34324948;

/// The code of `Q08C`: Qualcomm 8-bit compressed.
pub const V4L2_PIX_FMT_QC08C: u32 = 0x43383051;

/// The code of `Q10C`: Qualcomm 10-bit compressed.
pub const V4L2_PIX_FMT_QC10C: u32 = 0x43303151;

/// The code of `AJPG`: Aspeed JPEG.
pub const V4L2_PIX_FMT_AJPG: u32 = 0x47504a41;

/// The code of `HXTL`: Hextile compressed.
pub const V4L2_PIX_FMT_HEXTILE: u32 = 0x4c545848;

/// The code of `ip3b`: IPU3 packed 10-bit BGGR bayer.
pub const V4L2_PIX_FMT_IPU3_SBGGR10: u32 = 0x62337069;

/// The code of `ip3g`: IPU3 packed 10-bit GBRG bayer.
pub const V4L2_PIX_FMT_IPU3_SGBRG10: u32 = 0x67337069;

/// The code of `ip3G`: IPU3 packed 10-bit GRBG bayer.
pub const V4L2_PIX_FMT_IPU3_SGRBG10: u32 = 0x47337069;

/// The code of `ip3r`: IPU3 packed 10-bit RGGB bayer.
pub const V4L2_PIX_FMT_IPU3_SRGGB10: u32 = 0x72337069;

/// The code of `PC1R`: PiSP 8-bit mode 1 compressed RGGB bayer.
pub const V4L2_PIX_FMT_PISP_COMP1_RGGB: u32 = 0x52314350;

/// The code of `PC1G`: PiSP 8-bit mode 1 compressed GRBG bayer.
pub const V4L2_PIX_FMT_PISP_COMP1_GRBG: u32 = 0x47314350;

/// The code of `PC1g`: PiSP 8-bit mode 1 compressed GBRG bayer.
pub const V4L2_PIX_FMT_PISP_COMP1_GBRG: u32 = 0x67314350;

/// The code of `PC1B`: PiSP 8-bit mode 1 compressed BGGR bayer.
pub const V4L2_PIX_FMT_PISP_COMP1_BGGR: u32 = 0x42314350;

/// The code of `PC1M`: PiSP 8-bit mode 1 compressed monochrome.
pub const V4L2_PIX_FMT_PISP_COMP1_MONO: u32 = 0x4d314350;

/// The code of `PC2R`: PiSP 8-bit mode 2 compressed RGGB bayer.
pub const V4L2_PIX_FMT_PISP_COMP2_RGGB: u32 = 0x52324350;

/// The code of `PC2G`: PiSP 8-bit mode 2 compressed GRBG bayer.
pub const V4L2_PIX_FMT_PISP_COMP2_GRBG: u32 = 0x47324350;

/// The code of `PC2g`: PiSP 8-bit mode 2 compressed GBRG bayer.
pub const V4L2_PIX_FMT_PISP_COMP2_GBRG: u32 = 0x67324350;

/// The code of `PC2B`: PiSP 8-bit mode 2 compressed BGGR bayer.
pub const V4L2_PIX_FMT_PISP_COMP2_BGGR: u32 = 0x42324350;

/// The code of `PC2M`: PiSP 8-bit mode 2 compressed monochrome.
pub const V4L2_PIX_FMT_PISP_COMP2_MONO: u32 = 0x4d324350;

/// The code of `CR10`.
pub const V4L2_PIX_FMT_RAW_CRU10: u32 = 0x30315243;

/// The code of `CR12`.
pub const V4L2_PIX_FMT_RAW_CRU12: u32 = 0x32315243;

/// The code of `CR14`.
pub const V4L2_PIX_FMT_RAW_CRU14: u32 = 0x34315243;

/// The code of `CR20`.
pub const V4L2_PIX_FMT_RAW_CRU20: u32 = 0x30325243;

/// The code of `CU08`: IQ u8.
pub const V4L2_SDR_FMT_CU8: u32 = 0x38305543;

/// The code of `CU16`: IQ u16le.
pub const V4L2_SDR_FMT_CU16LE: u32 = 0x36315543;

/// The code of `CS08`: complex s8.
pub const V4L2_SDR_FMT_CS8: u32 = 0x38305343;

/// The code of `CS14`: complex s14le.
pub const V4L2_SDR_FMT_CS14LE: u32 = 0x34315343;

/// The code of `RU12`: real u12le.
pub const V4L2_SDR_FMT_RU12LE: u32 = 0x32315552;

/// The code of `PC16`: planar complex u16be.
pub const V4L2_SDR_FMT_PCU16BE: u32 = 0x36314350;

/// The code of `PC18`: planar complex u18be.
pub const V4L2_SDR_FMT_PCU18BE: u32 = 0x38314350;

/// The code of `PC20`: planar complex u20be.
pub const V4L2_SDR_FMT_PCU20BE: u32 = 0x30324350;

/// The code of `TD16`: 16-bit signed deltas.
pub const V4L2_TCH_FMT_DELTA_TD16: u32 = 0x36314454;

/// The code of `TD08`: 8-bit signed deltas.
pub const V4L2_TCH_FMT_DELTA_TD08: u32 = 0x38304454;

/// The code of `TU16`: 16-bit unsigned touch data.
pub const V4L2_TCH_FMT_TU16: u32 = 0x36315554;

/// The code of `TU08`: 8-bit unsigned touch data.
pub const V4L2_TCH_FMT_TU08: u32 = 0x38305554;

/// The code of `VSPH`: R-Car VSP1 1-D Histogram.
pub const V4L2_META_FMT_VSP1_HGO: u32 = 0x48505356;

/// The code of `VSPT`: R-Car VSP1 2-D Histogram.
pub const V4L2_META_FMT_VSP1_HGT: u32 = 0x54505356;

/// The code of `UVCH`: UVC Payload Header metadata.
pub const V4L2_META_FMT_UVC: u32 = 0x48435655;

/// The code of `D4XX`: D4XX Payload Header metadata.
pub const V4L2_META_FMT_D4XX: u32 = 0x58583444;

/// The code of `UVCM`: UVC MSXU metadata.
pub const V4L2_META_FMT_UVC_MSXU_1_5: u32 = 0x4d435655;

/// The code of `VIVD`: Vivid Metadata.
pub const V4L2_META_FMT_VIVID: u32 = 0x44564956;

/// The code of `RK1P`: Rockchip ISP1 3A Parameters.
pub const V4L2_META_FMT_RK_ISP1_PARAMS: u32 = 0x50314b52;

/// The code of `RK1S`: Rockchip ISP1 3A Statistics.
pub const V4L2_META_FMT_RK_ISP1_STAT_3A: u32 = 0x53314b52;

/// The code of `RK1E`: Rockchip ISP1 3a Extensible Parameters.
pub const V4L2_META_FMT_RK_ISP1_EXT_PARAMS: u32 = 0x45314b52;

/// The code of `C3PM`: Amlogic C3 ISP Parameters.
pub const V4L2_META_FMT_C3ISP_PARAMS: u32 = 0x4d503343;

/// The code of `C3ST`: Amlogic C3 ISP Statistics.
pub const V4L2_META_FMT_C3ISP_STATS: u32 = 0x54533343;

/// The code of `RPBC`: PiSP BE configuration.
pub const V4L2_META_FMT_RPI_BE_CFG: u32 = 0x43425052;

/// The code of `RPFC`: PiSP FE configuration.
pub const V4L2_META_FMT_RPI_FE_CFG: u32 = 0x43465052;

/// The code of `RPFS`: PiSP FE stats.
pub const V4L2_META_FMT_RPI_FE_STATS: u32 = 0x53465052;

/// The code of `C55P`: ARM Mali-C55 Parameters.
pub const V4L2_META_FMT_MALI_C55_PARAMS: u32 = 0x50353543;

/// The code of `C55S`: ARM Mali-C55 3A Statistics.
pub const V4L2_META_FMT_MALI_C55_STATS: u32 = 0x53353543;

/// Each named V4L2 format is the four-character code of its characters;
/// the big-endian variants are the big-endian code of theirs.
pub proof fn lemma_pixel_format_codes()
    ensures
        V4L2_PIX_FMT_RGB332 == fourcc_code(82, 71, 66, 49),
        V4L2_PIX_FMT_RGB444 == fourcc_code(82, 52, 52, 52),
        V4L2_PIX_FMT_ARGB444 == fourcc_code(65, 82, 49, 50),
        V4L2_PIX_FMT_XRGB444 == fourcc_code(88, 82, 49, 50),
        V4L2_PIX_FMT_RGBA444 == fourcc_code(82, 65, 49, 50),
        V4L2_PIX_FMT_RGBX444 == fourcc_code(82, 88, 49, 50),
        V4L2_PIX_FMT_ABGR444 == fourcc_code(65, 66, 49, 50),
        V4L2_PIX_FMT_XBGR444 == fourcc_code(88, 66, 49, 50),
        V4L2_PIX_FMT_BGRA444 == fourcc_code(71, 65, 49, 50),
        V4L2_PIX_FMT_BGRX444 == fourcc_code(66, 88, 49, 50),
        V4L2_PIX_FMT_RGB555 == fourcc_code(82, 71, 66, 79),
        V4L2_PIX_FMT_ARGB555 == fourcc_code(65, 82, 49, 53),
        V4L2_PIX_FMT_XRGB555 == fourcc_code(88, 82, 49, 53),
        V4L2_PIX_FMT_RGBA555 == fourcc_code(82, 65, 49, 53),
        V4L2_PIX_FMT_RGBX555 == fourcc_code(82, 88, 49, 53),
        V4L2_PIX_FMT_ABGR555 == fourcc_code(65, 66, 49, 53),
        V4L2_PIX_FMT_XBGR555 == fourcc_code(88, 66, 49, 53),
        V4L2_PIX_FMT_BGRA555 == fourcc_code(66, 65, 49, 53),
        V4L2_PIX_FMT_BGRX555 == fourcc_code(66, 88, 49, 53),
        V4L2_PIX_FMT_RGB565 == fourcc_code(82, 71, 66, 80),
        V4L2_PIX_FMT_RGB555X == fourcc_code(82, 71, 66, 81),
        V4L2_PIX_FMT_ARGB555X == fourcc_be_code(65, 82, 49, 53),
        V4L2_PIX_FMT_XRGB555X == fourcc_be_code(88, 82, 49, 53),
        V4L2_PIX_FMT_RGB565X == fourcc_code(82, 71, 66, 82),
        V4L2_PIX_FMT_BGR666 == fourcc_code(66, 71, 82, 72),
        V4L2_PIX_FMT_BGR24 == fourcc_code(66, 71, 82, 51),
        V4L2_PIX_FMT_RGB24 == fourcc_code(82, 71, 66, 51),
        V4L2_PIX_FMT_BGR32 == fourcc_code(66, 71, 82, 52),
        V4L2_PIX_FMT_ABGR32 == fourcc_code(65, 82, 50, 52),
        V4L2_PIX_FMT_XBGR32 == fourcc_code(88, 82, 50, 52),
        V4L2_PIX_FMT_BGRA32 == fourcc_code(82, 65, 50, 52),
        V4L2_PIX_FMT_BGRX32 == fourcc_code(82, 88, 50, 52),
        V4L2_PIX_FMT_RGB32 == fourcc_code(82, 71, 66, 52),
        V4L2_PIX_FMT_RGBA32 == fourcc_code(65, 66, 50, 52),
        V4L2_PIX_FMT_RGBX32 == fourcc_code(88, 66, 50, 52),
        V4L2_PIX_FMT_ARGB32 == fourcc_code(66, 65, 50, 52),
        V4L2_PIX_FMT_XRGB32 == fourcc_code(66, 88, 50, 52),
        V4L2_PIX_FMT_RGBX1010102 == fourcc_code(82, 88, 51, 48),
        V4L2_PIX_FMT_RGBA1010102 == fourcc_code(82, 65, 51, 48),
        V4L2_PIX_FMT_ARGB2101010 == fourcc_code(65, 82, 51, 48),
        V4L2_PIX_FMT_BGR48_12 == fourcc_code(66, 51, 49, 50),
        V4L2_PIX_FMT_BGR48 == fourcc_code(66, 71, 82, 54),
        V4L2_PIX_FMT_RGB48 == fourcc_code(82, 71, 66, 54),
        V4L2_PIX_FMT_ABGR64_12 == fourcc_code(66, 52, 49, 50),
        V4L2_PIX_FMT_GREY == fourcc_code(71, 82, 69, 89),
        V4L2_PIX_FMT_Y4 == fourcc_code(89, 48, 52, 32),
        V4L2_PIX_FMT_Y6 == fourcc_code(89, 48, 54, 32),
        V4L2_PIX_FMT_Y10 == fourcc_code(89, 49, 48, 32),
        V4L2_PIX_FMT_Y12 == fourcc_code(89, 49, 50, 32),
        V4L2_PIX_FMT_Y012 == fourcc_code(89, 48, 49, 50),
        V4L2_PIX_FMT_Y14 == fourcc_code(89, 49, 52, 32),
        V4L2_PIX_FMT_Y16 == fourcc_code(89, 49, 54, 32),
        V4L2_PIX_FMT_Y16_BE == fourcc_be_code(89, 49, 54, 32),
        V4L2_PIX_FMT_Y10BPACK == fourcc_code(89, 49, 48, 66),
        V4L2_PIX_FMT_Y10P == fourcc_code(89, 49, 48, 80),
        V4L2_PIX_FMT_IPU3_Y10 == fourcc_code(105, 112, 51, 121),
        V4L2_PIX_FMT_Y12P == fourcc_code(89, 49, 50, 80),
        V4L2_PIX_FMT_Y14P == fourcc_code(89, 49, 52, 80),
        V4L2_PIX_FMT_PAL8 == fourcc_code(80, 65, 76, 56),
        V4L2_PIX_FMT_UV8 == fourcc_code(85, 86, 56, 32),
        V4L2_PIX_FMT_YUYV == fourcc_code(89, 85, 89, 86),
        V4L2_PIX_FMT_YYUV == fourcc_code(89, 89, 85, 86),
        V4L2_PIX_FMT_YVYU == fourcc_code(89, 86, 89, 85),
        V4L2_PIX_FMT_UYVY == fourcc_code(85, 89, 86, 89),
        V4L2_PIX_FMT_VYUY == fourcc_code(86, 89, 85, 89),
        V4L2_PIX_FMT_Y41P == fourcc_code(89, 52, 49, 80),
        V4L2_PIX_FMT_YUV444 == fourcc_code(89, 52, 52, 52),
        V4L2_PIX_FMT_YUV555 == fourcc_code(89, 85, 86, 79),
        V4L2_PIX_FMT_YUV565 == fourcc_code(89, 85, 86, 80),
        V4L2_PIX_FMT_YUV24 == fourcc_code(89, 85, 86, 51),
        V4L2_PIX_FMT_YUV32 == fourcc_code(89, 85, 86, 52),
        V4L2_PIX_FMT_AYUV32 == fourcc_code(65, 89, 85, 86),
        V4L2_PIX_FMT_XYUV32 == fourcc_code(88, 89, 85, 86),
        V4L2_PIX_FMT_VUYA32 == fourcc_code(86, 85, 89, 65),
        V4L2_PIX_FMT_VUYX32 == fourcc_code(86, 85, 89, 88),
        V4L2_PIX_FMT_YUVA32 == fourcc_code(89, 85, 86, 65),
        V4L2_PIX_FMT_YUVX32 == fourcc_code(89, 85, 86, 88),
        V4L2_PIX_FMT_M420 == fourcc_code(77, 52, 50, 48),
        V4L2_PIX_FMT_YUV48_12 == fourcc_code(89, 51, 49, 50),
        V4L2_PIX_FMT_Y210 == fourcc_code(89, 50, 49, 48),
        V4L2_PIX_FMT_Y212 == fourcc_code(89, 50, 49, 50),
        V4L2_PIX_FMT_Y216 == fourcc_code(89, 50, 49, 54),
        V4L2_PIX_FMT_NV12 == fourcc_code(78, 86, 49, 50),
        V4L2_PIX_FMT_NV21 == fourcc_code(78, 86, 50, 49),
        V4L2_PIX_FMT_NV15 == fourcc_code(78, 86, 49, 53),
        V4L2_PIX_FMT_NV16 == fourcc_code(78, 86, 49, 54),
        V4L2_PIX_FMT_NV61 == fourcc_code(78, 86, 54, 49),
        V4L2_PIX_FMT_NV20 == fourcc_code(78, 86, 50, 48),
        V4L2_PIX_FMT_NV24 == fourcc_code(78, 86, 50, 52),
        V4L2_PIX_FMT_NV42 == fourcc_code(78, 86, 52, 50),
        V4L2_PIX_FMT_P010 == fourcc_code(80, 48, 49, 48),
        V4L2_PIX_FMT_P012 == fourcc_code(80, 48, 49, 50),
        V4L2_PIX_FMT_NV12M == fourcc_code(78, 77, 49, 50),
        V4L2_PIX_FMT_NV21M == fourcc_code(78, 77, 50, 49),
        V4L2_PIX_FMT_NV16M == fourcc_code(78, 77, 49, 54),
        V4L2_PIX_FMT_NV61M == fourcc_code(78, 77, 54, 49),
        V4L2_PIX_FMT_P012M == fourcc_code(80, 77, 49, 50),
        V4L2_PIX_FMT_YUV410 == fourcc_code(89, 85, 86, 57),
        V4L2_PIX_FMT_YVU410 == fourcc_code(89, 86, 85, 57),
        V4L2_PIX_FMT_YUV411P == fourcc_code(52, 49, 49, 80),
        V4L2_PIX_FMT_YUV420 == fourcc_code(89, 85, 49, 50),
        V4L2_PIX_FMT_YVU420 == fourcc_code(89, 86, 49, 50),
        V4L2_PIX_FMT_YUV422P == fourcc_code(52, 50, 50, 80),
        V4L2_PIX_FMT_YUV420M == fourcc_code(89, 77, 49, 50),
        V4L2_PIX_FMT_YVU420M == fourcc_code(89, 77, 50, 49),
        V4L2_PIX_FMT_YUV422M == fourcc_code(89, 77, 49, 54),
        V4L2_PIX_FMT_YVU422M == fourcc_code(89, 77, 54, 49),
        V4L2_PIX_FMT_YUV444M == fourcc_code(89, 77, 50, 52),
        V4L2_PIX_FMT_YVU444M == fourcc_code(89, 77, 52, 50),
        V4L2_PIX_FMT_NV12_4L4 == fourcc_code(86, 84, 49, 50),
        V4L2_PIX_FMT_NV12_16L16 == fourcc_code(72, 77, 49, 50),
        V4L2_PIX_FMT_NV12_32L32 == fourcc_code(83, 84, 49, 50),
        V4L2_PIX_FMT_NV15_4L4 == fourcc_code(86, 84, 49, 53),
        V4L2_PIX_FMT_P010_4L4 == fourcc_code(84, 48, 49, 48),
        V4L2_PIX_FMT_NV12_8L128 == fourcc_code(65, 84, 49, 50),
        V4L2_PIX_FMT_NV12_10BE_8L128 == fourcc_be_code(65, 88, 49, 50),
        V4L2_PIX_FMT_NV12MT == fourcc_code(84, 77, 49, 50),
        V4L2_PIX_FMT_NV12MT_16X16 == fourcc_code(86, 77, 49, 50),
        V4L2_PIX_FMT_NV12M_8L128 == fourcc_code(78, 65, 49, 50),
        V4L2_PIX_FMT_NV12M_10BE_8L128 == fourcc_be_code(78, 84, 49, 50),
        V4L2_PIX_FMT_SBGGR8 == fourcc_code(66, 65, 56, 49),
        V4L2_PIX_FMT_SGBRG8 == fourcc_code(71, 66, 82, 71),
        V4L2_PIX_FMT_SGRBG8 == fourcc_code(71, 82, 66, 71),
        V4L2_PIX_FMT_SRGGB8 == fourcc_code(82, 71, 71, 66),
        V4L2_PIX_FMT_SBGGR10 == fourcc_code(66, 71, 49, 48),
        V4L2_PIX_FMT_SGBRG10 == fourcc_code(71, 66, 49, 48),
        V4L2_PIX_FMT_SGRBG10 == fourcc_code(66, 65, 49, 48),
        V4L2_PIX_FMT_SRGGB10 == fourcc_code(82, 71, 49, 48),
        V4L2_PIX_FMT_SBGGR10P == fourcc_code(112, 66, 65, 65),
        V4L2_PIX_FMT_SGBRG10P == fourcc_code(112, 71, 65, 65),
        V4L2_PIX_FMT_SGRBG10P == fourcc_code(112, 103, 65, 65),
        V4L2_PIX_FMT_SRGGB10P == fourcc_code(112, 82, 65, 65),
        V4L2_PIX_FMT_SBGGR10ALAW8 == fourcc_code(97, 66, 65, 56),
        V4L2_PIX_FMT_SGBRG10ALAW8 == fourcc_code(97, 71, 65, 56),
        V4L2_PIX_FMT_SGRBG10ALAW8 == fourcc_code(97, 103, 65, 56),
        V4L2_PIX_FMT_SRGGB10ALAW8 == fourcc_code(97, 82, 65, 56),
        V4L2_PIX_FMT_SBGGR10DPCM8 == fourcc_code(98, 66, 65, 56),
        V4L2_PIX_FMT_SGBRG10DPCM8 == fourcc_code(98, 71, 65, 56),
        V4L2_PIX_FMT_SGRBG10DPCM8 == fourcc_code(66, 68, 49, 48),
        V4L2_PIX_FMT_SRGGB10DPCM8 == fourcc_code(98, 82, 65, 56),
        V4L2_PIX_FMT_SBGGR12 == fourcc_code(66, 71, 49, 50),
        V4L2_PIX_FMT_SGBRG12 == fourcc_code(71, 66, 49, 50),
        V4L2_PIX_FMT_SGRBG12 == fourcc_code(66, 65, 49, 50),
        V4L2_PIX_FMT_SRGGB12 == fourcc_code(82, 71, 49, 50),
        V4L2_PIX_FMT_SBGGR12P == fourcc_code(112, 66, 67, 67),
        V4L2_PIX_FMT_SGBRG12P == fourcc_code(112, 71, 67, 67),
        V4L2_PIX_FMT_SGRBG12P == fourcc_code(112, 103, 67, 67),
        V4L2_PIX_FMT_SRGGB12P == fourcc_code(112, 82, 67, 67),
        V4L2_PIX_FMT_SBGGR14 == fourcc_code(66, 71, 49, 52),
        V4L2_PIX_FMT_SGBRG14 == fourcc_code(71, 66, 49, 52),
        V4L2_PIX_FMT_SGRBG14 == fourcc_code(71, 82, 49, 52),
        V4L2_PIX_FMT_SRGGB14 == fourcc_code(82, 71, 49, 52),
        V4L2_PIX_FMT_SBGGR14P == fourcc_code(112, 66, 69, 69),
        V4L2_PIX_FMT_SGBRG14P == fourcc_code(112, 71, 69, 69),
        V4L2_PIX_FMT_SGRBG14P == fourcc_code(112, 103, 69, 69),
        V4L2_PIX_FMT_SRGGB14P == fourcc_code(112, 82, 69, 69),
        V4L2_PIX_FMT_SBGGR16 == fourcc_code(66, 89, 82, 50),
        V4L2_PIX_FMT_SGBRG16 == fourcc_code(71, 66, 49, 54),
        V4L2_PIX_FMT_SGRBG16 == fourcc_code(71, 82, 49, 54),
        V4L2_PIX_FMT_SRGGB16 == fourcc_code(82, 71, 49, 54),
        V4L2_PIX_FMT_HSV24 == fourcc_code(72, 83, 86, 51),
        V4L2_PIX_FMT_HSV32 == fourcc_code(72, 83, 86, 52),
        V4L2_PIX_FMT_MJPEG == fourcc_code(77, 74, 80, 71),
        V4L2_PIX_FMT_JPEG == fourcc_code(74, 80, 69, 71),
        V4L2_PIX_FMT_DV == fourcc_code(100, 118, 115, 100),
        V4L2_PIX_FMT_MPEG == fourcc_code(77, 80, 69, 71),
        V4L2_PIX_FMT_H264 == fourcc_code(72, 50, 54, 52),
        V4L2_PIX_FMT_H264_NO_SC == fourcc_code(65, 86, 67, 49),
        V4L2_PIX_FMT_H264_MVC == fourcc_code(77, 50, 54, 52),
        V4L2_PIX_FMT_H263 == fourcc_code(72, 50, 54, 51),
        V4L2_PIX_FMT_MPEG1 == fourcc_code(77, 80, 71, 49),
        V4L2_PIX_FMT_MPEG2 == fourcc_code(77, 80, 71, 50),
        V4L2_PIX_FMT_MPEG2_SLICE == fourcc_code(77, 71, 50, 83),
        V4L2_PIX_FMT_MPEG4 == fourcc_code(77, 80, 71, 52),
        V4L2_PIX_FMT_XVID == fourcc_code(88, 86, 73, 68),
        V4L2_PIX_FMT_VC1_ANNEX_G == fourcc_code(86, 67, 49, 71),
        V4L2_PIX_FMT_VC1_ANNEX_L == fourcc_code(86, 67, 49, 76),
        V4L2_PIX_FMT_VP8 == fourcc_code(86, 80, 56, 48),
        V4L2_PIX_FMT_VP8_FRAME == fourcc_code(86, 80, 56, 70),
        V4L2_PIX_FMT_VP9 == fourcc_code(86, 80, 57, 48),
        V4L2_PIX_FMT_VP9_FRAME == fourcc_code(86, 80, 57, 70),
        V4L2_PIX_FMT_HEVC == fourcc_code(72, 69, 86, 67),
        V4L2_PIX_FMT_FWHT == fourcc_code(70, 87, 72, 84),
        V4L2_PIX_FMT_FWHT_STATELESS == fourcc_code(83, 70, 87, 72),
        V4L2_PIX_FMT_H264_SLICE == fourcc_code(83, 50, 54, 52),
        V4L2_PIX_FMT_HEVC_SLICE == fourcc_code(83, 50, 54, 53),
        V4L2_PIX_FMT_AV1_FRAME == fourcc_code(65, 86, 49, 70),
        V4L2_PIX_FMT_SPK == fourcc_code(83, 80, 75, 48),
        V4L2_PIX_FMT_RV30 == fourcc_code(82, 86, 51, 48),
        V4L2_PIX_FMT_RV40 == fourcc_code(82, 86, 52, 48),
        V4L2_PIX_FMT_CPIA1 == fourcc_code(67, 80, 73, 65),
        V4L2_PIX_FMT_WNVA == fourcc_code(87, 78, 86, 65),
        V4L2_PIX_FMT_SN9C10X == fourcc_code(83, 57, 49, 48),
        V4L2_PIX_FMT_SN9C20X_I420 == fourcc_code(83, 57, 50, 48),
        V4L2_PIX_FMT_PWC1 == fourcc_code(80, 87, 67, 49),
        V4L2_PIX_FMT_PWC2 == fourcc_code(80, 87, 67, 50),
        V4L2_PIX_FMT_ET61X251 == fourcc_code(69, 54, 50, 53),
        V4L2_PIX_FMT_SPCA501 == fourcc_code(83, 53, 48, 49),
        V4L2_PIX_FMT_SPCA505 == fourcc_code(83, 53, 48, 53),
        V4L2_PIX_FMT_SPCA508 == fourcc_code(83, 53, 48, 56),
        V4L2_PIX_FMT_SPCA561 == fourcc_code(83, 53, 54, 49),
        V4L2_PIX_FMT_PAC207 == fourcc_code(80, 50, 48, 55),
        V4L2_PIX_FMT_MR97310A == fourcc_code(77, 51, 49, 48),
        V4L2_PIX_FMT_JL2005BCD == fourcc_code(74, 76, 50, 48),
        V4L2_PIX_FMT_SN9C2028 == fourcc_code(83, 79, 78, 88),
        V4L2_PIX_FMT_SQ905C == fourcc_code(57, 48, 53, 67),
        V4L2_PIX_FMT_PJPG == fourcc_code(80, 74, 80, 71),
        V4L2_PIX_FMT_OV511 == fourcc_code(79, 53, 49, 49),
        V4L2_PIX_FMT_OV518 == fourcc_code(79, 53, 49, 56),
        V4L2_PIX_FMT_STV0680 == fourcc_code(83, 54, 56, 48),
        V4L2_PIX_FMT_TM6000 == fourcc_code(84, 77, 54, 48),
        V4L2_PIX_FMT_CIT_YYVYUY == fourcc_code(67, 73, 84, 86),
        V4L2_PIX_FMT_KONICA420 == fourcc_code(75, 79, 78, 73),
        V4L2_PIX_FMT_JPGL == fourcc_code(74, 80, 71, 76),
        V4L2_PIX_FMT_SE401 == fourcc_code(83, 52, 48, 49),
        V4L2_PIX_FMT_S5C_UYVY_JPG == fourcc_code(83, 53, 67, 73),
        V4L2_PIX_FMT_Y8I == fourcc_code(89, 56, 73, 32),
        V4L2_PIX_FMT_Y12I == fourcc_code(89, 49, 50, 73),
        V4L2_PIX_FMT_Y16I == fourcc_code(89, 49, 54, 73),
        V4L2_PIX_FMT_Z16 == fourcc_code(90, 49, 54, 32),
        V4L2_PIX_FMT_MT21C == fourcc_code(77, 84, 50, 49),
        V4L2_PIX_FMT_MM21 == fourcc_code(77, 77, 50, 49),
        V4L2_PIX_FMT_MT2110T == fourcc_code(77, 84, 50, 84),
        V4L2_PIX_FMT_MT2110R == fourcc_code(77, 84, 50, 82),
        V4L2_PIX_FMT_INZI == fourcc_code(73, 78, 90, 73),
        V4L2_PIX_FMT_CNF4 == fourcc_code(67, 78, 70, 52),
        V4L2_PIX_FMT_HI240 == fourcc_code(72, 73, 50, 52),
        V4L2_PIX_FMT_QC08C == fourcc_code(81, 48, 56, 67),
        V4L2_PIX_FMT_QC10C == fourcc_code(81, 49, 48, 67),
        V4L2_PIX_FMT_AJPG == fourcc_code(65, 74, 80, 71),
        V4L2_PIX_FMT_HEXTILE == fourcc_code(72, 88, 84, 76),
        V4L2_PIX_FMT_IPU3_SBGGR10 == fourcc_code(105, 112, 51, 98),
        V4L2_PIX_FMT_IPU3_SGBRG10 == fourcc_code(105, 112, 51, 103),
        V4L2_PIX_FMT_IPU3_SGRBG10 == fourcc_code(105, 112, 51, 71),
        V4L2_PIX_FMT_IPU3_SRGGB10 == fourcc_code(105, 112, 51, 114),
        V4L2_PIX_FMT_PISP_COMP1_RGGB == fourcc_code(80, 67, 49, 82),
        V4L2_PIX_FMT_PISP_COMP1_GRBG == fourcc_code(80, 67, 49, 71),
        V4L2_PIX_FMT_PISP_COMP1_GBRG == fourcc_code(80, 67, 49, 103),
        V4L2_PIX_FMT_PISP_COMP1_BGGR == fourcc_code(80, 67, 49, 66),
        V4L2_PIX_FMT_PISP_COMP1_MONO == fourcc_code(80, 67, 49, 77),
        V4L2_PIX_FMT_PISP_COMP2_RGGB == fourcc_code(80, 67, 50, 82),
        V4L2_PIX_FMT_PISP_COMP2_GRBG == fourcc_code(80, 67, 50, 71),
        V4L2_PIX_FMT_PISP_COMP2_GBRG == fourcc_code(80, 67, 50, 103),
        V4L2_PIX_FMT_PISP_COMP2_BGGR == fourcc_code(80, 67, 50, 66),
        V4L2_PIX_FMT_PISP_COMP2_MONO == fourcc_code(80, 67, 50, 77),
        V4L2_PIX_FMT_RAW_CRU10 == fourcc_code(67, 82, 49, 48),
        V4L2_PIX_FMT_RAW_CRU12 == fourcc_code(67, 82, 49, 50),
        V4L2_PIX_FMT_RAW_CRU14 == fourcc_code(67, 82, 49, 52),
        V4L2_PIX_FMT_RAW_CRU20 == fourcc_code(67, 82, 50, 48),
        V4L2_SDR_FMT_CU8 == fourcc_code(67, 85, 48, 56),
        V4L2_SDR_FMT_CU16LE == fourcc_code(67, 85, 49, 54),
        V4L2_SDR_FMT_CS8 == fourcc_code(67, 83, 48, 56),
        V4L2_SDR_FMT_CS14LE == fourcc_code(67, 83, 49, 52),
        V4L2_SDR_FMT_RU12LE == fourcc_code(82, 85, 49, 50),
        V4L2_SDR_FMT_PCU16BE == fourcc_code(80, 67, 49, 54),
        V4L2_SDR_FMT_PCU18BE == fourcc_code(80, 67, 49, 56),
        V4L2_SDR_FMT_PCU20BE == fourcc_code(80, 67, 50, 48),
        V4L2_TCH_FMT_DELTA_TD16 == fourcc_code(84, 68, 49, 54),
        V4L2_TCH_FMT_DELTA_TD08 == fourcc_code(84, 68, 48, 56),
        V4L2_TCH_FMT_TU16 == fourcc_code(84, 85, 49, 54),
        V4L2_TCH_FMT_TU08 == fourcc_code(84, 85, 48, 56),
        V4L2_META_FMT_VSP1_HGO == fourcc_code(86, 83, 80, 72),
        V4L2_META_FMT_VSP1_HGT == fourcc_code(86, 83, 80, 84),
        V4L2_META_FMT_UVC == fourcc_code(85, 86, 67, 72),
        V4L2_META_FMT_D4XX == fourcc_code(68, 52, 88, 88),
        V4L2_META_FMT_UVC_MSXU_1_5 == fourcc_code(85, 86, 67, 77),
        V4L2_META_FMT_VIVID == fourcc_code(86, 73, 86, 68),
        V4L2_META_FMT_RK_ISP1_PARAMS == fourcc_code(82, 75, 49, 80),
        V4L2_META_FMT_RK_ISP1_STAT_3A == fourcc_code(82, 75, 49, 83),
        V4L2_META_FMT_RK_ISP1_EXT_PARAMS == fourcc_code(82, 75, 49, 69),
        V4L2_META_FMT_C3ISP_PARAMS == fourcc_code(67, 51, 80, 77),
        V4L2_META_FMT_C3ISP_STATS == fourcc_code(67, 51, 83, 84),
        V4L2_META_FMT_RPI_BE_CFG == fourcc_code(82, 80, 66, 67),
        V4L2_META_FMT_RPI_FE_CFG == fourcc_code(82, 80, 70, 67),
        V4L2_META_FMT_RPI_FE_STATS == fourcc_code(82, 80, 70, 83),
        V4L2_META_FMT_MALI_C55_PARAMS == fourcc_code(67, 53, 53, 80),
        V4L2_META_FMT_MALI_C55_STATS == fourcc_code(67, 53, 53, 83),
{
    assert({
        &&& V4L2_PIX_FMT_RGB332 == fourcc_code(82, 71, 66, 49)
        &&& V4L2_PIX_FMT_RGB444 == fourcc_code(82, 52, 52, 52)
        &&& V4L2_PIX_FMT_ARGB444 == fourcc_code(65, 82, 49, 50)
        &&& V4L2_PIX_FMT_XRGB444 == fourcc_code(88, 82, 49, 50)
        &&& V4L2_PIX_FMT_RGBA444 == fourcc_code(82, 65, 49, 50)
        &&& V4L2_PIX_FMT_RGBX444 == fourcc_code(82, 88, 49, 50)
        &&& V4L2_PIX_FMT_ABGR444 == fourcc_code(65, 66, 49, 50)
        &&& V4L2_PIX_FMT_XBGR444 == fourcc_code(88, 66, 49, 50)
        &&& V4L2_PIX_FMT_BGRA444 == fourcc_code(71, 65, 49, 50)
        &&& V4L2_PIX_FMT_BGRX444 == fourcc_code(66, 88, 49, 50)
        &&& V4L2_PIX_FMT_RGB555 == fourcc_code(82, 71, 66, 79)
        &&& V4L2_PIX_FMT_ARGB555 == fourcc_code(65, 82, 49, 53)
        &&& V4L2_PIX_FMT_XRGB555 == fourcc_code(88, 82, 49, 53)
        &&& V4L2_PIX_FMT_RGBA555 == fourcc_code(82, 65, 49, 53)
        &&& V4L2_PIX_FMT_RGBX555 == fourcc_code(82, 88, 49, 53)
        &&& V4L2_PIX_FMT_ABGR555 == fourcc_code(65, 66, 49, 53)
        &&& V4L2_PIX_FMT_XBGR555 == fourcc_code(88, 66, 49, 53)
        &&& V4L2_PIX_FMT_BGRA555 == fourcc_code(66, 65, 49, 53)
        &&& V4L2_PIX_FMT_BGRX555 == fourcc_code(66, 88, 49, 53)
        &&& V4L2_PIX_FMT_RGB565 == fourcc_code(82, 71, 66, 80)
        &&& V4L2_PIX_FMT_RGB555X == fourcc_code(82, 71, 66, 81)
        &&& V4L2_PIX_FMT_ARGB555X == fourcc_be_code(65, 82, 49, 53)
        &&& V4L2_PIX_FMT_XRGB555X == fourcc_be_code(88, 82, 49, 53)
        &&& V4L2_PIX_FMT_RGB565X == fourcc_code(82, 71, 66, 82)
        &&& V4L2_PIX_FMT_BGR666 == fourcc_code(66, 71, 82, 72)
        &&& V4L2_PIX_FMT_BGR24 == fourcc_code(66, 71, 82, 51)
        &&& V4L2_PIX_FMT_RGB24 == fourcc_code(82, 71, 66, 51)
        &&& V4L2_PIX_FMT_BGR32 == fourcc_code(66, 71, 82, 52)
        &&& V4L2_PIX_FMT_ABGR32 == fourcc_code(65, 82, 50, 52)
        &&& V4L2_PIX_FMT_XBGR32 == fourcc_code(88, 82, 50, 52)
        &&& V4L2_PIX_FMT_BGRA32 == fourcc_code(82, 65, 50, 52)
        &&& V4L2_PIX_FMT_BGRX32 == fourcc_code(82, 88, 50, 52)
        &&& V4L2_PIX_FMT_RGB32 == fourcc_code(82, 71, 66, 52)
        &&& V4L2_PIX_FMT_RGBA32 == fourcc_code(65, 66, 50, 52)
        &&& V4L2_PIX_FMT_RGBX32 == fourcc_code(88, 66, 50, 52)
        &&& V4L2_PIX_FMT_ARGB32 == fourcc_code(66, 65, 50, 52)
        &&& V4L2_PIX_FMT_XRGB32 == fourcc_code(66, 88, 50, 52)
        &&& V4L2_PIX_FMT_RGBX1010102 == fourcc_code(82, 88, 51, 48)
        &&& V4L2_PIX_FMT_RGBA1010102 == fourcc_code(82, 65, 51, 48)
        &&& V4L2_PIX_FMT_ARGB2101010 == fourcc_code(65, 82, 51, 48)
        &&& V4L2_PIX_FMT_BGR48_12 == fourcc_code(66, 51, 49, 50)
        &&& V4L2_PIX_FMT_BGR48 == fourcc_code(66, 71, 82, 54)
        &&& V4L2_PIX_FMT_RGB48 == fourcc_code(82, 71, 66, 54)
        &&& V4L2_PIX_FMT_ABGR64_12 == fourcc_code(66, 52, 49, 50)
        &&& V4L2_PIX_FMT_GREY == fourcc_code(71, 82, 69, 89)
        &&& V4L2_PIX_FMT_Y4 == fourcc_code(89, 48, 52, 32)
        &&& V4L2_PIX_FMT_Y6 == fourcc_code(89, 48, 54, 32)
        &&& V4L2_PIX_FMT_Y10 == fourcc_code(89, 49, 48, 32)
        &&& V4L2_PIX_FMT_Y12 == fourcc_code(89, 49, 50, 32)
        &&& V4L2_PIX_FMT_Y012 == fourcc_code(89, 48, 49, 50)
        &&& V4L2_PIX_FMT_Y14 == fourcc_code(89, 49, 52, 32)
        &&& V4L2_PIX_FMT_Y16 == fourcc_code(89, 49, 54, 32)
        &&& V4L2_PIX_FMT_Y16_BE == fourcc_be_code(89, 49, 54, 32)
        &&& V4L2_PIX_FMT_Y10BPACK == fourcc_code(89, 49, 48, 66)
        &&& V4L2_PIX_FMT_Y10P == fourcc_code(89, 49, 48, 80)
        &&& V4L2_PIX_FMT_IPU3_Y10 == fourcc_code(105, 112, 51, 121)
        &&& V4L2_PIX_FMT_Y12P == fourcc_code(89, 49, 50, 80)
        &&& V4L2_PIX_FMT_Y14P == fourcc_code(89, 49, 52, 80)
        &&& V4L2_PIX_FMT_PAL8 == fourcc_code(80, 65, 76, 56)
        &&& V4L2_PIX_FMT_UV8 == fourcc_code(85, 86, 56, 32)
        &&& V4L2_PIX_FMT_YUYV == fourcc_code(89, 85, 89, 86)
        &&& V4L2_PIX_FMT_YYUV == fourcc_code(89, 89, 85, 86)
        &&& V4L2_PIX_FMT_YVYU == fourcc_code(89, 86, 89, 85)
        &&& V4L2_PIX_FMT_UYVY == fourcc_code(85, 89, 86, 89)
        &&& V4L2_PIX_FMT_VYUY == fourcc_code(86, 89, 85, 89)
        &&& V4L2_PIX_FMT_Y41P == fourcc_code(89, 52, 49, 80)
        &&& V4L2_PIX_FMT_YUV444 == fourcc_code(89, 52, 52, 52)
        &&& V4L2_PIX_FMT_YUV555 == fourcc_code(89, 85, 86, 79)
        &&& V4L2_PIX_FMT_YUV565 == fourcc_code(89, 85, 86, 80)
        &&& V4L2_PIX_FMT_YUV24 == fourcc_code(89, 85, 86, 51)
        &&& V4L2_PIX_FMT_YUV32 == fourcc_code(89, 85, 86, 52)
        &&& V4L2_PIX_FMT_AYUV32 == fourcc_code(65, 89, 85, 86)
        &&& V4L2_PIX_FMT_XYUV32 == fourcc_code(88, 89, 85, 86)
        &&& V4L2_PIX_FMT_VUYA32 == fourcc_code(86, 85, 89, 65)
        &&& V4L2_PIX_FMT_VUYX32 == fourcc_code(86, 85, 89, 88)
        &&& V4L2_PIX_FMT_YUVA32 == fourcc_code(89, 85, 86, 65)
        &&& V4L2_PIX_FMT_YUVX32 == fourcc_code(89, 85, 86, 88)
        &&& V4L2_PIX_FMT_M420 == fourcc_code(77, 52, 50, 48)
        &&& V4L2_PIX_FMT_YUV48_12 == fourcc_code(89, 51, 49, 50)
        &&& V4L2_PIX_FMT_Y210 == fourcc_code(89, 50, 49, 48)
        &&& V4L2_PIX_FMT_Y212 == fourcc_code(89, 50, 49, 50)
        &&& V4L2_PIX_FMT_Y216 == fourcc_code(89, 50, 49, 54)
        &&& V4L2_PIX_FMT_NV12 == fourcc_code(78, 86, 49, 50)
        &&& V4L2_PIX_FMT_NV21 == fourcc_code(78, 86, 50, 49)
        &&& V4L2_PIX_FMT_NV15 == fourcc_code(78, 86, 49, 53)
        &&& V4L2_PIX_FMT_NV16 == fourcc_code(78, 86, 49, 54)
        &&& V4L2_PIX_FMT_NV61 == fourcc_code(78, 86, 54, 49)
        &&& V4L2_PIX_FMT_NV20 == fourcc_code(78, 86, 50, 48)
        &&& V4L2_PIX_FMT_NV24 == fourcc_code(78, 86, 50, 52)
        &&& V4L2_PIX_FMT_NV42 == fourcc_code(78, 86, 52, 50)
        &&& V4L2_PIX_FMT_P010 == fourcc_code(80, 48, 49, 48)
        &&& V4L2_PIX_FMT_P012 == fourcc_code(80, 48, 49, 50)
        &&& V4L2_PIX_FMT_NV12M == fourcc_code(78, 77, 49, 50)
        &&& V4L2_PIX_FMT_NV21M == fourcc_code(78, 77, 50, 49)
        &&& V4L2_PIX_FMT_NV16M == fourcc_code(78, 77, 49, 54)
        &&& V4L2_PIX_FMT_NV61M == fourcc_code(78, 77, 54, 49)
        &&& V4L2_PIX_FMT_P012M == fourcc_code(80, 77, 49, 50)
        &&& V4L2_PIX_FMT_YUV410 == fourcc_code(89, 85, 86, 57)
        &&& V4L2_PIX_FMT_YVU410 == fourcc_code(89, 86, 85, 57)
        &&& V4L2_PIX_FMT_YUV411P == fourcc_code(52, 49, 49, 80)
        &&& V4L2_PIX_FMT_YUV420 == fourcc_code(89, 85, 49, 50)
        &&& V4L2_PIX_FMT_YVU420 == fourcc_code(89, 86, 49, 50)
        &&& V4L2_PIX_FMT_YUV422P == fourcc_code(52, 50, 50, 80)
        &&& V4L2_PIX_FMT_YUV420M == fourcc_code(89, 77, 49, 50)
        &&& V4L2_PIX_FMT_YVU420M == fourcc_code(89, 77, 50, 49)
        &&& V4L2_PIX_FMT_YUV422M == fourcc_code(89, 77, 49, 54)
        &&& V4L2_PIX_FMT_YVU422M == fourcc_code(89, 77, 54, 49)
        &&& V4L2_PIX_FMT_YUV444M == fourcc_code(89, 77, 50, 52)
        &&& V4L2_PIX_FMT_YVU444M == fourcc_code(89, 77, 52, 50)
        &&& V4L2_PIX_FMT_NV12_4L4 == fourcc_code(86, 84, 49, 50)
        &&& V4L2_PIX_FMT_NV12_16L16 == fourcc_code(72, 77, 49, 50)
        &&& V4L2_PIX_FMT_NV12_32L32 == fourcc_code(83, 84, 49, 50)
        &&& V4L2_PIX_FMT_NV15_4L4 == fourcc_code(86, 84, 49, 53)
        &&& V4L2_PIX_FMT_P010_4L4 == fourcc_code(84, 48, 49, 48)
        &&& V4L2_PIX_FMT_NV12_8L128 == fourcc_code(65, 84, 49, 50)
        &&& V4L2_PIX_FMT_NV12_10BE_8L128 == fourcc_be_code(65, 88, 49, 50)
        &&& V4L2_PIX_FMT_NV12MT == fourcc_code(84, 77, 49, 50)
        &&& V4L2_PIX_FMT_NV12MT_16X16 == fourcc_code(86, 77, 49, 50)
        &&& V4L2_PIX_FMT_NV12M_8L128 == fourcc_code(78, 65, 49, 50)
        &&& V4L2_PIX_FMT_NV12M_10BE_8L128 == fourcc_be_code(78, 84, 49, 50)
        &&& V4L2_PIX_FMT_SBGGR8 == fourcc_code(66, 65, 56, 49)
        &&& V4L2_PIX_FMT_SGBRG8 == fourcc_code(71, 66, 82, 71)
        &&& V4L2_PIX_FMT_SGRBG8 == fourcc_code(71, 82, 66, 71)
        &&& V4L2_PIX_FMT_SRGGB8 == fourcc_code(82, 71, 71, 66)
        &&& V4L2_PIX_FMT_SBGGR10 == fourcc_code(66, 71, 49, 48)
        &&& V4L2_PIX_FMT_SGBRG10 == fourcc_code(71, 66, 49, 48)
        &&& V4L2_PIX_FMT_SGRBG10 == fourcc_code(66, 65, 49, 48)
        &&& V4L2_PIX_FMT_SRGGB10 == fourcc_code(82, 71, 49, 48)
        &&& V4L2_PIX_FMT_SBGGR10P == fourcc_code(112, 66, 65, 65)
        &&& V4L2_PIX_FMT_SGBRG10P == fourcc_code(112, 71, 65, 65)
        &&& V4L2_PIX_FMT_SGRBG10P == fourcc_code(112, 103, 65, 65)
        &&& V4L2_PIX_FMT_SRGGB10P == fourcc_code(112, 82, 65, 65)
        &&& V4L2_PIX_FMT_SBGGR10ALAW8 == fourcc_code(97, 66, 65, 56)
        &&& V4L2_PIX_FMT_SGBRG10ALAW8 == fourcc_code(97, 71, 65, 56)
        &&& V4L2_PIX_FMT_SGRBG10ALAW8 == fourcc_code(97, 103, 65, 56)
        &&& V4L2_PIX_FMT_SRGGB10ALAW8 == fourcc_code(97, 82, 65, 56)
        &&& V4L2_PIX_FMT_SBGGR10DPCM8 == fourcc_code(98, 66, 65, 56)
        &&& V4L2_PIX_FMT_SGBRG10DPCM8 == fourcc_code(98, 71, 65, 56)
        &&& V4L2_PIX_FMT_SGRBG10DPCM8 == fourcc_code(66, 68, 49, 48)
        &&& V4L2_PIX_FMT_SRGGB10DPCM8 == fourcc_code(98, 82, 65, 56)
        &&& V4L2_PIX_FMT_SBGGR12 == fourcc_code(66, 71, 49, 50)
        &&& V4L2_PIX_FMT_SGBRG12 == fourcc_code(71, 66, 49, 50)
        &&& V4L2_PIX_FMT_SGRBG12 == fourcc_code(66, 65, 49, 50)
        &&& V4L2_PIX_FMT_SRGGB12 == fourcc_code(82, 71, 49, 50)
        &&& V4L2_PIX_FMT_SBGGR12P == fourcc_code(112, 66, 67, 67)
        &&& V4L2_PIX_FMT_SGBRG12P == fourcc_code(112, 71, 67, 67)
        &&& V4L2_PIX_FMT_SGRBG12P == fourcc_code(112, 103, 67, 67)
        &&& V4L2_PIX_FMT_SRGGB12P == fourcc_code(112, 82, 67, 67)
        &&& V4L2_PIX_FMT_SBGGR14 == fourcc_code(66, 71, 49, 52)
        &&& V4L2_PIX_FMT_SGBRG14 == fourcc_code(71, 66, 49, 52)
        &&& V4L2_PIX_FMT_SGRBG14 == fourcc_code(71, 82, 49, 52)
        &&& V4L2_PIX_FMT_SRGGB14 == fourcc_code(82, 71, 49, 52)
        &&& V4L2_PIX_FMT_SBGGR14P == fourcc_code(112, 66, 69, 69)
        &&& V4L2_PIX_FMT_SGBRG14P == fourcc_code(112, 71, 69, 69)
        &&& V4L2_PIX_FMT_SGRBG14P == fourcc_code(112, 103, 69, 69)
        &&& V4L2_PIX_FMT_SRGGB14P == fourcc_code(112, 82, 69, 69)
        &&& V4L2_PIX_FMT_SBGGR16 == fourcc_code(66, 89, 82, 50)
        &&& V4L2_PIX_FMT_SGBRG16 == fourcc_code(71, 66, 49, 54)
        &&& V4L2_PIX_FMT_SGRBG16 == fourcc_code(71, 82, 49, 54)
        &&& V4L2_PIX_FMT_SRGGB16 == fourcc_code(82, 71, 49, 54)
        &&& V4L2_PIX_FMT_HSV24 == fourcc_code(72, 83, 86, 51)
        &&& V4L2_PIX_FMT_HSV32 == fourcc_code(72, 83, 86, 52)
        &&& V4L2_PIX_FMT_MJPEG == fourcc_code(77, 74, 80, 71)
        &&& V4L2_PIX_FMT_JPEG == fourcc_code(74, 80, 69, 71)
        &&& V4L2_PIX_FMT_DV == fourcc_code(100, 118, 115, 100)
        &&& V4L2_PIX_FMT_MPEG == fourcc_code(77, 80, 69, 71)
        &&& V4L2_PIX_FMT_H264 == fourcc_code(72, 50, 54, 52)
        &&& V4L2_PIX_FMT_H264_NO_SC == fourcc_code(65, 86, 67, 49)
        &&& V4L2_PIX_FMT_H264_MVC == fourcc_code(77, 50, 54, 52)
        &&& V4L2_PIX_FMT_H263 == fourcc_code(72, 50, 54, 51)
        &&& V4L2_PIX_FMT_MPEG1 == fourcc_code(77, 80, 71, 49)
        &&& V4L2_PIX_FMT_MPEG2 == fourcc_code(77, 80, 71, 50)
        &&& V4L2_PIX_FMT_MPEG2_SLICE == fourcc_code(77, 71, 50, 83)
        &&& V4L2_PIX_FMT_MPEG4 == fourcc_code(77, 80, 71, 52)
        &&& V4L2_PIX_FMT_XVID == fourcc_code(88, 86, 73, 68)
        &&& V4L2_PIX_FMT_VC1_ANNEX_G == fourcc_code(86, 67, 49, 71)
        &&& V4L2_PIX_FMT_VC1_ANNEX_L == fourcc_code(86, 67, 49, 76)
        &&& V4L2_PIX_FMT_VP8 == fourcc_code(86, 80, 56, 48)
        &&& V4L2_PIX_FMT_VP8_FRAME == fourcc_code(86, 80, 56, 70)
        &&& V4L2_PIX_FMT_VP9 == fourcc_code(86, 80, 57, 48)
        &&& V4L2_PIX_FMT_VP9_FRAME == fourcc_code(86, 80, 57, 70)
        &&& V4L2_PIX_FMT_HEVC == fourcc_code(72, 69, 86, 67)
        &&& V4L2_PIX_FMT_FWHT == fourcc_code(70, 87, 72, 84)
        &&& V4L2_PIX_FMT_FWHT_STATELESS == fourcc_code(83, 70, 87, 72)
        &&& V4L2_PIX_FMT_H264_SLICE == fourcc_code(83, 50, 54, 52)
        &&& V4L2_PIX_FMT_HEVC_SLICE == fourcc_code(83, 50, 54, 53)
        &&& V4L2_PIX_FMT_AV1_FRAME == fourcc_code(65, 86, 49, 70)
        &&& V4L2_PIX_FMT_SPK == fourcc_code(83, 80, 75, 48)
        &&& V4L2_PIX_FMT_RV30 == fourcc_code(82, 86, 51, 48)
        &&& V4L2_PIX_FMT_RV40 == fourcc_code(82, 86, 52, 48)
        &&& V4L2_PIX_FMT_CPIA1 == fourcc_code(67, 80, 73, 65)
        &&& V4L2_PIX_FMT_WNVA == fourcc_code(87, 78, 86, 65)
        &&& V4L2_PIX_FMT_SN9C10X == fourcc_code(83, 57, 49, 48)
        &&& V4L2_PIX_FMT_SN9C20X_I420 == fourcc_code(83, 57, 50, 48)
        &&& V4L2_PIX_FMT_PWC1 == fourcc_code(80, 87, 67, 49)
        &&& V4L2_PIX_FMT_PWC2 == fourcc_code(80, 87, 67, 50)
        &&& V4L2_PIX_FMT_ET61X251 == fourcc_code(69, 54, 50, 53)
        &&& V4L2_PIX_FMT_SPCA501 == fourcc_code(83, 53, 48, 49)
        &&& V4L2_PIX_FMT_SPCA505 == fourcc_code(83, 53, 48, 53)
        &&& V4L2_PIX_FMT_SPCA508 == fourcc_code(83, 53, 48, 56)
        &&& V4L2_PIX_FMT_SPCA561 == fourcc_code(83, 53, 54, 49)
        &&& V4L2_PIX_FMT_PAC207 == fourcc_code(80, 50, 48, 55)
        &&& V4L2_PIX_FMT_MR97310A == fourcc_code(77, 51, 49, 48)
        &&& V4L2_PIX_FMT_JL2005BCD == fourcc_code(74, 76, 50, 48)
        &&& V4L2_PIX_FMT_SN9C2028 == fourcc_code(83, 79, 78, 88)
        &&& V4L2_PIX_FMT_SQ905C == fourcc_code(57, 48, 53, 67)
        &&& V4L2_PIX_FMT_PJPG == fourcc_code(80, 74, 80, 71)
        &&& V4L2_PIX_FMT_OV511 == fourcc_code(79, 53, 49, 49)
        &&& V4L2_PIX_FMT_OV518 == fourcc_code(79, 53, 49, 56)
        &&& V4L2_PIX_FMT_STV0680 == fourcc_code(83, 54, 56, 48)
        &&& V4L2_PIX_FMT_TM6000 == fourcc_code(84, 77, 54, 48)
        &&& V4L2_PIX_FMT_CIT_YYVYUY == fourcc_code(67, 73, 84, 86)
        &&& V4L2_PIX_FMT_KONICA420 == fourcc_code(75, 79, 78, 73)
        &&& V4L2_PIX_FMT_JPGL == fourcc_code(74, 80, 71, 76)
        &&& V4L2_PIX_FMT_SE401 == fourcc_code(83, 52, 48, 49)
        &&& V4L2_PIX_FMT_S5C_UYVY_JPG == fourcc_code(83, 53, 67, 73)
        &&& V4L2_PIX_FMT_Y8I == fourcc_code(89, 56, 73, 32)
        &&& V4L2_PIX_FMT_Y12I == fourcc_code(89, 49, 50, 73)
        &&& V4L2_PIX_FMT_Y16I == fourcc_code(89, 49, 54, 73)
        &&& V4L2_PIX_FMT_Z16 == fourcc_code(90, 49, 54, 32)
        &&& V4L2_PIX_FMT_MT21C == fourcc_code(77, 84, 50, 49)
        &&& V4L2_PIX_FMT_MM21 == fourcc_code(77, 77, 50, 49)
        &&& V4L2_PIX_FMT_MT2110T == fourcc_code(77, 84, 50, 84)
        &&& V4L2_PIX_FMT_MT2110R == fourcc_code(77, 84, 50, 82)
        &&& V4L2_PIX_FMT_INZI == fourcc_code(73, 78, 90, 73)
        &&& V4L2_PIX_FMT_CNF4 == fourcc_code(67, 78, 70, 52)
        &&& V4L2_PIX_FMT_HI240 == fourcc_code(72, 73, 50, 52)
        &&& V4L2_PIX_FMT_QC08C == fourcc_code(81, 48, 56, 67)
        &&& V4L2_PIX_FMT_QC10C == fourcc_code(81, 49, 48, 67)
        &&& V4L2_PIX_FMT_AJPG == fourcc_code(65, 74, 80, 71)
        &&& V4L2_PIX_FMT_HEXTILE == fourcc_code(72, 88, 84, 76)
        &&& V4L2_PIX_FMT_IPU3_SBGGR10 == fourcc_code(105, 112, 51, 98)
        &&& V4L2_PIX_FMT_IPU3_SGBRG10 == fourcc_code(105, 112, 51, 103)
        &&& V4L2_PIX_FMT_IPU3_SGRBG10 == fourcc_code(105, 112, 51, 71)
        &&& V4L2_PIX_FMT_IPU3_SRGGB10 == fourcc_code(105, 112, 51, 114)
        &&& V4L2_PIX_FMT_PISP_COMP1_RGGB == fourcc_code(80, 67, 49, 82)
        &&& V4L2_PIX_FMT_PISP_COMP1_GRBG == fourcc_code(80, 67, 49, 71)
        &&& V4L2_PIX_FMT_PISP_COMP1_GBRG == fourcc_code(80, 67, 49, 103)
        &&& V4L2_PIX_FMT_PISP_COMP1_BGGR == fourcc_code(80, 67, 49, 66)
        &&& V4L2_PIX_FMT_PISP_COMP1_MONO == fourcc_code(80, 67, 49, 77)
        &&& V4L2_PIX_FMT_PISP_COMP2_RGGB == fourcc_code(80, 67, 50, 82)
        &&& V4L2_PIX_FMT_PISP_COMP2_GRBG == fourcc_code(80, 67, 50, 71)
        &&& V4L2_PIX_FMT_PISP_COMP2_GBRG == fourcc_code(80, 67, 50, 103)
        &&& V4L2_PIX_FMT_PISP_COMP2_BGGR == fourcc_code(80, 67, 50, 66)
        &&& V4L2_PIX_FMT_PISP_COMP2_MONO == fourcc_code(80, 67, 50, 77)
        &&& V4L2_PIX_FMT_RAW_CRU10 == fourcc_code(67, 82, 49, 48)
        &&& V4L2_PIX_FMT_RAW_CRU12 == fourcc_code(67, 82, 49, 50)
        &&& V4L2_PIX_FMT_RAW_CRU14 == fourcc_code(67, 82, 49, 52)
        &&& V4L2_PIX_FMT_RAW_CRU20 == fourcc_code(67, 82, 50, 48)
        &&& V4L2_SDR_FMT_CU8 == fourcc_code(67, 85, 48, 56)
        &&& V4L2_SDR_FMT_CU16LE == fourcc_code(67, 85, 49, 54)
        &&& V4L2_SDR_FMT_CS8 == fourcc_code(67, 83, 48, 56)
        &&& V4L2_SDR_FMT_CS14LE == fourcc_code(67, 83, 49, 52)
        &&& V4L2_SDR_FMT_RU12LE == fourcc_code(82, 85, 49, 50)
        &&& V4L2_SDR_FMT_PCU16BE == fourcc_code(80, 67, 49, 54)
        &&& V4L2_SDR_FMT_PCU18BE == fourcc_code(80, 67, 49, 56)
        &&& V4L2_SDR_FMT_PCU20BE == fourcc_code(80, 67, 50, 48)
        &&& V4L2_TCH_FMT_DELTA_TD16 == fourcc_code(84, 68, 49, 54)
        &&& V4L2_TCH_FMT_DELTA_TD08 == fourcc_code(84, 68, 48, 56)
        &&& V4L2_TCH_FMT_TU16 == fourcc_code(84, 85, 49, 54)
        &&& V4L2_TCH_FMT_TU08 == fourcc_code(84, 85, 48, 56)
        &&& V4L2_META_FMT_VSP1_HGO == fourcc_code(86, 83, 80, 72)
        &&& V4L2_META_FMT_VSP1_HGT == fourcc_code(86, 83, 80, 84)
        &&& V4L2_META_FMT_UVC == fourcc_code(85, 86, 67, 72)
        &&& V4L2_META_FMT_D4XX == fourcc_code(68, 52, 88, 88)
        &&& V4L2_META_FMT_UVC_MSXU_1_5 == fourcc_code(85, 86, 67, 77)
        &&& V4L2_META_FMT_VIVID == fourcc_code(86, 73, 86, 68)
        &&& V4L2_META_FMT_RK_ISP1_PARAMS == fourcc_code(82, 75, 49, 80)
        &&& V4L2_META_FMT_RK_ISP1_STAT_3A == fourcc_code(82, 75, 49, 83)
        &&& V4L2_META_FMT_RK_ISP1_EXT_PARAMS == fourcc_code(82, 75, 49, 69)
        &&& V4L2_META_FMT_C3ISP_PARAMS == fourcc_code(67, 51, 80, 77)
        &&& V4L2_META_FMT_C3ISP_STATS == fourcc_code(67, 51, 83, 84)
        &&& V4L2_META_FMT_RPI_BE_CFG == fourcc_code(82, 80, 66, 67)
        &&& V4L2_META_FMT_RPI_FE_CFG == fourcc_code(82, 80, 70, 67)
        &&& V4L2_META_FMT_RPI_FE_STATS == fourcc_code(82, 80, 70, 83)
        &&& V4L2_META_FMT_MALI_C55_PARAMS == fourcc_code(67, 53, 53, 80)
        &&& V4L2_META_FMT_MALI_C55_STATS == fourcc_code(67, 53, 53, 83)
    }) by (bit_vector);
}

} // verus!
