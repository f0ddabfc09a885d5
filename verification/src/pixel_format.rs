//! The pixel-format vocabulary: FFmpeg's `AV_PIX_FMT_*` formats plus the Bayer and cinema-RAW
//! extensions, each with a lowercase slug and a stable `u32` wire id.
//!
//! Open: a name this build does not enumerate is carried by [`PixelFormat::Other`] in its ASCII
//! lower case. Emission is injective and canonical — one slug per format, never a synonym — and the
//! parse is the wider side: it also reads the three names FFmpeg's `av_get_pix_fmt_name` renders
//! differently from the header identifier (`gray`, `monob`, `monow`).
use vstd::prelude::*;
use vstd::std_specs::cmp::PartialEqSpecImpl;
use crate::parse::{
    Term, parse_spelled, parse_spelling, term_text, well_formed_roster, text_key,
    lemma_spelled_named, lemma_spelled_idempotent,
};
use crate::text::{str_equal, lower, upper, begins_with};

verus! {

/// Pixel format identifier covering FFmpeg, Bayer and cinema-RAW layouts. The default is the named
/// [`Self::NoFormat`], FFmpeg's own `AV_PIX_FMT_NONE`.
#[derive(Debug, Clone, Eq, Hash)]
pub enum PixelFormat {
    /// No format — FFmpeg's own `AV_PIX_FMT_NONE`, and the [`Default`].
    NoFormat,
    /// Planar 4:2:0 YUV, 8-bit (`AV_PIX_FMT_YUV420P`).
    Yuv420p,
    /// Planar 4:2:2 YUV, 8-bit.
    Yuv422p,
    /// Planar 4:4:0 YUV, 8-bit (vertically subsampled chroma).
    Yuv440p,
    /// Planar 4:4:4 YUV, 8-bit.
    Yuv444p,
    /// Planar 4:1:1 YUV, 8-bit.
    Yuv411p,
    /// Planar 4:1:0 YUV, 8-bit.
    Yuv410p,
    /// Deprecated full-range alias of [`Self::Yuv411p`] (FFmpeg keeps for
    /// backward compat; downstream should prefer [`Self::Yuv411p`] +
    /// `DynamicRange::Full`).
    Yuvj411p,
    /// Deprecated full-range alias of [`Self::Yuv420p`] (FFmpeg keeps for
    /// backward compat; downstream should prefer [`Self::Yuv420p`] +
    /// `DynamicRange::Full`).
    Yuvj420p,
    /// Deprecated full-range alias of [`Self::Yuv422p`] (FFmpeg keeps for
    /// backward compat; downstream should prefer [`Self::Yuv422p`] +
    /// `DynamicRange::Full`).
    Yuvj422p,
    /// Deprecated full-range alias of [`Self::Yuv440p`] (FFmpeg keeps for
    /// backward compat; downstream should prefer [`Self::Yuv440p`] +
    /// `DynamicRange::Full`).
    Yuvj440p,
    /// Deprecated full-range alias of [`Self::Yuv444p`] (FFmpeg keeps for
    /// backward compat; downstream should prefer [`Self::Yuv444p`] +
    /// `DynamicRange::Full`).
    Yuvj444p,
    /// Planar 4:2:0 YUV, 9-bit little-endian.
    Yuv420p9Le,
    /// Planar 4:2:0 YUV, 9-bit big-endian.
    Yuv420p9Be,
    /// Planar 4:2:0 YUV, 10-bit little-endian.
    Yuv420p10Le,
    /// Planar 4:2:0 YUV, 10-bit big-endian.
    Yuv420p10Be,
    /// Planar 4:2:0 YUV, 12-bit little-endian.
    Yuv420p12Le,
    /// Planar 4:2:0 YUV, 12-bit big-endian.
    Yuv420p12Be,
    /// Planar 4:2:0 YUV, 14-bit little-endian.
    Yuv420p14Le,
    /// Planar 4:2:0 YUV, 14-bit big-endian.
    Yuv420p14Be,
    /// Planar 4:2:0 YUV, 16-bit little-endian.
    Yuv420p16Le,
    /// Planar 4:2:0 YUV, 16-bit big-endian.
    Yuv420p16Be,
    /// Planar 4:2:2 YUV, 9-bit little-endian.
    Yuv422p9Le,
    /// Planar 4:2:2 YUV, 9-bit big-endian.
    Yuv422p9Be,
    /// Planar 4:2:2 YUV, 10-bit little-endian.
    Yuv422p10Le,
    /// Planar 4:2:2 YUV, 10-bit big-endian.
    Yuv422p10Be,
    /// Planar 4:2:2 YUV, 12-bit little-endian.
    Yuv422p12Le,
    /// Planar 4:2:2 YUV, 12-bit big-endian.
    Yuv422p12Be,
    /// Planar 4:2:2 YUV, 14-bit little-endian.
    Yuv422p14Le,
    /// Planar 4:2:2 YUV, 14-bit big-endian.
    Yuv422p14Be,
    /// Planar 4:2:2 YUV, 16-bit little-endian.
    Yuv422p16Le,
    /// Planar 4:2:2 YUV, 16-bit big-endian.
    Yuv422p16Be,
    /// Planar 4:4:0 YUV, 10-bit little-endian.
    Yuv440p10Le,
    /// Planar 4:4:0 YUV, 10-bit big-endian.
    Yuv440p10Be,
    /// Planar 4:4:0 YUV, 12-bit little-endian.
    Yuv440p12Le,
    /// Planar 4:4:0 YUV, 12-bit big-endian.
    Yuv440p12Be,
    /// Planar 4:4:4 YUV, 9-bit little-endian.
    Yuv444p9Le,
    /// Planar 4:4:4 YUV, 9-bit big-endian.
    Yuv444p9Be,
    /// Planar 4:4:4 YUV, 10-bit little-endian.
    Yuv444p10Le,
    /// Planar 4:4:4 YUV, 10-bit big-endian.
    Yuv444p10Be,
    /// Planar 4:4:4 YUV, 12-bit little-endian.
    Yuv444p12Le,
    /// Planar 4:4:4 YUV, 12-bit big-endian.
    Yuv444p12Be,
    /// Planar 4:4:4 YUV, 14-bit little-endian.
    Yuv444p14Le,
    /// Planar 4:4:4 YUV, 14-bit big-endian.
    Yuv444p14Be,
    /// Planar 4:4:4 YUV, 16-bit little-endian.
    Yuv444p16Le,
    /// Planar 4:4:4 YUV, 16-bit big-endian.
    Yuv444p16Be,
    /// Planar 4:4:4 YUV, 10-bit MSB-packed, little-endian.
    Yuv444p10MsbLe,
    /// Planar 4:4:4 YUV, 10-bit MSB-packed, big-endian.
    Yuv444p10MsbBe,
    /// Planar 4:4:4 YUV, 12-bit MSB-packed, little-endian.
    Yuv444p12MsbLe,
    /// Planar 4:4:4 YUV, 12-bit MSB-packed, big-endian.
    Yuv444p12MsbBe,
    /// Planar 4:2:0 YUVA, 8-bit.
    Yuva420p,
    /// Planar 4:2:2 YUVA, 8-bit.
    Yuva422p,
    /// Planar 4:4:4 YUVA, 8-bit.
    Yuva444p,
    /// Planar 4:2:0 YUVA, 9-bit little-endian.
    Yuva420p9Le,
    /// Planar 4:2:0 YUVA, 9-bit big-endian.
    Yuva420p9Be,
    /// Planar 4:2:2 YUVA, 9-bit little-endian.
    Yuva422p9Le,
    /// Planar 4:2:2 YUVA, 9-bit big-endian.
    Yuva422p9Be,
    /// Planar 4:4:4 YUVA, 9-bit little-endian.
    Yuva444p9Le,
    /// Planar 4:4:4 YUVA, 9-bit big-endian.
    Yuva444p9Be,
    /// Planar 4:2:0 YUVA, 10-bit little-endian.
    Yuva420p10Le,
    /// Planar 4:2:0 YUVA, 10-bit big-endian.
    Yuva420p10Be,
    /// Planar 4:2:2 YUVA, 10-bit little-endian.
    Yuva422p10Le,
    /// Planar 4:2:2 YUVA, 10-bit big-endian.
    Yuva422p10Be,
    /// Planar 4:4:4 YUVA, 10-bit little-endian.
    Yuva444p10Le,
    /// Planar 4:4:4 YUVA, 10-bit big-endian.
    Yuva444p10Be,
    /// Planar 4:2:0 YUVA, 12-bit little-endian
    /// (`AV_PIX_FMT_YUVA420P12LE`). Discriminant placed after
    /// the 16-bit block because the 12-bit slot in the in-order
    /// 200-series numbering (between 10Le at 206 and the 4:2:2
    /// 12Le at 209) was already taken by the 4:2:2 / 4:4:4
    /// 12Le forms; adding a new tail slot keeps existing
    /// discriminants stable. Surfaced by WebCodecs as the
    /// `I420AP12` `VideoPixelFormat`.
    Yuva420p12Le,
    /// Planar 4:2:0 YUVA, 12-bit big-endian (`yuva420p12be` — no FFmpeg
    /// `AV_PIX_FMT` enum; the byte-order sibling of [`Self::Yuva420p12Le`],
    /// supported for symmetry with the 9 / 10 / 16-bit YUVA 4:2:0 BE
    /// forms). Discriminant placed at the YUVA tail (after the 16Be
    /// block) for the same reason the 12Le form was: the in-order 200-
    /// series slots were already consumed, so a new tail slot keeps every
    /// existing discriminant stable.
    Yuva420p12Be,
    /// Planar 4:2:2 YUVA, 12-bit little-endian.
    Yuva422p12Le,
    /// Planar 4:2:2 YUVA, 12-bit big-endian.
    Yuva422p12Be,
    /// Planar 4:4:4 YUVA, 12-bit little-endian.
    Yuva444p12Le,
    /// Planar 4:4:4 YUVA, 12-bit big-endian.
    Yuva444p12Be,
    /// Planar 4:4:4 YUVA, 14-bit little-endian.
    Yuva444p14Le,
    /// Planar 4:2:0 YUVA, 16-bit little-endian.
    Yuva420p16Le,
    /// Planar 4:2:0 YUVA, 16-bit big-endian.
    Yuva420p16Be,
    /// Planar 4:2:2 YUVA, 16-bit little-endian.
    Yuva422p16Le,
    /// Planar 4:2:2 YUVA, 16-bit big-endian.
    Yuva422p16Be,
    /// Planar 4:4:4 YUVA, 16-bit little-endian.
    Yuva444p16Le,
    /// Planar 4:4:4 YUVA, 16-bit big-endian.
    Yuva444p16Be,
    /// 4:2:0 semi-planar Y plane + interleaved Cb/Cr (`AV_PIX_FMT_NV12`).
    Nv12,
    /// 4:2:0 semi-planar Y + interleaved Cr/Cb (`AV_PIX_FMT_NV21`).
    Nv21,
    /// 4:2:2 semi-planar Y + interleaved Cb/Cr.
    Nv16,
    /// 4:4:4 semi-planar Y + interleaved Cb/Cr.
    Nv24,
    /// 4:4:4 semi-planar Y + interleaved Cr/Cb.
    Nv42,
    /// 10-bit semi-planar 4:2:2 YUV — a Y plane plus an interleaved UV plane,
    /// one `u16` per sample with the 10 data bits in the **low** bits (P210's
    /// low-bit-packed twin), little-endian.
    Nv20Le,
    /// 10-bit semi-planar 4:2:2 YUV — a Y plane plus an interleaved UV plane,
    /// one `u16` per sample with the 10 data bits in the **low** bits (P210's
    /// low-bit-packed twin), big-endian.
    Nv20Be,
    /// 4:2:0 semi-planar 10-bit, little-endian (`AV_PIX_FMT_P010LE`).
    P010Le,
    /// 4:2:0 semi-planar 10-bit, big-endian.
    P010Be,
    /// 4:2:0 semi-planar 12-bit, little-endian.
    P012Le,
    /// 4:2:0 semi-planar 12-bit, big-endian.
    P012Be,
    /// 4:2:0 semi-planar 16-bit, little-endian.
    P016Le,
    /// 4:2:0 semi-planar 16-bit, big-endian.
    P016Be,
    /// 4:2:2 semi-planar 10-bit, little-endian.
    P210Le,
    /// 4:2:2 semi-planar 10-bit, big-endian.
    P210Be,
    /// 4:2:2 semi-planar 12-bit, little-endian (FFmpeg 5.1+).
    P212Le,
    /// 4:2:2 semi-planar 12-bit, big-endian (FFmpeg 5.1+).
    P212Be,
    /// 4:2:2 semi-planar 16-bit, little-endian.
    P216Le,
    /// 4:2:2 semi-planar 16-bit, big-endian.
    P216Be,
    /// 4:4:4 semi-planar 10-bit, little-endian.
    P410Le,
    /// 4:4:4 semi-planar 10-bit, big-endian.
    P410Be,
    /// 4:4:4 semi-planar 12-bit, little-endian (FFmpeg 5.1+).
    P412Le,
    /// 4:4:4 semi-planar 12-bit, big-endian (FFmpeg 5.1+).
    P412Be,
    /// 4:4:4 semi-planar 16-bit, little-endian.
    P416Le,
    /// 4:4:4 semi-planar 16-bit, big-endian.
    P416Be,
    /// 4:2:2 packed YUV: Y0 U Y1 V (`AV_PIX_FMT_YUYV422`).
    Yuyv422,
    /// 4:2:2 packed YUV: U Y0 V Y1 (`AV_PIX_FMT_UYVY422`).
    Uyvy422,
    /// 4:2:2 packed YUV: Y0 V Y1 U (`AV_PIX_FMT_YVYU422`).
    Yvyu422,
    /// Packed YUV 4:1:1, 12bpp (`AV_PIX_FMT_UYYVYY411`).
    Uyyvyy411,
    /// 4:2:2 packed YUV 10-bit, little-endian (`AV_PIX_FMT_Y210LE`).
    Y210Le,
    /// 4:2:2 packed YUV 10-bit, big-endian.
    Y210Be,
    /// 4:2:2 packed YUV 12-bit, little-endian (`AV_PIX_FMT_Y212LE`).
    Y212Le,
    /// 4:2:2 packed YUV 12-bit, big-endian.
    Y212Be,
    /// 4:2:2 packed YUV 16-bit, little-endian (`AV_PIX_FMT_Y216LE`).
    Y216Le,
    /// 4:2:2 packed YUV 16-bit, big-endian.
    Y216Be,
    /// 4:2:2 packed 10-bit, 3 samples per 32-bit word (`AV_PIX_FMT_V210`).
    V210,
    /// 4:4:4 packed 10-bit, one 32-bit word per sample (`AV_PIX_FMT_V410LE`).
    V410Le,
    /// 4:4:4 packed 10-bit, one 32-bit word per sample (`AV_PIX_FMT_V410BE`),
    /// big-endian.
    V410Be,
    /// 4:4:4 packed 10-bit, alternative layout (`AV_PIX_FMT_XV30LE`),
    /// little-endian.
    Xv30Le,
    /// 4:4:4 packed 10-bit, alternative layout (`AV_PIX_FMT_XV30BE`),
    /// big-endian.
    Xv30Be,
    /// 4:4:4 packed 10-bit, alternative layout (`AV_PIX_FMT_V30XLE`),
    /// little-endian (distinct slug from `xv30le`).
    V30xLe,
    /// 4:4:4 packed 10-bit, alternative layout (`AV_PIX_FMT_V30XBE`),
    /// big-endian (distinct slug from `xv30be`).
    V30xBe,
    /// 4:4:4 packed 12-bit, one 16-bit word per channel (`AV_PIX_FMT_XV36LE`),
    /// little-endian.
    Xv36Le,
    /// 4:4:4 packed 12-bit, one 16-bit word per channel (`AV_PIX_FMT_XV36BE`),
    /// big-endian.
    Xv36Be,
    /// 4:4:4 packed 16-bit, little-endian (`AV_PIX_FMT_XV48LE`).
    Xv48Le,
    /// 4:4:4 packed 16-bit, big-endian (`AV_PIX_FMT_XV48BE`).
    Xv48Be,
    /// 4:4:4 packed 8-bit byte quadruple V, U, Y, A (`AV_PIX_FMT_VUYA`).
    Vuya,
    /// 4:4:4 packed 8-bit V, U, Y, X (alpha-as-padding).
    Vuyx,
    /// Packed AYUV 4:4:4, 32bpp (8-bit; distinct from [`Self::Ayuv64Le`]/[`Self::Ayuv64Be`]).
    Ayuv,
    /// 4:4:4 packed 16-bit word quadruple A, Y, U, V (`AV_PIX_FMT_AYUV64LE`),
    /// little-endian.
    Ayuv64Le,
    /// 4:4:4 packed 16-bit word quadruple A, Y, U, V (`AV_PIX_FMT_AYUV64BE`),
    /// big-endian.
    Ayuv64Be,
    /// Packed UYVA 4:4:4, 32bpp.
    Uyva,
    /// Packed VYU 4:4:4 8-bit (3 bytes per pixel).
    Vyu444,
    /// Packed XYZ 4:4:4, 36bpp (12 bits each), little-endian.
    Xyz12Le,
    /// Packed XYZ 4:4:4, 36bpp (12 bits each), big-endian.
    Xyz12Be,
    /// 24-bit packed RGB (`AV_PIX_FMT_RGB24`).
    Rgb24,
    /// 24-bit packed BGR.
    Bgr24,
    /// 32-bit packed RGBA.
    Rgba,
    /// 32-bit packed BGRA.
    Bgra,
    /// 32-bit packed ARGB.
    Argb,
    /// 32-bit packed ABGR.
    Abgr,
    /// 32-bit packed RGB with X (unused) byte.
    /// FFmpeg slug uses `rgb0`-suffix; Rust variant uses `X` because
    /// identifiers can't start with a digit.
    Rgbx,
    /// 32-bit packed BGR with X (unused) byte.
    /// FFmpeg slug uses `bgr0`-suffix; Rust variant uses `X` because
    /// identifiers can't start with a digit.
    Bgrx,
    /// 32-bit packed XRGB (X unused, then RGB).
    /// FFmpeg slug uses `0rgb`-prefix; Rust variant uses `X` because
    /// identifiers can't start with a digit.
    Xrgb,
    /// 32-bit packed XBGR.
    /// FFmpeg slug uses `0bgr`-prefix; Rust variant uses `X` because
    /// identifiers can't start with a digit.
    Xbgr,
    /// 32-bit RGB10 in low bits, 2 bits unused (`AV_PIX_FMT_X2RGB10LE`),
    /// little-endian.
    X2Rgb10Le,
    /// 32-bit RGB10 in low bits, 2 bits unused, big-endian.
    X2Rgb10Be,
    /// 32-bit BGR10 in low bits, 2 bits unused, little-endian.
    X2Bgr10Le,
    /// 32-bit BGR10 in low bits, 2 bits unused, big-endian.
    X2Bgr10Be,
    /// Packed GBR 24bpp (distinct from planar [`Self::Gbrp`]).
    Gbr24p,
    /// 1+1+1+1-bit packed RGB.
    Rgb4,
    /// Same data as [`Self::Rgb4`], 1 byte per pixel.
    Rgb4Byte,
    /// 3+3+2-bit packed RGB.
    Rgb8,
    /// 1+1+1+1-bit packed BGR.
    Bgr4,
    /// Same data as [`Self::Bgr4`], 1 byte per pixel.
    Bgr4Byte,
    /// 3+3+2-bit packed BGR.
    Bgr8,
    /// 16-bit packed RGB, 4 bits per channel + 4 unused, little-endian.
    Rgb444Le,
    /// 16-bit packed RGB, 4 bits per channel + 4 unused, big-endian.
    Rgb444Be,
    /// 16-bit packed BGR, 4 bits per channel + 4 unused, little-endian.
    Bgr444Le,
    /// 16-bit packed BGR, 4 bits per channel + 4 unused, big-endian.
    Bgr444Be,
    /// 16-bit packed RGB, 5/5/5 layout, little-endian.
    Rgb555Le,
    /// 16-bit packed RGB, 5/5/5 layout, big-endian.
    Rgb555Be,
    /// 16-bit packed BGR, 5/5/5 layout, little-endian.
    Bgr555Le,
    /// 16-bit packed BGR, 5/5/5 layout, big-endian.
    Bgr555Be,
    /// 16-bit packed RGB, 5/6/5 layout, little-endian.
    Rgb565Le,
    /// 16-bit packed RGB, 5/6/5 layout, big-endian.
    Rgb565Be,
    /// 16-bit packed BGR, 5/6/5 layout, little-endian.
    Bgr565Le,
    /// 16-bit packed BGR, 5/6/5 layout, big-endian.
    Bgr565Be,
    /// 48-bit packed RGB, 16 bits per channel, little-endian.
    Rgb48Le,
    /// 48-bit packed RGB, 16 bits per channel, big-endian.
    Rgb48Be,
    /// 48-bit packed BGR, 16 bits per channel, little-endian.
    Bgr48Le,
    /// 48-bit packed BGR, 16 bits per channel, big-endian.
    Bgr48Be,
    /// 64-bit packed RGBA, 16 bits per channel, little-endian.
    Rgba64Le,
    /// 64-bit packed RGBA, 16 bits per channel, big-endian.
    Rgba64Be,
    /// 64-bit packed BGRA, 16 bits per channel, little-endian.
    Bgra64Le,
    /// 64-bit packed BGRA, 16 bits per channel, big-endian.
    Bgra64Be,
    /// 96-bit packed RGB, 32 bits per channel, little-endian.
    Rgb96Le,
    /// 96-bit packed RGB, 32 bits per channel, big-endian.
    Rgb96Be,
    /// 128-bit packed RGBA, 32 bits per channel, little-endian.
    Rgba128Le,
    /// 128-bit packed RGBA, 32 bits per channel, big-endian.
    Rgba128Be,
    /// 48-bit packed RGB, 16-bit half-float per channel, little-endian.
    Rgbf16Le,
    /// 48-bit packed RGB, 16-bit half-float per channel, big-endian.
    Rgbf16Be,
    /// 96-bit packed RGB, 32-bit float per channel, little-endian.
    Rgbf32Le,
    /// 96-bit packed RGB, 32-bit float per channel, big-endian.
    Rgbf32Be,
    /// 64-bit packed RGBA, 16-bit half-float per channel, little-endian.
    Rgbaf16Le,
    /// 64-bit packed RGBA, 16-bit half-float per channel, big-endian.
    Rgbaf16Be,
    /// 128-bit packed RGBA, 32-bit float per channel, little-endian.
    Rgbaf32Le,
    /// 128-bit packed RGBA, 32-bit float per channel, big-endian.
    Rgbaf32Be,
    /// Planar 4:4:4 G/B/R, 8-bit.
    Gbrp,
    /// Planar 4:4:4 G/B/R, 9-bit little-endian.
    Gbrp9Le,
    /// Planar 4:4:4 G/B/R, 9-bit big-endian.
    Gbrp9Be,
    /// Planar 4:4:4 G/B/R, 10-bit little-endian.
    Gbrp10Le,
    /// Planar 4:4:4 G/B/R, 10-bit big-endian.
    Gbrp10Be,
    /// Planar 4:4:4 G/B/R, 10-bit MSB-packed, little-endian.
    Gbrp10MsbLe,
    /// Planar 4:4:4 G/B/R, 10-bit MSB-packed, big-endian.
    Gbrp10MsbBe,
    /// Planar 4:4:4 G/B/R, 12-bit little-endian.
    Gbrp12Le,
    /// Planar 4:4:4 G/B/R, 12-bit big-endian.
    Gbrp12Be,
    /// Planar 4:4:4 G/B/R, 12-bit MSB-packed, little-endian.
    Gbrp12MsbLe,
    /// Planar 4:4:4 G/B/R, 12-bit MSB-packed, big-endian.
    Gbrp12MsbBe,
    /// Planar 4:4:4 G/B/R, 14-bit little-endian.
    Gbrp14Le,
    /// Planar 4:4:4 G/B/R, 14-bit big-endian.
    Gbrp14Be,
    /// Planar 4:4:4 G/B/R, 16-bit little-endian.
    Gbrp16Le,
    /// Planar 4:4:4 G/B/R, 16-bit big-endian.
    Gbrp16Be,
    /// Planar 4:4:4 G/B/R, 16-bit half-float, little-endian.
    Gbrpf16Le,
    /// Planar 4:4:4 G/B/R, 16-bit half-float, big-endian.
    Gbrpf16Be,
    /// Planar 4:4:4 G/B/R, 32-bit float, little-endian.
    Gbrpf32Le,
    /// Planar 4:4:4 G/B/R, 32-bit float, big-endian.
    Gbrpf32Be,
    /// Planar 4:4:4 G/B/R/A, 8-bit.
    Gbrap,
    /// Planar 4:4:4 G/B/R/A, 10-bit little-endian.
    Gbrap10Le,
    /// Planar 4:4:4 G/B/R/A, 10-bit big-endian.
    Gbrap10Be,
    /// Planar 4:4:4 G/B/R/A, 12-bit little-endian.
    Gbrap12Le,
    /// Planar 4:4:4 G/B/R/A, 12-bit big-endian.
    Gbrap12Be,
    /// Planar 4:4:4 G/B/R/A, 14-bit little-endian.
    Gbrap14Le,
    /// Planar 4:4:4 G/B/R/A, 14-bit big-endian.
    Gbrap14Be,
    /// Planar 4:4:4 G/B/R/A, 16-bit little-endian.
    Gbrap16Le,
    /// Planar 4:4:4 G/B/R/A, 16-bit big-endian.
    Gbrap16Be,
    /// Planar 4:4:4 G/B/R/A, 32-bit integer, little-endian.
    Gbrap32Le,
    /// Planar 4:4:4 G/B/R/A, 32-bit integer, big-endian.
    Gbrap32Be,
    /// Planar 4:4:4 G/B/R/A, 16-bit half-float, little-endian.
    Gbrapf16Le,
    /// Planar 4:4:4 G/B/R/A, 16-bit half-float, big-endian.
    Gbrapf16Be,
    /// Planar 4:4:4 G/B/R/A, 32-bit float, little-endian.
    Gbrapf32Le,
    /// Planar 4:4:4 G/B/R/A, 32-bit float, big-endian.
    Gbrapf32Be,
    /// 8-bit greyscale (`AV_PIX_FMT_GRAY8`).
    Gray8,
    /// 8-bit greyscale — FFmpeg `AV_PIX_FMT_GRAY8A` alias of [`Self::Ya8`];
    /// preserved as a separate variant since mediaframe's wire format is
    /// discriminant-independent.
    Gray8a,
    /// 9-bit greyscale, little-endian.
    Gray9Le,
    /// 9-bit greyscale, big-endian.
    Gray9Be,
    /// 10-bit greyscale, little-endian.
    Gray10Le,
    /// 10-bit greyscale, big-endian.
    Gray10Be,
    /// 12-bit greyscale, little-endian.
    Gray12Le,
    /// 12-bit greyscale, big-endian.
    Gray12Be,
    /// 14-bit greyscale, little-endian.
    Gray14Le,
    /// 14-bit greyscale, big-endian.
    Gray14Be,
    /// 16-bit greyscale, little-endian.
    Gray16Le,
    /// 16-bit greyscale, big-endian.
    Gray16Be,
    /// 32-bit integer greyscale, little-endian.
    Gray32Le,
    /// 32-bit integer greyscale, big-endian.
    Gray32Be,
    /// 32-bit float greyscale, little-endian.
    Grayf32Le,
    /// 32-bit float greyscale, big-endian.
    Grayf32Be,
    /// 16-bit half-float greyscale, little-endian.
    Grayf16Le,
    /// 16-bit half-float greyscale, big-endian.
    Grayf16Be,
    /// 16-bit greyscale-with-alpha.
    Ya8,
    /// FFmpeg `AV_PIX_FMT_Y400A` alias of [`Self::Ya8`]; preserved as a separate
    /// variant since mediaframe's wire format is discriminant-independent.
    Y400a,
    /// 32-bit greyscale-with-alpha, little-endian.
    Ya16Le,
    /// 32-bit greyscale-with-alpha, big-endian.
    Ya16Be,
    /// 16-bit half-float greyscale-with-alpha, little-endian.
    Yaf16Le,
    /// 16-bit half-float greyscale-with-alpha, big-endian.
    Yaf16Be,
    /// 64-bit float greyscale-with-alpha, little-endian.
    Yaf32Le,
    /// 64-bit float greyscale-with-alpha, big-endian.
    Yaf32Be,
    /// 1-bit monochrome, white = 0 (`AV_PIX_FMT_MONOWHITE`).
    Monowhite,
    /// 1-bit monochrome, black = 0 (`AV_PIX_FMT_MONOBLACK`).
    Monoblack,
    /// Paletted 8-bit (`AV_PIX_FMT_PAL8`).
    Pal8,
    /// Bayer BGGR pattern, 8-bit.
    BayerBggr8,
    /// Bayer RGGB pattern, 8-bit.
    BayerRggb8,
    /// Bayer GBRG pattern, 8-bit.
    BayerGbrg8,
    /// Bayer GRBG pattern, 8-bit.
    BayerGrbg8,
    /// Bayer BGGR pattern, 10-bit little-endian (low-packed in u16).
    BayerBggr10Le,
    /// Bayer BGGR pattern, 10-bit big-endian (low-packed in u16).
    BayerBggr10Be,
    /// Bayer RGGB pattern, 10-bit little-endian.
    BayerRggb10Le,
    /// Bayer RGGB pattern, 10-bit big-endian.
    BayerRggb10Be,
    /// Bayer GBRG pattern, 10-bit little-endian.
    BayerGbrg10Le,
    /// Bayer GBRG pattern, 10-bit big-endian.
    BayerGbrg10Be,
    /// Bayer GRBG pattern, 10-bit little-endian.
    BayerGrbg10Le,
    /// Bayer GRBG pattern, 10-bit big-endian.
    BayerGrbg10Be,
    /// Bayer BGGR pattern, 12-bit little-endian.
    BayerBggr12Le,
    /// Bayer BGGR pattern, 12-bit big-endian.
    BayerBggr12Be,
    /// Bayer RGGB pattern, 12-bit little-endian.
    BayerRggb12Le,
    /// Bayer RGGB pattern, 12-bit big-endian.
    BayerRggb12Be,
    /// Bayer GBRG pattern, 12-bit little-endian.
    BayerGbrg12Le,
    /// Bayer GBRG pattern, 12-bit big-endian.
    BayerGbrg12Be,
    /// Bayer GRBG pattern, 12-bit little-endian.
    BayerGrbg12Le,
    /// Bayer GRBG pattern, 12-bit big-endian.
    BayerGrbg12Be,
    /// Bayer BGGR pattern, 14-bit little-endian.
    BayerBggr14Le,
    /// Bayer BGGR pattern, 14-bit big-endian.
    BayerBggr14Be,
    /// Bayer RGGB pattern, 14-bit little-endian.
    BayerRggb14Le,
    /// Bayer RGGB pattern, 14-bit big-endian.
    BayerRggb14Be,
    /// Bayer GBRG pattern, 14-bit little-endian.
    BayerGbrg14Le,
    /// Bayer GBRG pattern, 14-bit big-endian.
    BayerGbrg14Be,
    /// Bayer GRBG pattern, 14-bit little-endian.
    BayerGrbg14Le,
    /// Bayer GRBG pattern, 14-bit big-endian.
    BayerGrbg14Be,
    /// Bayer BGGR pattern, 16-bit little-endian.
    BayerBggr16Le,
    /// Bayer BGGR pattern, 16-bit big-endian.
    BayerBggr16Be,
    /// Bayer RGGB pattern, 16-bit little-endian.
    BayerRggb16Le,
    /// Bayer RGGB pattern, 16-bit big-endian.
    BayerRggb16Be,
    /// Bayer GBRG pattern, 16-bit little-endian.
    BayerGbrg16Le,
    /// Bayer GBRG pattern, 16-bit big-endian.
    BayerGbrg16Be,
    /// Bayer GRBG pattern, 16-bit little-endian.
    BayerGrbg16Le,
    /// Bayer GRBG pattern, 16-bit big-endian.
    BayerGrbg16Be,
    /// A pixel format this vocabulary does not enumerate, carried by its folded name.
    Other(String),
}

/// The canonical slug of every pixel format this vocabulary names, in roster order.
pub const PIXEL_FORMAT_SLUGS: [&'static str; 285] = [
    "none",
    "yuv420p",
    "yuv422p",
    "yuv440p",
    "yuv444p",
    "yuv411p",
    "yuv410p",
    "yuvj411p",
    "yuvj420p",
    "yuvj422p",
    "yuvj440p",
    "yuvj444p",
    "yuv420p9le",
    "yuv420p9be",
    "yuv420p10le",
    "yuv420p10be",
    "yuv420p12le",
    "yuv420p12be",
    "yuv420p14le",
    "yuv420p14be",
    "yuv420p16le",
    "yuv420p16be",
    "yuv422p9le",
    "yuv422p9be",
    "yuv422p10le",
    "yuv422p10be",
    "yuv422p12le",
    "yuv422p12be",
    "yuv422p14le",
    "yuv422p14be",
    "yuv422p16le",
    "yuv422p16be",
    "yuv440p10le",
    "yuv440p10be",
    "yuv440p12le",
    "yuv440p12be",
    "yuv444p9le",
    "yuv444p9be",
    "yuv444p10le",
    "yuv444p10be",
    "yuv444p12le",
    "yuv444p12be",
    "yuv444p14le",
    "yuv444p14be",
    "yuv444p16le",
    "yuv444p16be",
    "yuv444p10msble",
    "yuv444p10msbbe",
    "yuv444p12msble",
    "yuv444p12msbbe",
    "yuva420p",
    "yuva422p",
    "yuva444p",
    "yuva420p9le",
    "yuva420p9be",
    "yuva422p9le",
    "yuva422p9be",
    "yuva444p9le",
    "yuva444p9be",
    "yuva420p10le",
    "yuva420p10be",
    "yuva422p10le",
    "yuva422p10be",
    "yuva444p10le",
    "yuva444p10be",
    "yuva420p12le",
    "yuva420p12be",
    "yuva422p12le",
    "yuva422p12be",
    "yuva444p12le",
    "yuva444p12be",
    "yuva444p14le",
    "yuva420p16le",
    "yuva420p16be",
    "yuva422p16le",
    "yuva422p16be",
    "yuva444p16le",
    "yuva444p16be",
    "nv12",
    "nv21",
    "nv16",
    "nv24",
    "nv42",
    "nv20le",
    "nv20be",
    "p010le",
    "p010be",
    "p012le",
    "p012be",
    "p016le",
    "p016be",
    "p210le",
    "p210be",
    "p212le",
    "p212be",
    "p216le",
    "p216be",
    "p410le",
    "p410be",
    "p412le",
    "p412be",
    "p416le",
    "p416be",
    "yuyv422",
    "uyvy422",
    "yvyu422",
    "uyyvyy411",
    "y210le",
    "y210be",
    "y212le",
    "y212be",
    "y216le",
    "y216be",
    "v210",
    "v410le",
    "v410be",
    "xv30le",
    "xv30be",
    "v30xle",
    "v30xbe",
    "xv36le",
    "xv36be",
    "xv48le",
    "xv48be",
    "vuya",
    "vuyx",
    "ayuv",
    "ayuv64le",
    "ayuv64be",
    "uyva",
    "vyu444",
    "xyz12le",
    "xyz12be",
    "rgb24",
    "bgr24",
    "rgba",
    "bgra",
    "argb",
    "abgr",
    "rgb0",
    "bgr0",
    "0rgb",
    "0bgr",
    "x2rgb10le",
    "x2rgb10be",
    "x2bgr10le",
    "x2bgr10be",
    "gbr24p",
    "rgb4",
    "rgb4_byte",
    "rgb8",
    "bgr4",
    "bgr4_byte",
    "bgr8",
    "rgb444le",
    "rgb444be",
    "bgr444le",
    "bgr444be",
    "rgb555le",
    "rgb555be",
    "bgr555le",
    "bgr555be",
    "rgb565le",
    "rgb565be",
    "bgr565le",
    "bgr565be",
    "rgb48le",
    "rgb48be",
    "bgr48le",
    "bgr48be",
    "rgba64le",
    "rgba64be",
    "bgra64le",
    "bgra64be",
    "rgb96le",
    "rgb96be",
    "rgba128le",
    "rgba128be",
    "rgbf16le",
    "rgbf16be",
    "rgbf32le",
    "rgbf32be",
    "rgbaf16le",
    "rgbaf16be",
    "rgbaf32le",
    "rgbaf32be",
    "gbrp",
    "gbrp9le",
    "gbrp9be",
    "gbrp10le",
    "gbrp10be",
    "gbrp10msble",
    "gbrp10msbbe",
    "gbrp12le",
    "gbrp12be",
    "gbrp12msble",
    "gbrp12msbbe",
    "gbrp14le",
    "gbrp14be",
    "gbrp16le",
    "gbrp16be",
    "gbrpf16le",
    "gbrpf16be",
    "gbrpf32le",
    "gbrpf32be",
    "gbrap",
    "gbrap10le",
    "gbrap10be",
    "gbrap12le",
    "gbrap12be",
    "gbrap14le",
    "gbrap14be",
    "gbrap16le",
    "gbrap16be",
    "gbrap32le",
    "gbrap32be",
    "gbrapf16le",
    "gbrapf16be",
    "gbrapf32le",
    "gbrapf32be",
    "gray8",
    "gray8a",
    "gray9le",
    "gray9be",
    "gray10le",
    "gray10be",
    "gray12le",
    "gray12be",
    "gray14le",
    "gray14be",
    "gray16le",
    "gray16be",
    "gray32le",
    "gray32be",
    "grayf32le",
    "grayf32be",
    "grayf16le",
    "grayf16be",
    "ya8",
    "y400a",
    "ya16le",
    "ya16be",
    "yaf16le",
    "yaf16be",
    "yaf32le",
    "yaf32be",
    "monowhite",
    "monoblack",
    "pal8",
    "bayer_bggr8",
    "bayer_rggb8",
    "bayer_gbrg8",
    "bayer_grbg8",
    "bayer_bggr10le",
    "bayer_bggr10be",
    "bayer_rggb10le",
    "bayer_rggb10be",
    "bayer_gbrg10le",
    "bayer_gbrg10be",
    "bayer_grbg10le",
    "bayer_grbg10be",
    "bayer_bggr12le",
    "bayer_bggr12be",
    "bayer_rggb12le",
    "bayer_rggb12be",
    "bayer_gbrg12le",
    "bayer_gbrg12be",
    "bayer_grbg12le",
    "bayer_grbg12be",
    "bayer_bggr14le",
    "bayer_bggr14be",
    "bayer_rggb14le",
    "bayer_rggb14be",
    "bayer_gbrg14le",
    "bayer_gbrg14be",
    "bayer_grbg14le",
    "bayer_grbg14be",
    "bayer_bggr16le",
    "bayer_bggr16be",
    "bayer_rggb16le",
    "bayer_rggb16be",
    "bayer_gbrg16le",
    "bayer_gbrg16be",
    "bayer_grbg16le",
    "bayer_grbg16be",
];

/// The stable `u32` wire id of every named pixel format, in roster order.
pub const PIXEL_FORMAT_CODES: [u32; 285] = [
    0,
    100,
    101,
    102,
    103,
    104,
    105,
    106,
    107,
    108,
    109,
    110,
    111,
    112,
    113,
    114,
    115,
    116,
    117,
    118,
    119,
    120,
    121,
    122,
    123,
    124,
    125,
    126,
    127,
    128,
    129,
    130,
    131,
    132,
    133,
    134,
    140,
    141,
    142,
    143,
    144,
    145,
    146,
    147,
    148,
    149,
    150,
    151,
    152,
    153,
    200,
    201,
    202,
    203,
    216,
    204,
    217,
    205,
    218,
    206,
    219,
    207,
    220,
    208,
    221,
    215,
    227,
    209,
    222,
    210,
    223,
    211,
    212,
    224,
    213,
    225,
    214,
    226,
    300,
    301,
    302,
    303,
    304,
    305,
    306,
    310,
    311,
    312,
    320,
    313,
    321,
    314,
    322,
    315,
    323,
    316,
    324,
    317,
    325,
    318,
    326,
    319,
    327,
    400,
    401,
    402,
    403,
    410,
    420,
    411,
    421,
    412,
    422,
    413,
    414,
    435,
    415,
    423,
    433,
    434,
    416,
    424,
    425,
    426,
    417,
    418,
    427,
    419,
    428,
    429,
    430,
    431,
    432,
    500,
    501,
    502,
    503,
    504,
    505,
    506,
    507,
    508,
    509,
    510,
    512,
    511,
    513,
    514,
    515,
    516,
    517,
    518,
    519,
    560,
    520,
    561,
    521,
    562,
    522,
    563,
    523,
    564,
    524,
    565,
    525,
    566,
    530,
    567,
    531,
    568,
    532,
    569,
    533,
    570,
    571,
    572,
    573,
    574,
    540,
    541,
    542,
    543,
    544,
    545,
    546,
    547,
    600,
    601,
    608,
    602,
    609,
    630,
    631,
    603,
    610,
    632,
    633,
    604,
    611,
    605,
    612,
    606,
    613,
    607,
    614,
    620,
    621,
    634,
    622,
    635,
    623,
    636,
    624,
    637,
    638,
    639,
    625,
    640,
    626,
    641,
    700,
    701,
    702,
    712,
    703,
    713,
    704,
    714,
    705,
    715,
    706,
    716,
    717,
    718,
    707,
    719,
    720,
    721,
    730,
    731,
    732,
    733,
    734,
    735,
    736,
    737,
    740,
    741,
    800,
    900,
    901,
    902,
    903,
    910,
    914,
    911,
    915,
    912,
    916,
    913,
    917,
    920,
    924,
    921,
    925,
    922,
    926,
    923,
    927,
    930,
    934,
    931,
    935,
    932,
    936,
    933,
    937,
    940,
    944,
    941,
    945,
    942,
    946,
    943,
    947,
];

/// Every spelling the parse accepts — the slugs in roster order, then FFmpeg's three differing
/// names — and the roster position each stands for.
pub const PIXEL_FORMAT_SPELLINGS: [(&'static str, usize); 288] = [
    ("none", 0),
    ("yuv420p", 1),
    ("yuv422p", 2),
    ("yuv440p", 3),
    ("yuv444p", 4),
    ("yuv411p", 5),
    ("yuv410p", 6),
    ("yuvj411p", 7),
    ("yuvj420p", 8),
    ("yuvj422p", 9),
    ("yuvj440p", 10),
    ("yuvj444p", 11),
    ("yuv420p9le", 12),
    ("yuv420p9be", 13),
    ("yuv420p10le", 14),
    ("yuv420p10be", 15),
    ("yuv420p12le", 16),
    ("yuv420p12be", 17),
    ("yuv420p14le", 18),
    ("yuv420p14be", 19),
    ("yuv420p16le", 20),
    ("yuv420p16be", 21),
    ("yuv422p9le", 22),
    ("yuv422p9be", 23),
    ("yuv422p10le", 24),
    ("yuv422p10be", 25),
    ("yuv422p12le", 26),
    ("yuv422p12be", 27),
    ("yuv422p14le", 28),
    ("yuv422p14be", 29),
    ("yuv422p16le", 30),
    ("yuv422p16be", 31),
    ("yuv440p10le", 32),
    ("yuv440p10be", 33),
    ("yuv440p12le", 34),
    ("yuv440p12be", 35),
    ("yuv444p9le", 36),
    ("yuv444p9be", 37),
    ("yuv444p10le", 38),
    ("yuv444p10be", 39),
    ("yuv444p12le", 40),
    ("yuv444p12be", 41),
    ("yuv444p14le", 42),
    ("yuv444p14be", 43),
    ("yuv444p16le", 44),
    ("yuv444p16be", 45),
    ("yuv444p10msble", 46),
    ("yuv444p10msbbe", 47),
    ("yuv444p12msble", 48),
    ("yuv444p12msbbe", 49),
    ("yuva420p", 50),
    ("yuva422p", 51),
    ("yuva444p", 52),
    ("yuva420p9le", 53),
    ("yuva420p9be", 54),
    ("yuva422p9le", 55),
    ("yuva422p9be", 56),
    ("yuva444p9le", 57),
    ("yuva444p9be", 58),
    ("yuva420p10le", 59),
    ("yuva420p10be", 60),
    ("yuva422p10le", 61),
    ("yuva422p10be", 62),
    ("yuva444p10le", 63),
    ("yuva444p10be", 64),
    ("yuva420p12le", 65),
    ("yuva420p12be", 66),
    ("yuva422p12le", 67),
    ("yuva422p12be", 68),
    ("yuva444p12le", 69),
    ("yuva444p12be", 70),
    ("yuva444p14le", 71),
    ("yuva420p16le", 72),
    ("yuva420p16be", 73),
    ("yuva422p16le", 74),
    ("yuva422p16be", 75),
    ("yuva444p16le", 76),
    ("yuva444p16be", 77),
    ("nv12", 78),
    ("nv21", 79),
    ("nv16", 80),
    ("nv24", 81),
    ("nv42", 82),
    ("nv20le", 83),
    ("nv20be", 84),
    ("p010le", 85),
    ("p010be", 86),
    ("p012le", 87),
    ("p012be", 88),
    ("p016le", 89),
    ("p016be", 90),
    ("p210le", 91),
    ("p210be", 92),
    ("p212le", 93),
    ("p212be", 94),
    ("p216le", 95),
    ("p216be", 96),
    ("p410le", 97),
    ("p410be", 98),
    ("p412le", 99),
    ("p412be", 100),
    ("p416le", 101),
    ("p416be", 102),
    ("yuyv422", 103),
    ("uyvy422", 104),
    ("yvyu422", 105),
    ("uyyvyy411", 106),
    ("y210le", 107),
    ("y210be", 108),
    ("y212le", 109),
    ("y212be", 110),
    ("y216le", 111),
    ("y216be", 112),
    ("v210", 113),
    ("v410le", 114),
    ("v410be", 115),
    ("xv30le", 116),
    ("xv30be", 117),
    ("v30xle", 118),
    ("v30xbe", 119),
    ("xv36le", 120),
    ("xv36be", 121),
    ("xv48le", 122),
    ("xv48be", 123),
    ("vuya", 124),
    ("vuyx", 125),
    ("ayuv", 126),
    ("ayuv64le", 127),
    ("ayuv64be", 128),
    ("uyva", 129),
    ("vyu444", 130),
    ("xyz12le", 131),
    ("xyz12be", 132),
    ("rgb24", 133),
    ("bgr24", 134),
    ("rgba", 135),
    ("bgra", 136),
    ("argb", 137),
    ("abgr", 138),
    ("rgb0", 139),
    ("bgr0", 140),
    ("0rgb", 141),
    ("0bgr", 142),
    ("x2rgb10le", 143),
    ("x2rgb10be", 144),
    ("x2bgr10le", 145),
    ("x2bgr10be", 146),
    ("gbr24p", 147),
    ("rgb4", 148),
    ("rgb4_byte", 149),
    ("rgb8", 150),
    ("bgr4", 151),
    ("bgr4_byte", 152),
    ("bgr8", 153),
    ("rgb444le", 154),
    ("rgb444be", 155),
    ("bgr444le", 156),
    ("bgr444be", 157),
    ("rgb555le", 158),
    ("rgb555be", 159),
    ("bgr555le", 160),
    ("bgr555be", 161),
    ("rgb565le", 162),
    ("rgb565be", 163),
    ("bgr565le", 164),
    ("bgr565be", 165),
    ("rgb48le", 166),
    ("rgb48be", 167),
    ("bgr48le", 168),
    ("bgr48be", 169),
    ("rgba64le", 170),
    ("rgba64be", 171),
    ("bgra64le", 172),
    ("bgra64be", 173),
    ("rgb96le", 174),
    ("rgb96be", 175),
    ("rgba128le", 176),
    ("rgba128be", 177),
    ("rgbf16le", 178),
    ("rgbf16be", 179),
    ("rgbf32le", 180),
    ("rgbf32be", 181),
    ("rgbaf16le", 182),
    ("rgbaf16be", 183),
    ("rgbaf32le", 184),
    ("rgbaf32be", 185),
    ("gbrp", 186),
    ("gbrp9le", 187),
    ("gbrp9be", 188),
    ("gbrp10le", 189),
    ("gbrp10be", 190),
    ("gbrp10msble", 191),
    ("gbrp10msbbe", 192),
    ("gbrp12le", 193),
    ("gbrp12be", 194),
    ("gbrp12msble", 195),
    ("gbrp12msbbe", 196),
    ("gbrp14le", 197),
    ("gbrp14be", 198),
    ("gbrp16le", 199),
    ("gbrp16be", 200),
    ("gbrpf16le", 201),
    ("gbrpf16be", 202),
    ("gbrpf32le", 203),
    ("gbrpf32be", 204),
    ("gbrap", 205),
    ("gbrap10le", 206),
    ("gbrap10be", 207),
    ("gbrap12le", 208),
    ("gbrap12be", 209),
    ("gbrap14le", 210),
    ("gbrap14be", 211),
    ("gbrap16le", 212),
    ("gbrap16be", 213),
    ("gbrap32le", 214),
    ("gbrap32be", 215),
    ("gbrapf16le", 216),
    ("gbrapf16be", 217),
    ("gbrapf32le", 218),
    ("gbrapf32be", 219),
    ("gray8", 220),
    ("gray8a", 221),
    ("gray9le", 222),
    ("gray9be", 223),
    ("gray10le", 224),
    ("gray10be", 225),
    ("gray12le", 226),
    ("gray12be", 227),
    ("gray14le", 228),
    ("gray14be", 229),
    ("gray16le", 230),
    ("gray16be", 231),
    ("gray32le", 232),
    ("gray32be", 233),
    ("grayf32le", 234),
    ("grayf32be", 235),
    ("grayf16le", 236),
    ("grayf16be", 237),
    ("ya8", 238),
    ("y400a", 239),
    ("ya16le", 240),
    ("ya16be", 241),
    ("yaf16le", 242),
    ("yaf16be", 243),
    ("yaf32le", 244),
    ("yaf32be", 245),
    ("monowhite", 246),
    ("monoblack", 247),
    ("pal8", 248),
    ("bayer_bggr8", 249),
    ("bayer_rggb8", 250),
    ("bayer_gbrg8", 251),
    ("bayer_grbg8", 252),
    ("bayer_bggr10le", 253),
    ("bayer_bggr10be", 254),
    ("bayer_rggb10le", 255),
    ("bayer_rggb10be", 256),
    ("bayer_gbrg10le", 257),
    ("bayer_gbrg10be", 258),
    ("bayer_grbg10le", 259),
    ("bayer_grbg10be", 260),
    ("bayer_bggr12le", 261),
    ("bayer_bggr12be", 262),
    ("bayer_rggb12le", 263),
    ("bayer_rggb12be", 264),
    ("bayer_gbrg12le", 265),
    ("bayer_gbrg12be", 266),
    ("bayer_grbg12le", 267),
    ("bayer_grbg12be", 268),
    ("bayer_bggr14le", 269),
    ("bayer_bggr14be", 270),
    ("bayer_rggb14le", 271),
    ("bayer_rggb14be", 272),
    ("bayer_gbrg14le", 273),
    ("bayer_gbrg14be", 274),
    ("bayer_grbg14le", 275),
    ("bayer_grbg14be", 276),
    ("bayer_bggr16le", 277),
    ("bayer_bggr16be", 278),
    ("bayer_rggb16le", 279),
    ("bayer_rggb16be", 280),
    ("bayer_gbrg16le", 281),
    ("bayer_gbrg16be", 282),
    ("bayer_grbg16le", 283),
    ("bayer_grbg16be", 284),
    ("gray", 220),
    ("monob", 247),
    ("monow", 246),
];

/// The roster's slugs, as text.
pub open spec fn pixel_format_slugs() -> Seq<Seq<char>> {
    PIXEL_FORMAT_SLUGS@.map_values(|s: &'static str| s@)
}

/// The first roster position whose wire id is `v`, if any.
pub open spec fn code_index(codes: Seq<u32>, v: u32) -> Option<nat>
    decreases codes.len(),
{
    if codes.len() == 0 {
        None
    } else if codes[0] == v {
        Some(0)
    } else {
        match code_index(codes.drop_first(), v) {
            Some(i) => Some(i + 1),
            None => None,
        }
    }
}

/// The wire id of a pixel-format value: its roster position's id, and nothing for an unnamed name.
pub open spec fn pixel_format_code(t: Term) -> Option<u32> {
    match t {
        Term::Named(i) => Some(PIXEL_FORMAT_CODES@[i as int]),
        Term::Other(_) => None,
    }
}

/// Is this one of the Bayer colour-filter-array layouts — the last thirty-six of the roster?
pub open spec fn pixel_format_is_bayer(t: Term) -> bool {
    match t {
        Term::Named(i) => 249 <= i && i < 285,
        Term::Other(_) => false,
    }
}

/// The non-deprecated format describing the same bytes as an alias, and whether the alias pins the
/// full dynamic range: the `yuvj*` aliases decode as their `yuv*p` base at full range, `gray8a` and
/// `y400a` are `ya8`, and `xv30le` / `xv30be` are `v410le` / `v410be`. Every other value is its own
/// canonical form.
pub open spec fn pixel_format_canonical(t: Term) -> (Term, bool) {
    match t {
        Term::Named(i) => if i == 7 {
            (Term::Named(5), true)
        } else if i == 8 {
            (Term::Named(1), true)
        } else if i == 9 {
            (Term::Named(2), true)
        } else if i == 10 {
            (Term::Named(3), true)
        } else if i == 11 {
            (Term::Named(4), true)
        } else if i == 221 || i == 239 {
            (Term::Named(238), false)
        } else if i == 116 {
            (Term::Named(114), false)
        } else if i == 117 {
            (Term::Named(115), false)
        } else {
            (t, false)
        },
        Term::Other(_) => (t, false),
    }
}

impl View for PixelFormat {
    type V = Term;

    open spec fn view(&self) -> Term {
        match self {
            PixelFormat::NoFormat => Term::Named(0),
            PixelFormat::Yuv420p => Term::Named(1),
            PixelFormat::Yuv422p => Term::Named(2),
            PixelFormat::Yuv440p => Term::Named(3),
            PixelFormat::Yuv444p => Term::Named(4),
            PixelFormat::Yuv411p => Term::Named(5),
            PixelFormat::Yuv410p => Term::Named(6),
            PixelFormat::Yuvj411p => Term::Named(7),
            PixelFormat::Yuvj420p => Term::Named(8),
            PixelFormat::Yuvj422p => Term::Named(9),
            PixelFormat::Yuvj440p => Term::Named(10),
            PixelFormat::Yuvj444p => Term::Named(11),
            PixelFormat::Yuv420p9Le => Term::Named(12),
            PixelFormat::Yuv420p9Be => Term::Named(13),
            PixelFormat::Yuv420p10Le => Term::Named(14),
            PixelFormat::Yuv420p10Be => Term::Named(15),
            PixelFormat::Yuv420p12Le => Term::Named(16),
            PixelFormat::Yuv420p12Be => Term::Named(17),
            PixelFormat::Yuv420p14Le => Term::Named(18),
            PixelFormat::Yuv420p14Be => Term::Named(19),
            PixelFormat::Yuv420p16Le => Term::Named(20),
            PixelFormat::Yuv420p16Be => Term::Named(21),
            PixelFormat::Yuv422p9Le => Term::Named(22),
            PixelFormat::Yuv422p9Be => Term::Named(23),
            PixelFormat::Yuv422p10Le => Term::Named(24),
            PixelFormat::Yuv422p10Be => Term::Named(25),
            PixelFormat::Yuv422p12Le => Term::Named(26),
            PixelFormat::Yuv422p12Be => Term::Named(27),
            PixelFormat::Yuv422p14Le => Term::Named(28),
            PixelFormat::Yuv422p14Be => Term::Named(29),
            PixelFormat::Yuv422p16Le => Term::Named(30),
            PixelFormat::Yuv422p16Be => Term::Named(31),
            PixelFormat::Yuv440p10Le => Term::Named(32),
            PixelFormat::Yuv440p10Be => Term::Named(33),
            PixelFormat::Yuv440p12Le => Term::Named(34),
            PixelFormat::Yuv440p12Be => Term::Named(35),
            PixelFormat::Yuv444p9Le => Term::Named(36),
            PixelFormat::Yuv444p9Be => Term::Named(37),
            PixelFormat::Yuv444p10Le => Term::Named(38),
            PixelFormat::Yuv444p10Be => Term::Named(39),
            PixelFormat::Yuv444p12Le => Term::Named(40),
            PixelFormat::Yuv444p12Be => Term::Named(41),
            PixelFormat::Yuv444p14Le => Term::Named(42),
            PixelFormat::Yuv444p14Be => Term::Named(43),
            PixelFormat::Yuv444p16Le => Term::Named(44),
            PixelFormat::Yuv444p16Be => Term::Named(45),
            PixelFormat::Yuv444p10MsbLe => Term::Named(46),
            PixelFormat::Yuv444p10MsbBe => Term::Named(47),
            PixelFormat::Yuv444p12MsbLe => Term::Named(48),
            PixelFormat::Yuv444p12MsbBe => Term::Named(49),
            PixelFormat::Yuva420p => Term::Named(50),
            PixelFormat::Yuva422p => Term::Named(51),
            PixelFormat::Yuva444p => Term::Named(52),
            PixelFormat::Yuva420p9Le => Term::Named(53),
            PixelFormat::Yuva420p9Be => Term::Named(54),
            PixelFormat::Yuva422p9Le => Term::Named(55),
            PixelFormat::Yuva422p9Be => Term::Named(56),
            PixelFormat::Yuva444p9Le => Term::Named(57),
            PixelFormat::Yuva444p9Be => Term::Named(58),
            PixelFormat::Yuva420p10Le => Term::Named(59),
            PixelFormat::Yuva420p10Be => Term::Named(60),
            PixelFormat::Yuva422p10Le => Term::Named(61),
            PixelFormat::Yuva422p10Be => Term::Named(62),
            PixelFormat::Yuva444p10Le => Term::Named(63),
            PixelFormat::Yuva444p10Be => Term::Named(64),
            PixelFormat::Yuva420p12Le => Term::Named(65),
            PixelFormat::Yuva420p12Be => Term::Named(66),
            PixelFormat::Yuva422p12Le => Term::Named(67),
            PixelFormat::Yuva422p12Be => Term::Named(68),
            PixelFormat::Yuva444p12Le => Term::Named(69),
            PixelFormat::Yuva444p12Be => Term::Named(70),
            PixelFormat::Yuva444p14Le => Term::Named(71),
            PixelFormat::Yuva420p16Le => Term::Named(72),
            PixelFormat::Yuva420p16Be => Term::Named(73),
            PixelFormat::Yuva422p16Le => Term::Named(74),
            PixelFormat::Yuva422p16Be => Term::Named(75),
            PixelFormat::Yuva444p16Le => Term::Named(76),
            PixelFormat::Yuva444p16Be => Term::Named(77),
            PixelFormat::Nv12 => Term::Named(78),
            PixelFormat::Nv21 => Term::Named(79),
            PixelFormat::Nv16 => Term::Named(80),
            PixelFormat::Nv24 => Term::Named(81),
            PixelFormat::Nv42 => Term::Named(82),
            PixelFormat::Nv20Le => Term::Named(83),
            PixelFormat::Nv20Be => Term::Named(84),
            PixelFormat::P010Le => Term::Named(85),
            PixelFormat::P010Be => Term::Named(86),
            PixelFormat::P012Le => Term::Named(87),
            PixelFormat::P012Be => Term::Named(88),
            PixelFormat::P016Le => Term::Named(89),
            PixelFormat::P016Be => Term::Named(90),
            PixelFormat::P210Le => Term::Named(91),
            PixelFormat::P210Be => Term::Named(92),
            PixelFormat::P212Le => Term::Named(93),
            PixelFormat::P212Be => Term::Named(94),
            PixelFormat::P216Le => Term::Named(95),
            PixelFormat::P216Be => Term::Named(96),
            PixelFormat::P410Le => Term::Named(97),
            PixelFormat::P410Be => Term::Named(98),
            PixelFormat::P412Le => Term::Named(99),
            PixelFormat::P412Be => Term::Named(100),
            PixelFormat::P416Le => Term::Named(101),
            PixelFormat::P416Be => Term::Named(102),
            PixelFormat::Yuyv422 => Term::Named(103),
            PixelFormat::Uyvy422 => Term::Named(104),
            PixelFormat::Yvyu422 => Term::Named(105),
            PixelFormat::Uyyvyy411 => Term::Named(106),
            PixelFormat::Y210Le => Term::Named(107),
            PixelFormat::Y210Be => Term::Named(108),
            PixelFormat::Y212Le => Term::Named(109),
            PixelFormat::Y212Be => Term::Named(110),
            PixelFormat::Y216Le => Term::Named(111),
            PixelFormat::Y216Be => Term::Named(112),
            PixelFormat::V210 => Term::Named(113),
            PixelFormat::V410Le => Term::Named(114),
            PixelFormat::V410Be => Term::Named(115),
            PixelFormat::Xv30Le => Term::Named(116),
            PixelFormat::Xv30Be => Term::Named(117),
            PixelFormat::V30xLe => Term::Named(118),
            PixelFormat::V30xBe => Term::Named(119),
            PixelFormat::Xv36Le => Term::Named(120),
            PixelFormat::Xv36Be => Term::Named(121),
            PixelFormat::Xv48Le => Term::Named(122),
            PixelFormat::Xv48Be => Term::Named(123),
            PixelFormat::Vuya => Term::Named(124),
            PixelFormat::Vuyx => Term::Named(125),
            PixelFormat::Ayuv => Term::Named(126),
            PixelFormat::Ayuv64Le => Term::Named(127),
            PixelFormat::Ayuv64Be => Term::Named(128),
            PixelFormat::Uyva => Term::Named(129),
            PixelFormat::Vyu444 => Term::Named(130),
            PixelFormat::Xyz12Le => Term::Named(131),
            PixelFormat::Xyz12Be => Term::Named(132),
            PixelFormat::Rgb24 => Term::Named(133),
            PixelFormat::Bgr24 => Term::Named(134),
            PixelFormat::Rgba => Term::Named(135),
            PixelFormat::Bgra => Term::Named(136),
            PixelFormat::Argb => Term::Named(137),
            PixelFormat::Abgr => Term::Named(138),
            PixelFormat::Rgbx => Term::Named(139),
            PixelFormat::Bgrx => Term::Named(140),
            PixelFormat::Xrgb => Term::Named(141),
            PixelFormat::Xbgr => Term::Named(142),
            PixelFormat::X2Rgb10Le => Term::Named(143),
            PixelFormat::X2Rgb10Be => Term::Named(144),
            PixelFormat::X2Bgr10Le => Term::Named(145),
            PixelFormat::X2Bgr10Be => Term::Named(146),
            PixelFormat::Gbr24p => Term::Named(147),
            PixelFormat::Rgb4 => Term::Named(148),
            PixelFormat::Rgb4Byte => Term::Named(149),
            PixelFormat::Rgb8 => Term::Named(150),
            PixelFormat::Bgr4 => Term::Named(151),
            PixelFormat::Bgr4Byte => Term::Named(152),
            PixelFormat::Bgr8 => Term::Named(153),
            PixelFormat::Rgb444Le => Term::Named(154),
            PixelFormat::Rgb444Be => Term::Named(155),
            PixelFormat::Bgr444Le => Term::Named(156),
            PixelFormat::Bgr444Be => Term::Named(157),
            PixelFormat::Rgb555Le => Term::Named(158),
            PixelFormat::Rgb555Be => Term::Named(159),
            PixelFormat::Bgr555Le => Term::Named(160),
            PixelFormat::Bgr555Be => Term::Named(161),
            PixelFormat::Rgb565Le => Term::Named(162),
            PixelFormat::Rgb565Be => Term::Named(163),
            PixelFormat::Bgr565Le => Term::Named(164),
            PixelFormat::Bgr565Be => Term::Named(165),
            PixelFormat::Rgb48Le => Term::Named(166),
            PixelFormat::Rgb48Be => Term::Named(167),
            PixelFormat::Bgr48Le => Term::Named(168),
            PixelFormat::Bgr48Be => Term::Named(169),
            PixelFormat::Rgba64Le => Term::Named(170),
            PixelFormat::Rgba64Be => Term::Named(171),
            PixelFormat::Bgra64Le => Term::Named(172),
            PixelFormat::Bgra64Be => Term::Named(173),
            PixelFormat::Rgb96Le => Term::Named(174),
            PixelFormat::Rgb96Be => Term::Named(175),
            PixelFormat::Rgba128Le => Term::Named(176),
            PixelFormat::Rgba128Be => Term::Named(177),
            PixelFormat::Rgbf16Le => Term::Named(178),
            PixelFormat::Rgbf16Be => Term::Named(179),
            PixelFormat::Rgbf32Le => Term::Named(180),
            PixelFormat::Rgbf32Be => Term::Named(181),
            PixelFormat::Rgbaf16Le => Term::Named(182),
            PixelFormat::Rgbaf16Be => Term::Named(183),
            PixelFormat::Rgbaf32Le => Term::Named(184),
            PixelFormat::Rgbaf32Be => Term::Named(185),
            PixelFormat::Gbrp => Term::Named(186),
            PixelFormat::Gbrp9Le => Term::Named(187),
            PixelFormat::Gbrp9Be => Term::Named(188),
            PixelFormat::Gbrp10Le => Term::Named(189),
            PixelFormat::Gbrp10Be => Term::Named(190),
            PixelFormat::Gbrp10MsbLe => Term::Named(191),
            PixelFormat::Gbrp10MsbBe => Term::Named(192),
            PixelFormat::Gbrp12Le => Term::Named(193),
            PixelFormat::Gbrp12Be => Term::Named(194),
            PixelFormat::Gbrp12MsbLe => Term::Named(195),
            PixelFormat::Gbrp12MsbBe => Term::Named(196),
            PixelFormat::Gbrp14Le => Term::Named(197),
            PixelFormat::Gbrp14Be => Term::Named(198),
            PixelFormat::Gbrp16Le => Term::Named(199),
            PixelFormat::Gbrp16Be => Term::Named(200),
            PixelFormat::Gbrpf16Le => Term::Named(201),
            PixelFormat::Gbrpf16Be => Term::Named(202),
            PixelFormat::Gbrpf32Le => Term::Named(203),
            PixelFormat::Gbrpf32Be => Term::Named(204),
            PixelFormat::Gbrap => Term::Named(205),
            PixelFormat::Gbrap10Le => Term::Named(206),
            PixelFormat::Gbrap10Be => Term::Named(207),
            PixelFormat::Gbrap12Le => Term::Named(208),
            PixelFormat::Gbrap12Be => Term::Named(209),
            PixelFormat::Gbrap14Le => Term::Named(210),
            PixelFormat::Gbrap14Be => Term::Named(211),
            PixelFormat::Gbrap16Le => Term::Named(212),
            PixelFormat::Gbrap16Be => Term::Named(213),
            PixelFormat::Gbrap32Le => Term::Named(214),
            PixelFormat::Gbrap32Be => Term::Named(215),
            PixelFormat::Gbrapf16Le => Term::Named(216),
            PixelFormat::Gbrapf16Be => Term::Named(217),
            PixelFormat::Gbrapf32Le => Term::Named(218),
            PixelFormat::Gbrapf32Be => Term::Named(219),
            PixelFormat::Gray8 => Term::Named(220),
            PixelFormat::Gray8a => Term::Named(221),
            PixelFormat::Gray9Le => Term::Named(222),
            PixelFormat::Gray9Be => Term::Named(223),
            PixelFormat::Gray10Le => Term::Named(224),
            PixelFormat::Gray10Be => Term::Named(225),
            PixelFormat::Gray12Le => Term::Named(226),
            PixelFormat::Gray12Be => Term::Named(227),
            PixelFormat::Gray14Le => Term::Named(228),
            PixelFormat::Gray14Be => Term::Named(229),
            PixelFormat::Gray16Le => Term::Named(230),
            PixelFormat::Gray16Be => Term::Named(231),
            PixelFormat::Gray32Le => Term::Named(232),
            PixelFormat::Gray32Be => Term::Named(233),
            PixelFormat::Grayf32Le => Term::Named(234),
            PixelFormat::Grayf32Be => Term::Named(235),
            PixelFormat::Grayf16Le => Term::Named(236),
            PixelFormat::Grayf16Be => Term::Named(237),
            PixelFormat::Ya8 => Term::Named(238),
            PixelFormat::Y400a => Term::Named(239),
            PixelFormat::Ya16Le => Term::Named(240),
            PixelFormat::Ya16Be => Term::Named(241),
            PixelFormat::Yaf16Le => Term::Named(242),
            PixelFormat::Yaf16Be => Term::Named(243),
            PixelFormat::Yaf32Le => Term::Named(244),
            PixelFormat::Yaf32Be => Term::Named(245),
            PixelFormat::Monowhite => Term::Named(246),
            PixelFormat::Monoblack => Term::Named(247),
            PixelFormat::Pal8 => Term::Named(248),
            PixelFormat::BayerBggr8 => Term::Named(249),
            PixelFormat::BayerRggb8 => Term::Named(250),
            PixelFormat::BayerGbrg8 => Term::Named(251),
            PixelFormat::BayerGrbg8 => Term::Named(252),
            PixelFormat::BayerBggr10Le => Term::Named(253),
            PixelFormat::BayerBggr10Be => Term::Named(254),
            PixelFormat::BayerRggb10Le => Term::Named(255),
            PixelFormat::BayerRggb10Be => Term::Named(256),
            PixelFormat::BayerGbrg10Le => Term::Named(257),
            PixelFormat::BayerGbrg10Be => Term::Named(258),
            PixelFormat::BayerGrbg10Le => Term::Named(259),
            PixelFormat::BayerGrbg10Be => Term::Named(260),
            PixelFormat::BayerBggr12Le => Term::Named(261),
            PixelFormat::BayerBggr12Be => Term::Named(262),
            PixelFormat::BayerRggb12Le => Term::Named(263),
            PixelFormat::BayerRggb12Be => Term::Named(264),
            PixelFormat::BayerGbrg12Le => Term::Named(265),
            PixelFormat::BayerGbrg12Be => Term::Named(266),
            PixelFormat::BayerGrbg12Le => Term::Named(267),
            PixelFormat::BayerGrbg12Be => Term::Named(268),
            PixelFormat::BayerBggr14Le => Term::Named(269),
            PixelFormat::BayerBggr14Be => Term::Named(270),
            PixelFormat::BayerRggb14Le => Term::Named(271),
            PixelFormat::BayerRggb14Be => Term::Named(272),
            PixelFormat::BayerGbrg14Le => Term::Named(273),
            PixelFormat::BayerGbrg14Be => Term::Named(274),
            PixelFormat::BayerGrbg14Le => Term::Named(275),
            PixelFormat::BayerGrbg14Be => Term::Named(276),
            PixelFormat::BayerBggr16Le => Term::Named(277),
            PixelFormat::BayerBggr16Be => Term::Named(278),
            PixelFormat::BayerRggb16Le => Term::Named(279),
            PixelFormat::BayerRggb16Be => Term::Named(280),
            PixelFormat::BayerGbrg16Le => Term::Named(281),
            PixelFormat::BayerGbrg16Be => Term::Named(282),
            PixelFormat::BayerGrbg16Le => Term::Named(283),
            PixelFormat::BayerGrbg16Be => Term::Named(284),
            PixelFormat::Other(s) => Term::Other(s@),
        }
    }
}

impl PixelFormat {
    fn from_index(i: usize) -> (r: Self)
        requires
            i < 285,
        ensures
            r@ == Term::Named(i as nat),
    {
        if i < 32 {
            PixelFormat::from_index_0(i)
        } else if i < 64 {
            PixelFormat::from_index_1(i)
        } else if i < 96 {
            PixelFormat::from_index_2(i)
        } else if i < 128 {
            PixelFormat::from_index_3(i)
        } else if i < 160 {
            PixelFormat::from_index_4(i)
        } else if i < 192 {
            PixelFormat::from_index_5(i)
        } else if i < 224 {
            PixelFormat::from_index_6(i)
        } else if i < 256 {
            PixelFormat::from_index_7(i)
        } else {
            PixelFormat::from_index_8(i)
        }
    }

    fn from_index_0(i: usize) -> (r: Self)
        requires
            0 <= i < 32,
        ensures
            r@ == Term::Named(i as nat),
    {
        match i {
            0 => PixelFormat::NoFormat,
            1 => PixelFormat::Yuv420p,
            2 => PixelFormat::Yuv422p,
            3 => PixelFormat::Yuv440p,
            4 => PixelFormat::Yuv444p,
            5 => PixelFormat::Yuv411p,
            6 => PixelFormat::Yuv410p,
            7 => PixelFormat::Yuvj411p,
            8 => PixelFormat::Yuvj420p,
            9 => PixelFormat::Yuvj422p,
            10 => PixelFormat::Yuvj440p,
            11 => PixelFormat::Yuvj444p,
            12 => PixelFormat::Yuv420p9Le,
            13 => PixelFormat::Yuv420p9Be,
            14 => PixelFormat::Yuv420p10Le,
            15 => PixelFormat::Yuv420p10Be,
            16 => PixelFormat::Yuv420p12Le,
            17 => PixelFormat::Yuv420p12Be,
            18 => PixelFormat::Yuv420p14Le,
            19 => PixelFormat::Yuv420p14Be,
            20 => PixelFormat::Yuv420p16Le,
            21 => PixelFormat::Yuv420p16Be,
            22 => PixelFormat::Yuv422p9Le,
            23 => PixelFormat::Yuv422p9Be,
            24 => PixelFormat::Yuv422p10Le,
            25 => PixelFormat::Yuv422p10Be,
            26 => PixelFormat::Yuv422p12Le,
            27 => PixelFormat::Yuv422p12Be,
            28 => PixelFormat::Yuv422p14Le,
            29 => PixelFormat::Yuv422p14Be,
            30 => PixelFormat::Yuv422p16Le,
            _ => PixelFormat::Yuv422p16Be,
        }
    }

    fn from_index_1(i: usize) -> (r: Self)
        requires
            32 <= i < 64,
        ensures
            r@ == Term::Named(i as nat),
    {
        match i {
            32 => PixelFormat::Yuv440p10Le,
            33 => PixelFormat::Yuv440p10Be,
            34 => PixelFormat::Yuv440p12Le,
            35 => PixelFormat::Yuv440p12Be,
            36 => PixelFormat::Yuv444p9Le,
            37 => PixelFormat::Yuv444p9Be,
            38 => PixelFormat::Yuv444p10Le,
            39 => PixelFormat::Yuv444p10Be,
            40 => PixelFormat::Yuv444p12Le,
            41 => PixelFormat::Yuv444p12Be,
            42 => PixelFormat::Yuv444p14Le,
            43 => PixelFormat::Yuv444p14Be,
            44 => PixelFormat::Yuv444p16Le,
            45 => PixelFormat::Yuv444p16Be,
            46 => PixelFormat::Yuv444p10MsbLe,
            47 => PixelFormat::Yuv444p10MsbBe,
            48 => PixelFormat::Yuv444p12MsbLe,
            49 => PixelFormat::Yuv444p12MsbBe,
            50 => PixelFormat::Yuva420p,
            51 => PixelFormat::Yuva422p,
            52 => PixelFormat::Yuva444p,
            53 => PixelFormat::Yuva420p9Le,
            54 => PixelFormat::Yuva420p9Be,
            55 => PixelFormat::Yuva422p9Le,
            56 => PixelFormat::Yuva422p9Be,
            57 => PixelFormat::Yuva444p9Le,
            58 => PixelFormat::Yuva444p9Be,
            59 => PixelFormat::Yuva420p10Le,
            60 => PixelFormat::Yuva420p10Be,
            61 => PixelFormat::Yuva422p10Le,
            62 => PixelFormat::Yuva422p10Be,
            _ => PixelFormat::Yuva444p10Le,
        }
    }

    fn from_index_2(i: usize) -> (r: Self)
        requires
            64 <= i < 96,
        ensures
            r@ == Term::Named(i as nat),
    {
        match i {
            64 => PixelFormat::Yuva444p10Be,
            65 => PixelFormat::Yuva420p12Le,
            66 => PixelFormat::Yuva420p12Be,
            67 => PixelFormat::Yuva422p12Le,
            68 => PixelFormat::Yuva422p12Be,
            69 => PixelFormat::Yuva444p12Le,
            70 => PixelFormat::Yuva444p12Be,
            71 => PixelFormat::Yuva444p14Le,
            72 => PixelFormat::Yuva420p16Le,
            73 => PixelFormat::Yuva420p16Be,
            74 => PixelFormat::Yuva422p16Le,
            75 => PixelFormat::Yuva422p16Be,
            76 => PixelFormat::Yuva444p16Le,
            77 => PixelFormat::Yuva444p16Be,
            78 => PixelFormat::Nv12,
            79 => PixelFormat::Nv21,
            80 => PixelFormat::Nv16,
            81 => PixelFormat::Nv24,
            82 => PixelFormat::Nv42,
            83 => PixelFormat::Nv20Le,
            84 => PixelFormat::Nv20Be,
            85 => PixelFormat::P010Le,
            86 => PixelFormat::P010Be,
            87 => PixelFormat::P012Le,
            88 => PixelFormat::P012Be,
            89 => PixelFormat::P016Le,
            90 => PixelFormat::P016Be,
            91 => PixelFormat::P210Le,
            92 => PixelFormat::P210Be,
            93 => PixelFormat::P212Le,
            94 => PixelFormat::P212Be,
            _ => PixelFormat::P216Le,
        }
    }

    fn from_index_3(i: usize) -> (r: Self)
        requires
            96 <= i < 128,
        ensures
            r@ == Term::Named(i as nat),
    {
        match i {
            96 => PixelFormat::P216Be,
            97 => PixelFormat::P410Le,
            98 => PixelFormat::P410Be,
            99 => PixelFormat::P412Le,
            100 => PixelFormat::P412Be,
            101 => PixelFormat::P416Le,
            102 => PixelFormat::P416Be,
            103 => PixelFormat::Yuyv422,
            104 => PixelFormat::Uyvy422,
            105 => PixelFormat::Yvyu422,
            106 => PixelFormat::Uyyvyy411,
            107 => PixelFormat::Y210Le,
            108 => PixelFormat::Y210Be,
            109 => PixelFormat::Y212Le,
            110 => PixelFormat::Y212Be,
            111 => PixelFormat::Y216Le,
            112 => PixelFormat::Y216Be,
            113 => PixelFormat::V210,
            114 => PixelFormat::V410Le,
            115 => PixelFormat::V410Be,
            116 => PixelFormat::Xv30Le,
            117 => PixelFormat::Xv30Be,
            118 => PixelFormat::V30xLe,
            119 => PixelFormat::V30xBe,
            120 => PixelFormat::Xv36Le,
            121 => PixelFormat::Xv36Be,
            122 => PixelFormat::Xv48Le,
            123 => PixelFormat::Xv48Be,
            124 => PixelFormat::Vuya,
            125 => PixelFormat::Vuyx,
            126 => PixelFormat::Ayuv,
            _ => PixelFormat::Ayuv64Le,
        }
    }

    fn from_index_4(i: usize) -> (r: Self)
        requires
            128 <= i < 160,
        ensures
            r@ == Term::Named(i as nat),
    {
        match i {
            128 => PixelFormat::Ayuv64Be,
            129 => PixelFormat::Uyva,
            130 => PixelFormat::Vyu444,
            131 => PixelFormat::Xyz12Le,
            132 => PixelFormat::Xyz12Be,
            133 => PixelFormat::Rgb24,
            134 => PixelFormat::Bgr24,
            135 => PixelFormat::Rgba,
            136 => PixelFormat::Bgra,
            137 => PixelFormat::Argb,
            138 => PixelFormat::Abgr,
            139 => PixelFormat::Rgbx,
            140 => PixelFormat::Bgrx,
            141 => PixelFormat::Xrgb,
            142 => PixelFormat::Xbgr,
            143 => PixelFormat::X2Rgb10Le,
            144 => PixelFormat::X2Rgb10Be,
            145 => PixelFormat::X2Bgr10Le,
            146 => PixelFormat::X2Bgr10Be,
            147 => PixelFormat::Gbr24p,
            148 => PixelFormat::Rgb4,
            149 => PixelFormat::Rgb4Byte,
            150 => PixelFormat::Rgb8,
            151 => PixelFormat::Bgr4,
            152 => PixelFormat::Bgr4Byte,
            153 => PixelFormat::Bgr8,
            154 => PixelFormat::Rgb444Le,
            155 => PixelFormat::Rgb444Be,
            156 => PixelFormat::Bgr444Le,
            157 => PixelFormat::Bgr444Be,
            158 => PixelFormat::Rgb555Le,
            _ => PixelFormat::Rgb555Be,
        }
    }

    fn from_index_5(i: usize) -> (r: Self)
        requires
            160 <= i < 192,
        ensures
            r@ == Term::Named(i as nat),
    {
        match i {
            160 => PixelFormat::Bgr555Le,
            161 => PixelFormat::Bgr555Be,
            162 => PixelFormat::Rgb565Le,
            163 => PixelFormat::Rgb565Be,
            164 => PixelFormat::Bgr565Le,
            165 => PixelFormat::Bgr565Be,
            166 => PixelFormat::Rgb48Le,
            167 => PixelFormat::Rgb48Be,
            168 => PixelFormat::Bgr48Le,
            169 => PixelFormat::Bgr48Be,
            170 => PixelFormat::Rgba64Le,
            171 => PixelFormat::Rgba64Be,
            172 => PixelFormat::Bgra64Le,
            173 => PixelFormat::Bgra64Be,
            174 => PixelFormat::Rgb96Le,
            175 => PixelFormat::Rgb96Be,
            176 => PixelFormat::Rgba128Le,
            177 => PixelFormat::Rgba128Be,
            178 => PixelFormat::Rgbf16Le,
            179 => PixelFormat::Rgbf16Be,
            180 => PixelFormat::Rgbf32Le,
            181 => PixelFormat::Rgbf32Be,
            182 => PixelFormat::Rgbaf16Le,
            183 => PixelFormat::Rgbaf16Be,
            184 => PixelFormat::Rgbaf32Le,
            185 => PixelFormat::Rgbaf32Be,
            186 => PixelFormat::Gbrp,
            187 => PixelFormat::Gbrp9Le,
            188 => PixelFormat::Gbrp9Be,
            189 => PixelFormat::Gbrp10Le,
            190 => PixelFormat::Gbrp10Be,
            _ => PixelFormat::Gbrp10MsbLe,
        }
    }

    fn from_index_6(i: usize) -> (r: Self)
        requires
            192 <= i < 224,
        ensures
            r@ == Term::Named(i as nat),
    {
        match i {
            192 => PixelFormat::Gbrp10MsbBe,
            193 => PixelFormat::Gbrp12Le,
            194 => PixelFormat::Gbrp12Be,
            195 => PixelFormat::Gbrp12MsbLe,
            196 => PixelFormat::Gbrp12MsbBe,
            197 => PixelFormat::Gbrp14Le,
            198 => PixelFormat::Gbrp14Be,
            199 => PixelFormat::Gbrp16Le,
            200 => PixelFormat::Gbrp16Be,
            201 => PixelFormat::Gbrpf16Le,
            202 => PixelFormat::Gbrpf16Be,
            203 => PixelFormat::Gbrpf32Le,
            204 => PixelFormat::Gbrpf32Be,
            205 => PixelFormat::Gbrap,
            206 => PixelFormat::Gbrap10Le,
            207 => PixelFormat::Gbrap10Be,
            208 => PixelFormat::Gbrap12Le,
            209 => PixelFormat::Gbrap12Be,
            210 => PixelFormat::Gbrap14Le,
            211 => PixelFormat::Gbrap14Be,
            212 => PixelFormat::Gbrap16Le,
            213 => PixelFormat::Gbrap16Be,
            214 => PixelFormat::Gbrap32Le,
            215 => PixelFormat::Gbrap32Be,
            216 => PixelFormat::Gbrapf16Le,
            217 => PixelFormat::Gbrapf16Be,
            218 => PixelFormat::Gbrapf32Le,
            219 => PixelFormat::Gbrapf32Be,
            220 => PixelFormat::Gray8,
            221 => PixelFormat::Gray8a,
            222 => PixelFormat::Gray9Le,
            _ => PixelFormat::Gray9Be,
        }
    }

    fn from_index_7(i: usize) -> (r: Self)
        requires
            224 <= i < 256,
        ensures
            r@ == Term::Named(i as nat),
    {
        match i {
            224 => PixelFormat::Gray10Le,
            225 => PixelFormat::Gray10Be,
            226 => PixelFormat::Gray12Le,
            227 => PixelFormat::Gray12Be,
            228 => PixelFormat::Gray14Le,
            229 => PixelFormat::Gray14Be,
            230 => PixelFormat::Gray16Le,
            231 => PixelFormat::Gray16Be,
            232 => PixelFormat::Gray32Le,
            233 => PixelFormat::Gray32Be,
            234 => PixelFormat::Grayf32Le,
            235 => PixelFormat::Grayf32Be,
            236 => PixelFormat::Grayf16Le,
            237 => PixelFormat::Grayf16Be,
            238 => PixelFormat::Ya8,
            239 => PixelFormat::Y400a,
            240 => PixelFormat::Ya16Le,
            241 => PixelFormat::Ya16Be,
            242 => PixelFormat::Yaf16Le,
            243 => PixelFormat::Yaf16Be,
            244 => PixelFormat::Yaf32Le,
            245 => PixelFormat::Yaf32Be,
            246 => PixelFormat::Monowhite,
            247 => PixelFormat::Monoblack,
            248 => PixelFormat::Pal8,
            249 => PixelFormat::BayerBggr8,
            250 => PixelFormat::BayerRggb8,
            251 => PixelFormat::BayerGbrg8,
            252 => PixelFormat::BayerGrbg8,
            253 => PixelFormat::BayerBggr10Le,
            254 => PixelFormat::BayerBggr10Be,
            _ => PixelFormat::BayerRggb10Le,
        }
    }

    fn from_index_8(i: usize) -> (r: Self)
        requires
            256 <= i < 285,
        ensures
            r@ == Term::Named(i as nat),
    {
        match i {
            256 => PixelFormat::BayerRggb10Be,
            257 => PixelFormat::BayerGbrg10Le,
            258 => PixelFormat::BayerGbrg10Be,
            259 => PixelFormat::BayerGrbg10Le,
            260 => PixelFormat::BayerGrbg10Be,
            261 => PixelFormat::BayerBggr12Le,
            262 => PixelFormat::BayerBggr12Be,
            263 => PixelFormat::BayerRggb12Le,
            264 => PixelFormat::BayerRggb12Be,
            265 => PixelFormat::BayerGbrg12Le,
            266 => PixelFormat::BayerGbrg12Be,
            267 => PixelFormat::BayerGrbg12Le,
            268 => PixelFormat::BayerGrbg12Be,
            269 => PixelFormat::BayerBggr14Le,
            270 => PixelFormat::BayerBggr14Be,
            271 => PixelFormat::BayerRggb14Le,
            272 => PixelFormat::BayerRggb14Be,
            273 => PixelFormat::BayerGbrg14Le,
            274 => PixelFormat::BayerGbrg14Be,
            275 => PixelFormat::BayerGrbg14Le,
            276 => PixelFormat::BayerGrbg14Be,
            277 => PixelFormat::BayerBggr16Le,
            278 => PixelFormat::BayerBggr16Be,
            279 => PixelFormat::BayerRggb16Le,
            280 => PixelFormat::BayerRggb16Be,
            281 => PixelFormat::BayerGbrg16Le,
            282 => PixelFormat::BayerGbrg16Be,
            283 => PixelFormat::BayerGrbg16Le,
            _ => PixelFormat::BayerGrbg16Be,
        }
    }

    fn index(&self) -> (r: usize)
        ensures
            self@ matches Term::Named(i) ==> r == i,
            self@ is Other ==> r == 285,
    {
        match self {
            PixelFormat::NoFormat => 0,
            PixelFormat::Yuv420p => 1,
            PixelFormat::Yuv422p => 2,
            PixelFormat::Yuv440p => 3,
            PixelFormat::Yuv444p => 4,
            PixelFormat::Yuv411p => 5,
            PixelFormat::Yuv410p => 6,
            PixelFormat::Yuvj411p => 7,
            PixelFormat::Yuvj420p => 8,
            PixelFormat::Yuvj422p => 9,
            PixelFormat::Yuvj440p => 10,
            PixelFormat::Yuvj444p => 11,
            PixelFormat::Yuv420p9Le => 12,
            PixelFormat::Yuv420p9Be => 13,
            PixelFormat::Yuv420p10Le => 14,
            PixelFormat::Yuv420p10Be => 15,
            PixelFormat::Yuv420p12Le => 16,
            PixelFormat::Yuv420p12Be => 17,
            PixelFormat::Yuv420p14Le => 18,
            PixelFormat::Yuv420p14Be => 19,
            PixelFormat::Yuv420p16Le => 20,
            PixelFormat::Yuv420p16Be => 21,
            PixelFormat::Yuv422p9Le => 22,
            PixelFormat::Yuv422p9Be => 23,
            PixelFormat::Yuv422p10Le => 24,
            PixelFormat::Yuv422p10Be => 25,
            PixelFormat::Yuv422p12Le => 26,
            PixelFormat::Yuv422p12Be => 27,
            PixelFormat::Yuv422p14Le => 28,
            PixelFormat::Yuv422p14Be => 29,
            PixelFormat::Yuv422p16Le => 30,
            PixelFormat::Yuv422p16Be => 31,
            PixelFormat::Yuv440p10Le => 32,
            PixelFormat::Yuv440p10Be => 33,
            PixelFormat::Yuv440p12Le => 34,
            PixelFormat::Yuv440p12Be => 35,
            PixelFormat::Yuv444p9Le => 36,
            PixelFormat::Yuv444p9Be => 37,
            PixelFormat::Yuv444p10Le => 38,
            PixelFormat::Yuv444p10Be => 39,
            PixelFormat::Yuv444p12Le => 40,
            PixelFormat::Yuv444p12Be => 41,
            PixelFormat::Yuv444p14Le => 42,
            PixelFormat::Yuv444p14Be => 43,
            PixelFormat::Yuv444p16Le => 44,
            PixelFormat::Yuv444p16Be => 45,
            PixelFormat::Yuv444p10MsbLe => 46,
            PixelFormat::Yuv444p10MsbBe => 47,
            PixelFormat::Yuv444p12MsbLe => 48,
            PixelFormat::Yuv444p12MsbBe => 49,
            PixelFormat::Yuva420p => 50,
            PixelFormat::Yuva422p => 51,
            PixelFormat::Yuva444p => 52,
            PixelFormat::Yuva420p9Le => 53,
            PixelFormat::Yuva420p9Be => 54,
            PixelFormat::Yuva422p9Le => 55,
            PixelFormat::Yuva422p9Be => 56,
            PixelFormat::Yuva444p9Le => 57,
            PixelFormat::Yuva444p9Be => 58,
            PixelFormat::Yuva420p10Le => 59,
            PixelFormat::Yuva420p10Be => 60,
            PixelFormat::Yuva422p10Le => 61,
            PixelFormat::Yuva422p10Be => 62,
            PixelFormat::Yuva444p10Le => 63,
            PixelFormat::Yuva444p10Be => 64,
            PixelFormat::Yuva420p12Le => 65,
            PixelFormat::Yuva420p12Be => 66,
            PixelFormat::Yuva422p12Le => 67,
            PixelFormat::Yuva422p12Be => 68,
            PixelFormat::Yuva444p12Le => 69,
            PixelFormat::Yuva444p12Be => 70,
            PixelFormat::Yuva444p14Le => 71,
            PixelFormat::Yuva420p16Le => 72,
            PixelFormat::Yuva420p16Be => 73,
            PixelFormat::Yuva422p16Le => 74,
            PixelFormat::Yuva422p16Be => 75,
            PixelFormat::Yuva444p16Le => 76,
            PixelFormat::Yuva444p16Be => 77,
            PixelFormat::Nv12 => 78,
            PixelFormat::Nv21 => 79,
            PixelFormat::Nv16 => 80,
            PixelFormat::Nv24 => 81,
            PixelFormat::Nv42 => 82,
            PixelFormat::Nv20Le => 83,
            PixelFormat::Nv20Be => 84,
            PixelFormat::P010Le => 85,
            PixelFormat::P010Be => 86,
            PixelFormat::P012Le => 87,
            PixelFormat::P012Be => 88,
            PixelFormat::P016Le => 89,
            PixelFormat::P016Be => 90,
            PixelFormat::P210Le => 91,
            PixelFormat::P210Be => 92,
            PixelFormat::P212Le => 93,
            PixelFormat::P212Be => 94,
            PixelFormat::P216Le => 95,
            PixelFormat::P216Be => 96,
            PixelFormat::P410Le => 97,
            PixelFormat::P410Be => 98,
            PixelFormat::P412Le => 99,
            PixelFormat::P412Be => 100,
            PixelFormat::P416Le => 101,
            PixelFormat::P416Be => 102,
            PixelFormat::Yuyv422 => 103,
            PixelFormat::Uyvy422 => 104,
            PixelFormat::Yvyu422 => 105,
            PixelFormat::Uyyvyy411 => 106,
            PixelFormat::Y210Le => 107,
            PixelFormat::Y210Be => 108,
            PixelFormat::Y212Le => 109,
            PixelFormat::Y212Be => 110,
            PixelFormat::Y216Le => 111,
            PixelFormat::Y216Be => 112,
            PixelFormat::V210 => 113,
            PixelFormat::V410Le => 114,
            PixelFormat::V410Be => 115,
            PixelFormat::Xv30Le => 116,
            PixelFormat::Xv30Be => 117,
            PixelFormat::V30xLe => 118,
            PixelFormat::V30xBe => 119,
            PixelFormat::Xv36Le => 120,
            PixelFormat::Xv36Be => 121,
            PixelFormat::Xv48Le => 122,
            PixelFormat::Xv48Be => 123,
            PixelFormat::Vuya => 124,
            PixelFormat::Vuyx => 125,
            PixelFormat::Ayuv => 126,
            PixelFormat::Ayuv64Le => 127,
            PixelFormat::Ayuv64Be => 128,
            PixelFormat::Uyva => 129,
            PixelFormat::Vyu444 => 130,
            PixelFormat::Xyz12Le => 131,
            PixelFormat::Xyz12Be => 132,
            PixelFormat::Rgb24 => 133,
            PixelFormat::Bgr24 => 134,
            PixelFormat::Rgba => 135,
            PixelFormat::Bgra => 136,
            PixelFormat::Argb => 137,
            PixelFormat::Abgr => 138,
            PixelFormat::Rgbx => 139,
            PixelFormat::Bgrx => 140,
            PixelFormat::Xrgb => 141,
            PixelFormat::Xbgr => 142,
            PixelFormat::X2Rgb10Le => 143,
            PixelFormat::X2Rgb10Be => 144,
            PixelFormat::X2Bgr10Le => 145,
            PixelFormat::X2Bgr10Be => 146,
            PixelFormat::Gbr24p => 147,
            PixelFormat::Rgb4 => 148,
            PixelFormat::Rgb4Byte => 149,
            PixelFormat::Rgb8 => 150,
            PixelFormat::Bgr4 => 151,
            PixelFormat::Bgr4Byte => 152,
            PixelFormat::Bgr8 => 153,
            PixelFormat::Rgb444Le => 154,
            PixelFormat::Rgb444Be => 155,
            PixelFormat::Bgr444Le => 156,
            PixelFormat::Bgr444Be => 157,
            PixelFormat::Rgb555Le => 158,
            PixelFormat::Rgb555Be => 159,
            PixelFormat::Bgr555Le => 160,
            PixelFormat::Bgr555Be => 161,
            PixelFormat::Rgb565Le => 162,
            PixelFormat::Rgb565Be => 163,
            PixelFormat::Bgr565Le => 164,
            PixelFormat::Bgr565Be => 165,
            PixelFormat::Rgb48Le => 166,
            PixelFormat::Rgb48Be => 167,
            PixelFormat::Bgr48Le => 168,
            PixelFormat::Bgr48Be => 169,
            PixelFormat::Rgba64Le => 170,
            PixelFormat::Rgba64Be => 171,
            PixelFormat::Bgra64Le => 172,
            PixelFormat::Bgra64Be => 173,
            PixelFormat::Rgb96Le => 174,
            PixelFormat::Rgb96Be => 175,
            PixelFormat::Rgba128Le => 176,
            PixelFormat::Rgba128Be => 177,
            PixelFormat::Rgbf16Le => 178,
            PixelFormat::Rgbf16Be => 179,
            PixelFormat::Rgbf32Le => 180,
            PixelFormat::Rgbf32Be => 181,
            PixelFormat::Rgbaf16Le => 182,
            PixelFormat::Rgbaf16Be => 183,
            PixelFormat::Rgbaf32Le => 184,
            PixelFormat::Rgbaf32Be => 185,
            PixelFormat::Gbrp => 186,
            PixelFormat::Gbrp9Le => 187,
            PixelFormat::Gbrp9Be => 188,
            PixelFormat::Gbrp10Le => 189,
            PixelFormat::Gbrp10Be => 190,
            PixelFormat::Gbrp10MsbLe => 191,
            PixelFormat::Gbrp10MsbBe => 192,
            PixelFormat::Gbrp12Le => 193,
            PixelFormat::Gbrp12Be => 194,
            PixelFormat::Gbrp12MsbLe => 195,
            PixelFormat::Gbrp12MsbBe => 196,
            PixelFormat::Gbrp14Le => 197,
            PixelFormat::Gbrp14Be => 198,
            PixelFormat::Gbrp16Le => 199,
            PixelFormat::Gbrp16Be => 200,
            PixelFormat::Gbrpf16Le => 201,
            PixelFormat::Gbrpf16Be => 202,
            PixelFormat::Gbrpf32Le => 203,
            PixelFormat::Gbrpf32Be => 204,
            PixelFormat::Gbrap => 205,
            PixelFormat::Gbrap10Le => 206,
            PixelFormat::Gbrap10Be => 207,
            PixelFormat::Gbrap12Le => 208,
            PixelFormat::Gbrap12Be => 209,
            PixelFormat::Gbrap14Le => 210,
            PixelFormat::Gbrap14Be => 211,
            PixelFormat::Gbrap16Le => 212,
            PixelFormat::Gbrap16Be => 213,
            PixelFormat::Gbrap32Le => 214,
            PixelFormat::Gbrap32Be => 215,
            PixelFormat::Gbrapf16Le => 216,
            PixelFormat::Gbrapf16Be => 217,
            PixelFormat::Gbrapf32Le => 218,
            PixelFormat::Gbrapf32Be => 219,
            PixelFormat::Gray8 => 220,
            PixelFormat::Gray8a => 221,
            PixelFormat::Gray9Le => 222,
            PixelFormat::Gray9Be => 223,
            PixelFormat::Gray10Le => 224,
            PixelFormat::Gray10Be => 225,
            PixelFormat::Gray12Le => 226,
            PixelFormat::Gray12Be => 227,
            PixelFormat::Gray14Le => 228,
            PixelFormat::Gray14Be => 229,
            PixelFormat::Gray16Le => 230,
            PixelFormat::Gray16Be => 231,
            PixelFormat::Gray32Le => 232,
            PixelFormat::Gray32Be => 233,
            PixelFormat::Grayf32Le => 234,
            PixelFormat::Grayf32Be => 235,
            PixelFormat::Grayf16Le => 236,
            PixelFormat::Grayf16Be => 237,
            PixelFormat::Ya8 => 238,
            PixelFormat::Y400a => 239,
            PixelFormat::Ya16Le => 240,
            PixelFormat::Ya16Be => 241,
            PixelFormat::Yaf16Le => 242,
            PixelFormat::Yaf16Be => 243,
            PixelFormat::Yaf32Le => 244,
            PixelFormat::Yaf32Be => 245,
            PixelFormat::Monowhite => 246,
            PixelFormat::Monoblack => 247,
            PixelFormat::Pal8 => 248,
            PixelFormat::BayerBggr8 => 249,
            PixelFormat::BayerRggb8 => 250,
            PixelFormat::BayerGbrg8 => 251,
            PixelFormat::BayerGrbg8 => 252,
            PixelFormat::BayerBggr10Le => 253,
            PixelFormat::BayerBggr10Be => 254,
            PixelFormat::BayerRggb10Le => 255,
            PixelFormat::BayerRggb10Be => 256,
            PixelFormat::BayerGbrg10Le => 257,
            PixelFormat::BayerGbrg10Be => 258,
            PixelFormat::BayerGrbg10Le => 259,
            PixelFormat::BayerGrbg10Be => 260,
            PixelFormat::BayerBggr12Le => 261,
            PixelFormat::BayerBggr12Be => 262,
            PixelFormat::BayerRggb12Le => 263,
            PixelFormat::BayerRggb12Be => 264,
            PixelFormat::BayerGbrg12Le => 265,
            PixelFormat::BayerGbrg12Be => 266,
            PixelFormat::BayerGrbg12Le => 267,
            PixelFormat::BayerGrbg12Be => 268,
            PixelFormat::BayerBggr14Le => 269,
            PixelFormat::BayerBggr14Be => 270,
            PixelFormat::BayerRggb14Le => 271,
            PixelFormat::BayerRggb14Be => 272,
            PixelFormat::BayerGbrg14Le => 273,
            PixelFormat::BayerGbrg14Be => 274,
            PixelFormat::BayerGrbg14Le => 275,
            PixelFormat::BayerGrbg14Be => 276,
            PixelFormat::BayerBggr16Le => 277,
            PixelFormat::BayerBggr16Be => 278,
            PixelFormat::BayerRggb16Le => 279,
            PixelFormat::BayerRggb16Be => 280,
            PixelFormat::BayerGbrg16Le => 281,
            PixelFormat::BayerGbrg16Be => 282,
            PixelFormat::BayerGrbg16Le => 283,
            PixelFormat::BayerGrbg16Be => 284,
            PixelFormat::Other(_) => 285,
        }
    }

    /// The lowercase FFmpeg-style slug (`"yuv420p"`, `"bayer_bggr12le"`); [`Self::Other`] renders the
    /// name it carries.
    #[verifier::rlimit(100)]
    pub fn as_str(&self) -> (r: &str)
        ensures
            r@ == term_text(pixel_format_slugs(), self@),
    {
        match self {
            PixelFormat::Other(s) => s.as_str(),
            _ => PIXEL_FORMAT_SLUGS[self.index()],
        }
    }

    /// The stable `u32` wire id; [`None`] for [`Self::Other`], which has no id to invent.
    #[verifier::rlimit(100)]
    pub fn to_u32(&self) -> (r: Option<u32>)
        ensures
            r == pixel_format_code(self@),
    {
        match self {
            PixelFormat::Other(_) => None,
            _ => Some(PIXEL_FORMAT_CODES[self.index()]),
        }
    }

    /// Decodes the stable `u32` wire id [`Self::to_u32`] produces; [`None`] for an id this build
    /// names nothing for.
    pub fn from_u32(value: u32) -> (r: Option<Self>)
        ensures
            match r {
                Some(x) => code_index(PIXEL_FORMAT_CODES@, value) == Some(x@->Named_0),
                None => code_index(PIXEL_FORMAT_CODES@, value) is None,
            },
            r matches Some(x) ==> x@ is Named,
    {
        let mut i: usize = 0;
        assert(PIXEL_FORMAT_CODES@.subrange(0, PIXEL_FORMAT_CODES@.len() as int) =~= PIXEL_FORMAT_CODES@);
        while i < PIXEL_FORMAT_CODES.len()
            invariant
                i <= PIXEL_FORMAT_CODES@.len(),
                forall|j: int| 0 <= j < i ==> PIXEL_FORMAT_CODES@[j] != value,
            decreases PIXEL_FORMAT_CODES@.len() - i,
        {
            if PIXEL_FORMAT_CODES[i] == value {
                proof {
                    lemma_code_index_is(PIXEL_FORMAT_CODES@, value, i as int);
                }
                return Some(PixelFormat::from_index(i));
            }
            i = i + 1;
        }
        proof {
            lemma_code_index_none(PIXEL_FORMAT_CODES@, value);
        }
        None
    }

    /// Is this one of the Bayer colour-filter-array layouts?
    pub fn is_bayer(&self) -> (r: bool)
        ensures
            r == pixel_format_is_bayer(self@),
    {
        let i = self.index();
        249 <= i && i < 285
    }

    /// Resolves a deprecated or aliased pixel format to the canonical format describing the same
    /// bytes, and whether the alias pins the full dynamic range (only the `yuvj*` aliases do).
    pub fn canonical(self) -> (r: (PixelFormat, bool))
        ensures
            (r.0@, r.1) == pixel_format_canonical(self@),
    {
        match self {
            PixelFormat::Yuvj411p => (PixelFormat::Yuv411p, true),
            PixelFormat::Yuvj420p => (PixelFormat::Yuv420p, true),
            PixelFormat::Yuvj422p => (PixelFormat::Yuv422p, true),
            PixelFormat::Yuvj440p => (PixelFormat::Yuv440p, true),
            PixelFormat::Yuvj444p => (PixelFormat::Yuv444p, true),
            PixelFormat::Gray8a => (PixelFormat::Ya8, false),
            PixelFormat::Y400a => (PixelFormat::Ya8, false),
            PixelFormat::Xv30Le => (PixelFormat::V410Le, false),
            PixelFormat::Xv30Be => (PixelFormat::V410Be, false),
            _ => (self, false),
        }
    }

    /// The ignore-case parse: the format whose slug — or FFmpeg's differing name — this is, or else
    /// the spelling folded to lower case and carried by [`Self::Other`]. Total.
    pub fn parse(s: &str) -> (r: Self)
        ensures
            r@ == parse_spelled(PIXEL_FORMAT_SPELLINGS@, s@),
    {
        match parse_spelling(PIXEL_FORMAT_SPELLINGS.as_slice(), s) {
            Ok(i) => {
                proof {
                    lemma_pixel_format_spellings_in_range();
                    crate::parse::lemma_spelling_index(PIXEL_FORMAT_SPELLINGS@, lower(s@));
                }
                PixelFormat::from_index(i)
            },
            Err(name) => PixelFormat::Other(name),
        }
    }

    /// The open escape for a slug this vocabulary does not name. Runs the ignore-case parse first,
    /// so a canonical spelling in any case returns that named format.
    pub fn other(slug: &str) -> (r: Self)
        ensures
            r@ == parse_spelled(PIXEL_FORMAT_SPELLINGS@, slug@),
    {
        PixelFormat::parse(slug)
    }

    /// Is this [`Self::NoFormat`]?
    pub fn is_no_format(&self) -> (r: bool)
        ensures
            r == (self@ == Term::Named(0)),
    {
        matches!(self, PixelFormat::NoFormat)
    }

    /// Is this [`Self::Yuv420p`]?
    pub fn is_yuv_420_p(&self) -> (r: bool)
        ensures
            r == (self@ == Term::Named(1)),
    {
        matches!(self, PixelFormat::Yuv420p)
    }

    /// Is this [`Self::Yuv422p`]?
    pub fn is_yuv_422_p(&self) -> (r: bool)
        ensures
            r == (self@ == Term::Named(2)),
    {
        matches!(self, PixelFormat::Yuv422p)
    }

    /// Is this [`Self::Yuv440p`]?
    pub fn is_yuv_440_p(&self) -> (r: bool)
        ensures
            r == (self@ == Term::Named(3)),
    {
        matches!(self, PixelFormat::Yuv440p)
    }

    /// Is this [`Self::Yuv444p`]?
    pub fn is_yuv_444_p(&self) -> (r: bool)
        ensures
            r == (self@ == Term::Named(4)),
    {
        matches!(self, PixelFormat::Yuv444p)
    }

    /// Is this [`Self::Yuv411p`]?
    pub fn is_yuv_411_p(&self) -> (r: bool)
        ensures
            r == (self@ == Term::Named(5)),
    {
        matches!(self, PixelFormat::Yuv411p)
    }

    /// Is this [`Self::Yuv410p`]?
    pub fn is_yuv_410_p(&self) -> (r: bool)
        ensures
            r == (self@ == Term::Named(6)),
    {
        matches!(self, PixelFormat::Yuv410p)
    }

    /// Is this [`Self::Yuvj411p`]?
    pub fn is_yuvj_411_p(&self) -> (r: bool)
        ensures
            r == (self@ == Term::Named(7)),
    {
        matches!(self, PixelFormat::Yuvj411p)
    }

    /// Is this [`Self::Yuvj420p`]?
    pub fn is_yuvj_420_p(&self) -> (r: bool)
        ensures
            r == (self@ == Term::Named(8)),
    {
        matches!(self, PixelFormat::Yuvj420p)
    }

    /// Is this [`Self::Yuvj422p`]?
    pub fn is_yuvj_422_p(&self) -> (r: bool)
        ensures
            r == (self@ == Term::Named(9)),
    {
        matches!(self, PixelFormat::Yuvj422p)
    }

    /// Is this [`Self::Yuvj440p`]?
    pub fn is_yuvj_440_p(&self) -> (r: bool)
        ensures
            r == (self@ == Term::Named(10)),
    {
        matches!(self, PixelFormat::Yuvj440p)
    }

    /// Is this [`Self::Yuvj444p`]?
    pub fn is_yuvj_444_p(&self) -> (r: bool)
        ensures
            r == (self@ == Term::Named(11)),
    {
        matches!(self, PixelFormat::Yuvj444p)
    }

    /// Is this [`Self::Yuv420p9Le`]?
    pub fn is_yuv_420_p_9_le(&self) -> (r: bool)
        ensures
            r == (self@ == Term::Named(12)),
    {
        matches!(self, PixelFormat::Yuv420p9Le)
    }

    /// Is this [`Self::Yuv420p9Be`]?
    pub fn is_yuv_420_p_9_be(&self) -> (r: bool)
        ensures
            r == (self@ == Term::Named(13)),
    {
        matches!(self, PixelFormat::Yuv420p9Be)
    }

    /// Is this [`Self::Yuv420p10Le`]?
    pub fn is_yuv_420_p_10_le(&self) -> (r: bool)
        ensures
            r == (self@ == Term::Named(14)),
    {
        matches!(self, PixelFormat::Yuv420p10Le)
    }

    /// Is this [`Self::Yuv420p10Be`]?
    pub fn is_yuv_420_p_10_be(&self) -> (r: bool)
        ensures
            r == (self@ == Term::Named(15)),
    {
        matches!(self, PixelFormat::Yuv420p10Be)
    }

    /// Is this [`Self::Yuv420p12Le`]?
    pub fn is_yuv_420_p_12_le(&self) -> (r: bool)
        ensures
            r == (self@ == Term::Named(16)),
    {
        matches!(self, PixelFormat::Yuv420p12Le)
    }

    /// Is this [`Self::Yuv420p12Be`]?
    pub fn is_yuv_420_p_12_be(&self) -> (r: bool)
        ensures
            r == (self@ == Term::Named(17)),
    {
        matches!(self, PixelFormat::Yuv420p12Be)
    }

    /// Is this [`Self::Yuv420p14Le`]?
    pub fn is_yuv_420_p_14_le(&self) -> (r: bool)
        ensures
            r == (self@ == Term::Named(18)),
    {
        matches!(self, PixelFormat::Yuv420p14Le)
    }

    /// Is this [`Self::Yuv420p14Be`]?
    pub fn is_yuv_420_p_14_be(&self) -> (r: bool)
        ensures
            r == (self@ == Term::Named(19)),
    {
        matches!(self, PixelFormat::Yuv420p14Be)
    }

    /// Is this [`Self::Yuv420p16Le`]?
    pub fn is_yuv_420_p_16_le(&self) -> (r: bool)
        ensures
            r == (self@ == Term::Named(20)),
    {
        matches!(self, PixelFormat::Yuv420p16Le)
    }

    /// Is this [`Self::Yuv420p16Be`]?
    pub fn is_yuv_420_p_16_be(&self) -> (r: bool)
        ensures
            r == (self@ == Term::Named(21)),
    {
        matches!(self, PixelFormat::Yuv420p16Be)
    }

    /// Is this [`Self::Yuv422p9Le`]?
    pub fn is_yuv_422_p_9_le(&self) -> (r: bool)
        ensures
            r == (self@ == Term::Named(22)),
    {
        matches!(self, PixelFormat::Yuv422p9Le)
    }

    /// Is this [`Self::Yuv422p9Be`]?
    pub fn is_yuv_422_p_9_be(&self) -> (r: bool)
        ensures
            r == (self@ == Term::Named(23)),
    {
        matches!(self, PixelFormat::Yuv422p9Be)
    }

    /// Is this [`Self::Yuv422p10Le`]?
    pub fn is_yuv_422_p_10_le(&self) -> (r: bool)
        ensures
            r == (self@ == Term::Named(24)),
    {
        matches!(self, PixelFormat::Yuv422p10Le)
    }

    /// Is this [`Self::Yuv422p10Be`]?
    pub fn is_yuv_422_p_10_be(&self) -> (r: bool)
        ensures
            r == (self@ == Term::Named(25)),
    {
        matches!(self, PixelFormat::Yuv422p10Be)
    }

    /// Is this [`Self::Yuv422p12Le`]?
    pub fn is_yuv_422_p_12_le(&self) -> (r: bool)
        ensures
            r == (self@ == Term::Named(26)),
    {
        matches!(self, PixelFormat::Yuv422p12Le)
    }

    /// Is this [`Self::Yuv422p12Be`]?
    pub fn is_yuv_422_p_12_be(&self) -> (r: bool)
        ensures
            r == (self@ == Term::Named(27)),
    {
        matches!(self, PixelFormat::Yuv422p12Be)
    }

    /// Is this [`Self::Yuv422p14Le`]?
    pub fn is_yuv_422_p_14_le(&self) -> (r: bool)
        ensures
            r == (self@ == Term::Named(28)),
    {
        matches!(self, PixelFormat::Yuv422p14Le)
    }

    /// Is this [`Self::Yuv422p14Be`]?
    pub fn is_yuv_422_p_14_be(&self) -> (r: bool)
        ensures
            r == (self@ == Term::Named(29)),
    {
        matches!(self, PixelFormat::Yuv422p14Be)
    }

    /// Is this [`Self::Yuv422p16Le`]?
    pub fn is_yuv_422_p_16_le(&self) -> (r: bool)
        ensures
            r == (self@ == Term::Named(30)),
    {
        matches!(self, PixelFormat::Yuv422p16Le)
    }

    /// Is this [`Self::Yuv422p16Be`]?
    pub fn is_yuv_422_p_16_be(&self) -> (r: bool)
        ensures
            r == (self@ == Term::Named(31)),
    {
        matches!(self, PixelFormat::Yuv422p16Be)
    }

    /// Is this [`Self::Yuv440p10Le`]?
    pub fn is_yuv_440_p_10_le(&self) -> (r: bool)
        ensures
            r == (self@ == Term::Named(32)),
    {
        matches!(self, PixelFormat::Yuv440p10Le)
    }

    /// Is this [`Self::Yuv440p10Be`]?
    pub fn is_yuv_440_p_10_be(&self) -> (r: bool)
        ensures
            r == (self@ == Term::Named(33)),
    {
        matches!(self, PixelFormat::Yuv440p10Be)
    }

    /// Is this [`Self::Yuv440p12Le`]?
    pub fn is_yuv_440_p_12_le(&self) -> (r: bool)
        ensures
            r == (self@ == Term::Named(34)),
    {
        matches!(self, PixelFormat::Yuv440p12Le)
    }

    /// Is this [`Self::Yuv440p12Be`]?
    pub fn is_yuv_440_p_12_be(&self) -> (r: bool)
        ensures
            r == (self@ == Term::Named(35)),
    {
        matches!(self, PixelFormat::Yuv440p12Be)
    }

    /// Is this [`Self::Yuv444p9Le`]?
    pub fn is_yuv_444_p_9_le(&self) -> (r: bool)
        ensures
            r == (self@ == Term::Named(36)),
    {
        matches!(self, PixelFormat::Yuv444p9Le)
    }

    /// Is this [`Self::Yuv444p9Be`]?
    pub fn is_yuv_444_p_9_be(&self) -> (r: bool)
        ensures
            r == (self@ == Term::Named(37)),
    {
        matches!(self, PixelFormat::Yuv444p9Be)
    }

    /// Is this [`Self::Yuv444p10Le`]?
    pub fn is_yuv_444_p_10_le(&self) -> (r: bool)
        ensures
            r == (self@ == Term::Named(38)),
    {
        matches!(self, PixelFormat::Yuv444p10Le)
    }

    /// Is this [`Self::Yuv444p10Be`]?
    pub fn is_yuv_444_p_10_be(&self) -> (r: bool)
        ensures
            r == (self@ == Term::Named(39)),
    {
        matches!(self, PixelFormat::Yuv444p10Be)
    }

    /// Is this [`Self::Yuv444p12Le`]?
    pub fn is_yuv_444_p_12_le(&self) -> (r: bool)
        ensures
            r == (self@ == Term::Named(40)),
    {
        matches!(self, PixelFormat::Yuv444p12Le)
    }

    /// Is this [`Self::Yuv444p12Be`]?
    pub fn is_yuv_444_p_12_be(&self) -> (r: bool)
        ensures
            r == (self@ == Term::Named(41)),
    {
        matches!(self, PixelFormat::Yuv444p12Be)
    }

    /// Is this [`Self::Yuv444p14Le`]?
    pub fn is_yuv_444_p_14_le(&self) -> (r: bool)
        ensures
            r == (self@ == Term::Named(42)),
    {
        matches!(self, PixelFormat::Yuv444p14Le)
    }

    /// Is this [`Self::Yuv444p14Be`]?
    pub fn is_yuv_444_p_14_be(&self) -> (r: bool)
        ensures
            r == (self@ == Term::Named(43)),
    {
        matches!(self, PixelFormat::Yuv444p14Be)
    }

    /// Is this [`Self::Yuv444p16Le`]?
    pub fn is_yuv_444_p_16_le(&self) -> (r: bool)
        ensures
            r == (self@ == Term::Named(44)),
    {
        matches!(self, PixelFormat::Yuv444p16Le)
    }

    /// Is this [`Self::Yuv444p16Be`]?
    pub fn is_yuv_444_p_16_be(&self) -> (r: bool)
        ensures
            r == (self@ == Term::Named(45)),
    {
        matches!(self, PixelFormat::Yuv444p16Be)
    }

    /// Is this [`Self::Yuv444p10MsbLe`]?
    pub fn is_yuv_444_p_10_msb_le(&self) -> (r: bool)
        ensures
            r == (self@ == Term::Named(46)),
    {
        matches!(self, PixelFormat::Yuv444p10MsbLe)
    }

    /// Is this [`Self::Yuv444p10MsbBe`]?
    pub fn is_yuv_444_p_10_msb_be(&self) -> (r: bool)
        ensures
            r == (self@ == Term::Named(47)),
    {
        matches!(self, PixelFormat::Yuv444p10MsbBe)
    }

    /// Is this [`Self::Yuv444p12MsbLe`]?
    pub fn is_yuv_444_p_12_msb_le(&self) -> (r: bool)
        ensures
            r == (self@ == Term::Named(48)),
    {
        matches!(self, PixelFormat::Yuv444p12MsbLe)
    }

    /// Is this [`Self::Yuv444p12MsbBe`]?
    pub fn is_yuv_444_p_12_msb_be(&self) -> (r: bool)
        ensures
            r == (self@ == Term::Named(49)),
    {
        matches!(self, PixelFormat::Yuv444p12MsbBe)
    }

    /// Is this [`Self::Yuva420p`]?
    pub fn is_yuva_420_p(&self) -> (r: bool)
        ensures
            r == (self@ == Term::Named(50)),
    {
        matches!(self, PixelFormat::Yuva420p)
    }

    /// Is this [`Self::Yuva422p`]?
    pub fn is_yuva_422_p(&self) -> (r: bool)
        ensures
            r == (self@ == Term::Named(51)),
    {
        matches!(self, PixelFormat::Yuva422p)
    }

    /// Is this [`Self::Yuva444p`]?
    pub fn is_yuva_444_p(&self) -> (r: bool)
        ensures
            r == (self@ == Term::Named(52)),
    {
        matches!(self, PixelFormat::Yuva444p)
    }

    /// Is this [`Self::Yuva420p9Le`]?
    pub fn is_yuva_420_p_9_le(&self) -> (r: bool)
        ensures
            r == (self@ == Term::Named(53)),
    {
        matches!(self, PixelFormat::Yuva420p9Le)
    }

    /// Is this [`Self::Yuva420p9Be`]?
    pub fn is_yuva_420_p_9_be(&self) -> (r: bool)
        ensures
            r == (self@ == Term::Named(54)),
    {
        matches!(self, PixelFormat::Yuva420p9Be)
    }

    /// Is this [`Self::Yuva422p9Le`]?
    pub fn is_yuva_422_p_9_le(&self) -> (r: bool)
        ensures
            r == (self@ == Term::Named(55)),
    {
        matches!(self, PixelFormat::Yuva422p9Le)
    }

    /// Is this [`Self::Yuva422p9Be`]?
    pub fn is_yuva_422_p_9_be(&self) -> (r: bool)
        ensures
            r == (self@ == Term::Named(56)),
    {
        matches!(self, PixelFormat::Yuva422p9Be)
    }

    /// Is this [`Self::Yuva444p9Le`]?
    pub fn is_yuva_444_p_9_le(&self) -> (r: bool)
        ensures
            r == (self@ == Term::Named(57)),
    {
        matches!(self, PixelFormat::Yuva444p9Le)
    }

    /// Is this [`Self::Yuva444p9Be`]?
    pub fn is_yuva_444_p_9_be(&self) -> (r: bool)
        ensures
            r == (self@ == Term::Named(58)),
    {
        matches!(self, PixelFormat::Yuva444p9Be)
    }

    /// Is this [`Self::Yuva420p10Le`]?
    pub fn is_yuva_420_p_10_le(&self) -> (r: bool)
        ensures
            r == (self@ == Term::Named(59)),
    {
        matches!(self, PixelFormat::Yuva420p10Le)
    }

    /// Is this [`Self::Yuva420p10Be`]?
    pub fn is_yuva_420_p_10_be(&self) -> (r: bool)
        ensures
            r == (self@ == Term::Named(60)),
    {
        matches!(self, PixelFormat::Yuva420p10Be)
    }

    /// Is this [`Self::Yuva422p10Le`]?
    pub fn is_yuva_422_p_10_le(&self) -> (r: bool)
        ensures
            r == (self@ == Term::Named(61)),
    {
        matches!(self, PixelFormat::Yuva422p10Le)
    }

    /// Is this [`Self::Yuva422p10Be`]?
    pub fn is_yuva_422_p_10_be(&self) -> (r: bool)
        ensures
            r == (self@ == Term::Named(62)),
    {
        matches!(self, PixelFormat::Yuva422p10Be)
    }

    /// Is this [`Self::Yuva444p10Le`]?
    pub fn is_yuva_444_p_10_le(&self) -> (r: bool)
        ensures
            r == (self@ == Term::Named(63)),
    {
        matches!(self, PixelFormat::Yuva444p10Le)
    }

    /// Is this [`Self::Yuva444p10Be`]?
    pub fn is_yuva_444_p_10_be(&self) -> (r: bool)
        ensures
            r == (self@ == Term::Named(64)),
    {
        matches!(self, PixelFormat::Yuva444p10Be)
    }

    /// Is this [`Self::Yuva420p12Le`]?
    pub fn is_yuva_420_p_12_le(&self) -> (r: bool)
        ensures
            r == (self@ == Term::Named(65)),
    {
        matches!(self, PixelFormat::Yuva420p12Le)
    }

    /// Is this [`Self::Yuva420p12Be`]?
    pub fn is_yuva_420_p_12_be(&self) -> (r: bool)
        ensures
            r == (self@ == Term::Named(66)),
    {
        matches!(self, PixelFormat::Yuva420p12Be)
    }

    /// Is this [`Self::Yuva422p12Le`]?
    pub fn is_yuva_422_p_12_le(&self) -> (r: bool)
        ensures
            r == (self@ == Term::Named(67)),
    {
        matches!(self, PixelFormat::Yuva422p12Le)
    }

    /// Is this [`Self::Yuva422p12Be`]?
    pub fn is_yuva_422_p_12_be(&self) -> (r: bool)
        ensures
            r == (self@ == Term::Named(68)),
    {
        matches!(self, PixelFormat::Yuva422p12Be)
    }

    /// Is this [`Self::Yuva444p12Le`]?
    pub fn is_yuva_444_p_12_le(&self) -> (r: bool)
        ensures
            r == (self@ == Term::Named(69)),
    {
        matches!(self, PixelFormat::Yuva444p12Le)
    }

    /// Is this [`Self::Yuva444p12Be`]?
    pub fn is_yuva_444_p_12_be(&self) -> (r: bool)
        ensures
            r == (self@ == Term::Named(70)),
    {
        matches!(self, PixelFormat::Yuva444p12Be)
    }

    /// Is this [`Self::Yuva444p14Le`]?
    pub fn is_yuva_444_p_14_le(&self) -> (r: bool)
        ensures
            r == (self@ == Term::Named(71)),
    {
        matches!(self, PixelFormat::Yuva444p14Le)
    }

    /// Is this [`Self::Yuva420p16Le`]?
    pub fn is_yuva_420_p_16_le(&self) -> (r: bool)
        ensures
            r == (self@ == Term::Named(72)),
    {
        matches!(self, PixelFormat::Yuva420p16Le)
    }

    /// Is this [`Self::Yuva420p16Be`]?
    pub fn is_yuva_420_p_16_be(&self) -> (r: bool)
        ensures
            r == (self@ == Term::Named(73)),
    {
        matches!(self, PixelFormat::Yuva420p16Be)
    }

    /// Is this [`Self::Yuva422p16Le`]?
    pub fn is_yuva_422_p_16_le(&self) -> (r: bool)
        ensures
            r == (self@ == Term::Named(74)),
    {
        matches!(self, PixelFormat::Yuva422p16Le)
    }

    /// Is this [`Self::Yuva422p16Be`]?
    pub fn is_yuva_422_p_16_be(&self) -> (r: bool)
        ensures
            r == (self@ == Term::Named(75)),
    {
        matches!(self, PixelFormat::Yuva422p16Be)
    }

    /// Is this [`Self::Yuva444p16Le`]?
    pub fn is_yuva_444_p_16_le(&self) -> (r: bool)
        ensures
            r == (self@ == Term::Named(76)),
    {
        matches!(self, PixelFormat::Yuva444p16Le)
    }

    /// Is this [`Self::Yuva444p16Be`]?
    pub fn is_yuva_444_p_16_be(&self) -> (r: bool)
        ensures
            r == (self@ == Term::Named(77)),
    {
        matches!(self, PixelFormat::Yuva444p16Be)
    }

    /// Is this [`Self::Nv12`]?
    pub fn is_nv_12(&self) -> (r: bool)
        ensures
            r == (self@ == Term::Named(78)),
    {
        matches!(self, PixelFormat::Nv12)
    }

    /// Is this [`Self::Nv21`]?
    pub fn is_nv_21(&self) -> (r: bool)
        ensures
            r == (self@ == Term::Named(79)),
    {
        matches!(self, PixelFormat::Nv21)
    }

    /// Is this [`Self::Nv16`]?
    pub fn is_nv_16(&self) -> (r: bool)
        ensures
            r == (self@ == Term::Named(80)),
    {
        matches!(self, PixelFormat::Nv16)
    }

    /// Is this [`Self::Nv24`]?
    pub fn is_nv_24(&self) -> (r: bool)
        ensures
            r == (self@ == Term::Named(81)),
    {
        matches!(self, PixelFormat::Nv24)
    }

    /// Is this [`Self::Nv42`]?
    pub fn is_nv_42(&self) -> (r: bool)
        ensures
            r == (self@ == Term::Named(82)),
    {
        matches!(self, PixelFormat::Nv42)
    }

    /// Is this [`Self::Nv20Le`]?
    pub fn is_nv_20_le(&self) -> (r: bool)
        ensures
            r == (self@ == Term::Named(83)),
    {
        matches!(self, PixelFormat::Nv20Le)
    }

    /// Is this [`Self::Nv20Be`]?
    pub fn is_nv_20_be(&self) -> (r: bool)
        ensures
            r == (self@ == Term::Named(84)),
    {
        matches!(self, PixelFormat::Nv20Be)
    }

    /// Is this [`Self::P010Le`]?
    pub fn is_p_010_le(&self) -> (r: bool)
        ensures
            r == (self@ == Term::Named(85)),
    {
        matches!(self, PixelFormat::P010Le)
    }

    /// Is this [`Self::P010Be`]?
    pub fn is_p_010_be(&self) -> (r: bool)
        ensures
            r == (self@ == Term::Named(86)),
    {
        matches!(self, PixelFormat::P010Be)
    }

    /// Is this [`Self::P012Le`]?
    pub fn is_p_012_le(&self) -> (r: bool)
        ensures
            r == (self@ == Term::Named(87)),
    {
        matches!(self, PixelFormat::P012Le)
    }

    /// Is this [`Self::P012Be`]?
    pub fn is_p_012_be(&self) -> (r: bool)
        ensures
            r == (self@ == Term::Named(88)),
    {
        matches!(self, PixelFormat::P012Be)
    }

    /// Is this [`Self::P016Le`]?
    pub fn is_p_016_le(&self) -> (r: bool)
        ensures
            r == (self@ == Term::Named(89)),
    {
        matches!(self, PixelFormat::P016Le)
    }

    /// Is this [`Self::P016Be`]?
    pub fn is_p_016_be(&self) -> (r: bool)
        ensures
            r == (self@ == Term::Named(90)),
    {
        matches!(self, PixelFormat::P016Be)
    }

    /// Is this [`Self::P210Le`]?
    pub fn is_p_210_le(&self) -> (r: bool)
        ensures
            r == (self@ == Term::Named(91)),
    {
        matches!(self, PixelFormat::P210Le)
    }

    /// Is this [`Self::P210Be`]?
    pub fn is_p_210_be(&self) -> (r: bool)
        ensures
            r == (self@ == Term::Named(92)),
    {
        matches!(self, PixelFormat::P210Be)
    }

    /// Is this [`Self::P212Le`]?
    pub fn is_p_212_le(&self) -> (r: bool)
        ensures
            r == (self@ == Term::Named(93)),
    {
        matches!(self, PixelFormat::P212Le)
    }

    /// Is this [`Self::P212Be`]?
    pub fn is_p_212_be(&self) -> (r: bool)
        ensures
            r == (self@ == Term::Named(94)),
    {
        matches!(self, PixelFormat::P212Be)
    }

    /// Is this [`Self::P216Le`]?
    pub fn is_p_216_le(&self) -> (r: bool)
        ensures
            r == (self@ == Term::Named(95)),
    {
        matches!(self, PixelFormat::P216Le)
    }

    /// Is this [`Self::P216Be`]?
    pub fn is_p_216_be(&self) -> (r: bool)
        ensures
            r == (self@ == Term::Named(96)),
    {
        matches!(self, PixelFormat::P216Be)
    }

    /// Is this [`Self::P410Le`]?
    pub fn is_p_410_le(&self) -> (r: bool)
        ensures
            r == (self@ == Term::Named(97)),
    {
        matches!(self, PixelFormat::P410Le)
    }

    /// Is this [`Self::P410Be`]?
    pub fn is_p_410_be(&self) -> (r: bool)
        ensures
            r == (self@ == Term::Named(98)),
    {
        matches!(self, PixelFormat::P410Be)
    }

    /// Is this [`Self::P412Le`]?
    pub fn is_p_412_le(&self) -> (r: bool)
        ensures
            r == (self@ == Term::Named(99)),
    {
        matches!(self, PixelFormat::P412Le)
    }

    /// Is this [`Self::P412Be`]?
    pub fn is_p_412_be(&self) -> (r: bool)
        ensures
            r == (self@ == Term::Named(100)),
    {
        matches!(self, PixelFormat::P412Be)
    }

    /// Is this [`Self::P416Le`]?
    pub fn is_p_416_le(&self) -> (r: bool)
        ensures
            r == (self@ == Term::Named(101)),
    {
        matches!(self, PixelFormat::P416Le)
    }

    /// Is this [`Self::P416Be`]?
    pub fn is_p_416_be(&self) -> (r: bool)
        ensures
            r == (self@ == Term::Named(102)),
    {
        matches!(self, PixelFormat::P416Be)
    }

    /// Is this [`Self::Yuyv422`]?
    pub fn is_yuyv_422(&self) -> (r: bool)
        ensures
            r == (self@ == Term::Named(103)),
    {
        matches!(self, PixelFormat::Yuyv422)
    }

    /// Is this [`Self::Uyvy422`]?
    pub fn is_uyvy_422(&self) -> (r: bool)
        ensures
            r == (self@ == Term::Named(104)),
    {
        matches!(self, PixelFormat::Uyvy422)
    }

    /// Is this [`Self::Yvyu422`]?
    pub fn is_yvyu_422(&self) -> (r: bool)
        ensures
            r == (self@ == Term::Named(105)),
    {
        matches!(self, PixelFormat::Yvyu422)
    }

    /// Is this [`Self::Uyyvyy411`]?
    pub fn is_uyyvyy_411(&self) -> (r: bool)
        ensures
            r == (self@ == Term::Named(106)),
    {
        matches!(self, PixelFormat::Uyyvyy411)
    }

    /// Is this [`Self::Y210Le`]?
    pub fn is_y_210_le(&self) -> (r: bool)
        ensures
            r == (self@ == Term::Named(107)),
    {
        matches!(self, PixelFormat::Y210Le)
    }

    /// Is this [`Self::Y210Be`]?
    pub fn is_y_210_be(&self) -> (r: bool)
        ensures
            r == (self@ == Term::Named(108)),
    {
        matches!(self, PixelFormat::Y210Be)
    }

    /// Is this [`Self::Y212Le`]?
    pub fn is_y_212_le(&self) -> (r: bool)
        ensures
            r == (self@ == Term::Named(109)),
    {
        matches!(self, PixelFormat::Y212Le)
    }

    /// Is this [`Self::Y212Be`]?
    pub fn is_y_212_be(&self) -> (r: bool)
        ensures
            r == (self@ == Term::Named(110)),
    {
        matches!(self, PixelFormat::Y212Be)
    }

    /// Is this [`Self::Y216Le`]?
    pub fn is_y_216_le(&self) -> (r: bool)
        ensures
            r == (self@ == Term::Named(111)),
    {
        matches!(self, PixelFormat::Y216Le)
    }

    /// Is this [`Self::Y216Be`]?
    pub fn is_y_216_be(&self) -> (r: bool)
        ensures
            r == (self@ == Term::Named(112)),
    {
        matches!(self, PixelFormat::Y216Be)
    }

    /// Is this [`Self::V210`]?
    pub fn is_v_210(&self) -> (r: bool)
        ensures
            r == (self@ == Term::Named(113)),
    {
        matches!(self, PixelFormat::V210)
    }

    /// Is this [`Self::V410Le`]?
    pub fn is_v_410_le(&self) -> (r: bool)
        ensures
            r == (self@ == Term::Named(114)),
    {
        matches!(self, PixelFormat::V410Le)
    }

    /// Is this [`Self::V410Be`]?
    pub fn is_v_410_be(&self) -> (r: bool)
        ensures
            r == (self@ == Term::Named(115)),
    {
        matches!(self, PixelFormat::V410Be)
    }

    /// Is this [`Self::Xv30Le`]?
    pub fn is_xv_30_le(&self) -> (r: bool)
        ensures
            r == (self@ == Term::Named(116)),
    {
        matches!(self, PixelFormat::Xv30Le)
    }

    /// Is this [`Self::Xv30Be`]?
    pub fn is_xv_30_be(&self) -> (r: bool)
        ensures
            r == (self@ == Term::Named(117)),
    {
        matches!(self, PixelFormat::Xv30Be)
    }

    /// Is this [`Self::V30xLe`]?
    pub fn is_v_30_x_le(&self) -> (r: bool)
        ensures
            r == (self@ == Term::Named(118)),
    {
        matches!(self, PixelFormat::V30xLe)
    }

    /// Is this [`Self::V30xBe`]?
    pub fn is_v_30_x_be(&self) -> (r: bool)
        ensures
            r == (self@ == Term::Named(119)),
    {
        matches!(self, PixelFormat::V30xBe)
    }

    /// Is this [`Self::Xv36Le`]?
    pub fn is_xv_36_le(&self) -> (r: bool)
        ensures
            r == (self@ == Term::Named(120)),
    {
        matches!(self, PixelFormat::Xv36Le)
    }

    /// Is this [`Self::Xv36Be`]?
    pub fn is_xv_36_be(&self) -> (r: bool)
        ensures
            r == (self@ == Term::Named(121)),
    {
        matches!(self, PixelFormat::Xv36Be)
    }

    /// Is this [`Self::Xv48Le`]?
    pub fn is_xv_48_le(&self) -> (r: bool)
        ensures
            r == (self@ == Term::Named(122)),
    {
        matches!(self, PixelFormat::Xv48Le)
    }

    /// Is this [`Self::Xv48Be`]?
    pub fn is_xv_48_be(&self) -> (r: bool)
        ensures
            r == (self@ == Term::Named(123)),
    {
        matches!(self, PixelFormat::Xv48Be)
    }

    /// Is this [`Self::Vuya`]?
    pub fn is_vuya(&self) -> (r: bool)
        ensures
            r == (self@ == Term::Named(124)),
    {
        matches!(self, PixelFormat::Vuya)
    }

    /// Is this [`Self::Vuyx`]?
    pub fn is_vuyx(&self) -> (r: bool)
        ensures
            r == (self@ == Term::Named(125)),
    {
        matches!(self, PixelFormat::Vuyx)
    }

    /// Is this [`Self::Ayuv`]?
    pub fn is_ayuv(&self) -> (r: bool)
        ensures
            r == (self@ == Term::Named(126)),
    {
        matches!(self, PixelFormat::Ayuv)
    }

    /// Is this [`Self::Ayuv64Le`]?
    pub fn is_ayuv_64_le(&self) -> (r: bool)
        ensures
            r == (self@ == Term::Named(127)),
    {
        matches!(self, PixelFormat::Ayuv64Le)
    }

    /// Is this [`Self::Ayuv64Be`]?
    pub fn is_ayuv_64_be(&self) -> (r: bool)
        ensures
            r == (self@ == Term::Named(128)),
    {
        matches!(self, PixelFormat::Ayuv64Be)
    }

    /// Is this [`Self::Uyva`]?
    pub fn is_uyva(&self) -> (r: bool)
        ensures
            r == (self@ == Term::Named(129)),
    {
        matches!(self, PixelFormat::Uyva)
    }

    /// Is this [`Self::Vyu444`]?
    pub fn is_vyu_444(&self) -> (r: bool)
        ensures
            r == (self@ == Term::Named(130)),
    {
        matches!(self, PixelFormat::Vyu444)
    }

    /// Is this [`Self::Xyz12Le`]?
    pub fn is_xyz_12_le(&self) -> (r: bool)
        ensures
            r == (self@ == Term::Named(131)),
    {
        matches!(self, PixelFormat::Xyz12Le)
    }

    /// Is this [`Self::Xyz12Be`]?
    pub fn is_xyz_12_be(&self) -> (r: bool)
        ensures
            r == (self@ == Term::Named(132)),
    {
        matches!(self, PixelFormat::Xyz12Be)
    }

    /// Is this [`Self::Rgb24`]?
    pub fn is_rgb_24(&self) -> (r: bool)
        ensures
            r == (self@ == Term::Named(133)),
    {
        matches!(self, PixelFormat::Rgb24)
    }

    /// Is this [`Self::Bgr24`]?
    pub fn is_bgr_24(&self) -> (r: bool)
        ensures
            r == (self@ == Term::Named(134)),
    {
        matches!(self, PixelFormat::Bgr24)
    }

    /// Is this [`Self::Rgba`]?
    pub fn is_rgba(&self) -> (r: bool)
        ensures
            r == (self@ == Term::Named(135)),
    {
        matches!(self, PixelFormat::Rgba)
    }

    /// Is this [`Self::Bgra`]?
    pub fn is_bgra(&self) -> (r: bool)
        ensures
            r == (self@ == Term::Named(136)),
    {
        matches!(self, PixelFormat::Bgra)
    }

    /// Is this [`Self::Argb`]?
    pub fn is_argb(&self) -> (r: bool)
        ensures
            r == (self@ == Term::Named(137)),
    {
        matches!(self, PixelFormat::Argb)
    }

    /// Is this [`Self::Abgr`]?
    pub fn is_abgr(&self) -> (r: bool)
        ensures
            r == (self@ == Term::Named(138)),
    {
        matches!(self, PixelFormat::Abgr)
    }

    /// Is this [`Self::Rgbx`]?
    pub fn is_rgbx(&self) -> (r: bool)
        ensures
            r == (self@ == Term::Named(139)),
    {
        matches!(self, PixelFormat::Rgbx)
    }

    /// Is this [`Self::Bgrx`]?
    pub fn is_bgrx(&self) -> (r: bool)
        ensures
            r == (self@ == Term::Named(140)),
    {
        matches!(self, PixelFormat::Bgrx)
    }

    /// Is this [`Self::Xrgb`]?
    pub fn is_xrgb(&self) -> (r: bool)
        ensures
            r == (self@ == Term::Named(141)),
    {
        matches!(self, PixelFormat::Xrgb)
    }

    /// Is this [`Self::Xbgr`]?
    pub fn is_xbgr(&self) -> (r: bool)
        ensures
            r == (self@ == Term::Named(142)),
    {
        matches!(self, PixelFormat::Xbgr)
    }

    /// Is this [`Self::X2Rgb10Le`]?
    pub fn is_x_2_rgb_10_le(&self) -> (r: bool)
        ensures
            r == (self@ == Term::Named(143)),
    {
        matches!(self, PixelFormat::X2Rgb10Le)
    }

    /// Is this [`Self::X2Rgb10Be`]?
    pub fn is_x_2_rgb_10_be(&self) -> (r: bool)
        ensures
            r == (self@ == Term::Named(144)),
    {
        matches!(self, PixelFormat::X2Rgb10Be)
    }

    /// Is this [`Self::X2Bgr10Le`]?
    pub fn is_x_2_bgr_10_le(&self) -> (r: bool)
        ensures
            r == (self@ == Term::Named(145)),
    {
        matches!(self, PixelFormat::X2Bgr10Le)
    }

    /// Is this [`Self::X2Bgr10Be`]?
    pub fn is_x_2_bgr_10_be(&self) -> (r: bool)
        ensures
            r == (self@ == Term::Named(146)),
    {
        matches!(self, PixelFormat::X2Bgr10Be)
    }

    /// Is this [`Self::Gbr24p`]?
    pub fn is_gbr_24_p(&self) -> (r: bool)
        ensures
            r == (self@ == Term::Named(147)),
    {
        matches!(self, PixelFormat::Gbr24p)
    }

    /// Is this [`Self::Rgb4`]?
    pub fn is_rgb_4(&self) -> (r: bool)
        ensures
            r == (self@ == Term::Named(148)),
    {
        matches!(self, PixelFormat::Rgb4)
    }

    /// Is this [`Self::Rgb4Byte`]?
    pub fn is_rgb_4_byte(&self) -> (r: bool)
        ensures
            r == (self@ == Term::Named(149)),
    {
        matches!(self, PixelFormat::Rgb4Byte)
    }

    /// Is this [`Self::Rgb8`]?
    pub fn is_rgb_8(&self) -> (r: bool)
        ensures
            r == (self@ == Term::Named(150)),
    {
        matches!(self, PixelFormat::Rgb8)
    }

    /// Is this [`Self::Bgr4`]?
    pub fn is_bgr_4(&self) -> (r: bool)
        ensures
            r == (self@ == Term::Named(151)),
    {
        matches!(self, PixelFormat::Bgr4)
    }

    /// Is this [`Self::Bgr4Byte`]?
    pub fn is_bgr_4_byte(&self) -> (r: bool)
        ensures
            r == (self@ == Term::Named(152)),
    {
        matches!(self, PixelFormat::Bgr4Byte)
    }

    /// Is this [`Self::Bgr8`]?
    pub fn is_bgr_8(&self) -> (r: bool)
        ensures
            r == (self@ == Term::Named(153)),
    {
        matches!(self, PixelFormat::Bgr8)
    }

    /// Is this [`Self::Rgb444Le`]?
    pub fn is_rgb_444_le(&self) -> (r: bool)
        ensures
            r == (self@ == Term::Named(154)),
    {
        matches!(self, PixelFormat::Rgb444Le)
    }

    /// Is this [`Self::Rgb444Be`]?
    pub fn is_rgb_444_be(&self) -> (r: bool)
        ensures
            r == (self@ == Term::Named(155)),
    {
        matches!(self, PixelFormat::Rgb444Be)
    }

    /// Is this [`Self::Bgr444Le`]?
    pub fn is_bgr_444_le(&self) -> (r: bool)
        ensures
            r == (self@ == Term::Named(156)),
    {
        matches!(self, PixelFormat::Bgr444Le)
    }

    /// Is this [`Self::Bgr444Be`]?
    pub fn is_bgr_444_be(&self) -> (r: bool)
        ensures
            r == (self@ == Term::Named(157)),
    {
        matches!(self, PixelFormat::Bgr444Be)
    }

    /// Is this [`Self::Rgb555Le`]?
    pub fn is_rgb_555_le(&self) -> (r: bool)
        ensures
            r == (self@ == Term::Named(158)),
    {
        matches!(self, PixelFormat::Rgb555Le)
    }

    /// Is this [`Self::Rgb555Be`]?
    pub fn is_rgb_555_be(&self) -> (r: bool)
        ensures
            r == (self@ == Term::Named(159)),
    {
        matches!(self, PixelFormat::Rgb555Be)
    }

    /// Is this [`Self::Bgr555Le`]?
    pub fn is_bgr_555_le(&self) -> (r: bool)
        ensures
            r == (self@ == Term::Named(160)),
    {
        matches!(self, PixelFormat::Bgr555Le)
    }

    /// Is this [`Self::Bgr555Be`]?
    pub fn is_bgr_555_be(&self) -> (r: bool)
        ensures
            r == (self@ == Term::Named(161)),
    {
        matches!(self, PixelFormat::Bgr555Be)
    }

    /// Is this [`Self::Rgb565Le`]?
    pub fn is_rgb_565_le(&self) -> (r: bool)
        ensures
            r == (self@ == Term::Named(162)),
    {
        matches!(self, PixelFormat::Rgb565Le)
    }

    /// Is this [`Self::Rgb565Be`]?
    pub fn is_rgb_565_be(&self) -> (r: bool)
        ensures
            r == (self@ == Term::Named(163)),
    {
        matches!(self, PixelFormat::Rgb565Be)
    }

    /// Is this [`Self::Bgr565Le`]?
    pub fn is_bgr_565_le(&self) -> (r: bool)
        ensures
            r == (self@ == Term::Named(164)),
    {
        matches!(self, PixelFormat::Bgr565Le)
    }

    /// Is this [`Self::Bgr565Be`]?
    pub fn is_bgr_565_be(&self) -> (r: bool)
        ensures
            r == (self@ == Term::Named(165)),
    {
        matches!(self, PixelFormat::Bgr565Be)
    }

    /// Is this [`Self::Rgb48Le`]?
    pub fn is_rgb_48_le(&self) -> (r: bool)
        ensures
            r == (self@ == Term::Named(166)),
    {
        matches!(self, PixelFormat::Rgb48Le)
    }

    /// Is this [`Self::Rgb48Be`]?
    pub fn is_rgb_48_be(&self) -> (r: bool)
        ensures
            r == (self@ == Term::Named(167)),
    {
        matches!(self, PixelFormat::Rgb48Be)
    }

    /// Is this [`Self::Bgr48Le`]?
    pub fn is_bgr_48_le(&self) -> (r: bool)
        ensures
            r == (self@ == Term::Named(168)),
    {
        matches!(self, PixelFormat::Bgr48Le)
    }

    /// Is this [`Self::Bgr48Be`]?
    pub fn is_bgr_48_be(&self) -> (r: bool)
        ensures
            r == (self@ == Term::Named(169)),
    {
        matches!(self, PixelFormat::Bgr48Be)
    }

    /// Is this [`Self::Rgba64Le`]?
    pub fn is_rgba_64_le(&self) -> (r: bool)
        ensures
            r == (self@ == Term::Named(170)),
    {
        matches!(self, PixelFormat::Rgba64Le)
    }

    /// Is this [`Self::Rgba64Be`]?
    pub fn is_rgba_64_be(&self) -> (r: bool)
        ensures
            r == (self@ == Term::Named(171)),
    {
        matches!(self, PixelFormat::Rgba64Be)
    }

    /// Is this [`Self::Bgra64Le`]?
    pub fn is_bgra_64_le(&self) -> (r: bool)
        ensures
            r == (self@ == Term::Named(172)),
    {
        matches!(self, PixelFormat::Bgra64Le)
    }

    /// Is this [`Self::Bgra64Be`]?
    pub fn is_bgra_64_be(&self) -> (r: bool)
        ensures
            r == (self@ == Term::Named(173)),
    {
        matches!(self, PixelFormat::Bgra64Be)
    }

    /// Is this [`Self::Rgb96Le`]?
    pub fn is_rgb_96_le(&self) -> (r: bool)
        ensures
            r == (self@ == Term::Named(174)),
    {
        matches!(self, PixelFormat::Rgb96Le)
    }

    /// Is this [`Self::Rgb96Be`]?
    pub fn is_rgb_96_be(&self) -> (r: bool)
        ensures
            r == (self@ == Term::Named(175)),
    {
        matches!(self, PixelFormat::Rgb96Be)
    }

    /// Is this [`Self::Rgba128Le`]?
    pub fn is_rgba_128_le(&self) -> (r: bool)
        ensures
            r == (self@ == Term::Named(176)),
    {
        matches!(self, PixelFormat::Rgba128Le)
    }

    /// Is this [`Self::Rgba128Be`]?
    pub fn is_rgba_128_be(&self) -> (r: bool)
        ensures
            r == (self@ == Term::Named(177)),
    {
        matches!(self, PixelFormat::Rgba128Be)
    }

    /// Is this [`Self::Rgbf16Le`]?
    pub fn is_rgbf_16_le(&self) -> (r: bool)
        ensures
            r == (self@ == Term::Named(178)),
    {
        matches!(self, PixelFormat::Rgbf16Le)
    }

    /// Is this [`Self::Rgbf16Be`]?
    pub fn is_rgbf_16_be(&self) -> (r: bool)
        ensures
            r == (self@ == Term::Named(179)),
    {
        matches!(self, PixelFormat::Rgbf16Be)
    }

    /// Is this [`Self::Rgbf32Le`]?
    pub fn is_rgbf_32_le(&self) -> (r: bool)
        ensures
            r == (self@ == Term::Named(180)),
    {
        matches!(self, PixelFormat::Rgbf32Le)
    }

    /// Is this [`Self::Rgbf32Be`]?
    pub fn is_rgbf_32_be(&self) -> (r: bool)
        ensures
            r == (self@ == Term::Named(181)),
    {
        matches!(self, PixelFormat::Rgbf32Be)
    }

    /// Is this [`Self::Rgbaf16Le`]?
    pub fn is_rgbaf_16_le(&self) -> (r: bool)
        ensures
            r == (self@ == Term::Named(182)),
    {
        matches!(self, PixelFormat::Rgbaf16Le)
    }

    /// Is this [`Self::Rgbaf16Be`]?
    pub fn is_rgbaf_16_be(&self) -> (r: bool)
        ensures
            r == (self@ == Term::Named(183)),
    {
        matches!(self, PixelFormat::Rgbaf16Be)
    }

    /// Is this [`Self::Rgbaf32Le`]?
    pub fn is_rgbaf_32_le(&self) -> (r: bool)
        ensures
            r == (self@ == Term::Named(184)),
    {
        matches!(self, PixelFormat::Rgbaf32Le)
    }

    /// Is this [`Self::Rgbaf32Be`]?
    pub fn is_rgbaf_32_be(&self) -> (r: bool)
        ensures
            r == (self@ == Term::Named(185)),
    {
        matches!(self, PixelFormat::Rgbaf32Be)
    }

    /// Is this [`Self::Gbrp`]?
    pub fn is_gbrp(&self) -> (r: bool)
        ensures
            r == (self@ == Term::Named(186)),
    {
        matches!(self, PixelFormat::Gbrp)
    }

    /// Is this [`Self::Gbrp9Le`]?
    pub fn is_gbrp_9_le(&self) -> (r: bool)
        ensures
            r == (self@ == Term::Named(187)),
    {
        matches!(self, PixelFormat::Gbrp9Le)
    }

    /// Is this [`Self::Gbrp9Be`]?
    pub fn is_gbrp_9_be(&self) -> (r: bool)
        ensures
            r == (self@ == Term::Named(188)),
    {
        matches!(self, PixelFormat::Gbrp9Be)
    }

    /// Is this [`Self::Gbrp10Le`]?
    pub fn is_gbrp_10_le(&self) -> (r: bool)
        ensures
            r == (self@ == Term::Named(189)),
    {
        matches!(self, PixelFormat::Gbrp10Le)
    }

    /// Is this [`Self::Gbrp10Be`]?
    pub fn is_gbrp_10_be(&self) -> (r: bool)
        ensures
            r == (self@ == Term::Named(190)),
    {
        matches!(self, PixelFormat::Gbrp10Be)
    }

    /// Is this [`Self::Gbrp10MsbLe`]?
    pub fn is_gbrp_10_msb_le(&self) -> (r: bool)
        ensures
            r == (self@ == Term::Named(191)),
    {
        matches!(self, PixelFormat::Gbrp10MsbLe)
    }

    /// Is this [`Self::Gbrp10MsbBe`]?
    pub fn is_gbrp_10_msb_be(&self) -> (r: bool)
        ensures
            r == (self@ == Term::Named(192)),
    {
        matches!(self, PixelFormat::Gbrp10MsbBe)
    }

    /// Is this [`Self::Gbrp12Le`]?
    pub fn is_gbrp_12_le(&self) -> (r: bool)
        ensures
            r == (self@ == Term::Named(193)),
    {
        matches!(self, PixelFormat::Gbrp12Le)
    }

    /// Is this [`Self::Gbrp12Be`]?
    pub fn is_gbrp_12_be(&self) -> (r: bool)
        ensures
            r == (self@ == Term::Named(194)),
    {
        matches!(self, PixelFormat::Gbrp12Be)
    }

    /// Is this [`Self::Gbrp12MsbLe`]?
    pub fn is_gbrp_12_msb_le(&self) -> (r: bool)
        ensures
            r == (self@ == Term::Named(195)),
    {
        matches!(self, PixelFormat::Gbrp12MsbLe)
    }

    /// Is this [`Self::Gbrp12MsbBe`]?
    pub fn is_gbrp_12_msb_be(&self) -> (r: bool)
        ensures
            r == (self@ == Term::Named(196)),
    {
        matches!(self, PixelFormat::Gbrp12MsbBe)
    }

    /// Is this [`Self::Gbrp14Le`]?
    pub fn is_gbrp_14_le(&self) -> (r: bool)
        ensures
            r == (self@ == Term::Named(197)),
    {
        matches!(self, PixelFormat::Gbrp14Le)
    }

    /// Is this [`Self::Gbrp14Be`]?
    pub fn is_gbrp_14_be(&self) -> (r: bool)
        ensures
            r == (self@ == Term::Named(198)),
    {
        matches!(self, PixelFormat::Gbrp14Be)
    }

    /// Is this [`Self::Gbrp16Le`]?
    pub fn is_gbrp_16_le(&self) -> (r: bool)
        ensures
            r == (self@ == Term::Named(199)),
    {
        matches!(self, PixelFormat::Gbrp16Le)
    }

    /// Is this [`Self::Gbrp16Be`]?
    pub fn is_gbrp_16_be(&self) -> (r: bool)
        ensures
            r == (self@ == Term::Named(200)),
    {
        matches!(self, PixelFormat::Gbrp16Be)
    }

    /// Is this [`Self::Gbrpf16Le`]?
    pub fn is_gbrpf_16_le(&self) -> (r: bool)
        ensures
            r == (self@ == Term::Named(201)),
    {
        matches!(self, PixelFormat::Gbrpf16Le)
    }

    /// Is this [`Self::Gbrpf16Be`]?
    pub fn is_gbrpf_16_be(&self) -> (r: bool)
        ensures
            r == (self@ == Term::Named(202)),
    {
        matches!(self, PixelFormat::Gbrpf16Be)
    }

    /// Is this [`Self::Gbrpf32Le`]?
    pub fn is_gbrpf_32_le(&self) -> (r: bool)
        ensures
            r == (self@ == Term::Named(203)),
    {
        matches!(self, PixelFormat::Gbrpf32Le)
    }

    /// Is this [`Self::Gbrpf32Be`]?
    pub fn is_gbrpf_32_be(&self) -> (r: bool)
        ensures
            r == (self@ == Term::Named(204)),
    {
        matches!(self, PixelFormat::Gbrpf32Be)
    }

    /// Is this [`Self::Gbrap`]?
    pub fn is_gbrap(&self) -> (r: bool)
        ensures
            r == (self@ == Term::Named(205)),
    {
        matches!(self, PixelFormat::Gbrap)
    }

    /// Is this [`Self::Gbrap10Le`]?
    pub fn is_gbrap_10_le(&self) -> (r: bool)
        ensures
            r == (self@ == Term::Named(206)),
    {
        matches!(self, PixelFormat::Gbrap10Le)
    }

    /// Is this [`Self::Gbrap10Be`]?
    pub fn is_gbrap_10_be(&self) -> (r: bool)
        ensures
            r == (self@ == Term::Named(207)),
    {
        matches!(self, PixelFormat::Gbrap10Be)
    }

    /// Is this [`Self::Gbrap12Le`]?
    pub fn is_gbrap_12_le(&self) -> (r: bool)
        ensures
            r == (self@ == Term::Named(208)),
    {
        matches!(self, PixelFormat::Gbrap12Le)
    }

    /// Is this [`Self::Gbrap12Be`]?
    pub fn is_gbrap_12_be(&self) -> (r: bool)
        ensures
            r == (self@ == Term::Named(209)),
    {
        matches!(self, PixelFormat::Gbrap12Be)
    }

    /// Is this [`Self::Gbrap14Le`]?
    pub fn is_gbrap_14_le(&self) -> (r: bool)
        ensures
            r == (self@ == Term::Named(210)),
    {
        matches!(self, PixelFormat::Gbrap14Le)
    }

    /// Is this [`Self::Gbrap14Be`]?
    pub fn is_gbrap_14_be(&self) -> (r: bool)
        ensures
            r == (self@ == Term::Named(211)),
    {
        matches!(self, PixelFormat::Gbrap14Be)
    }

    /// Is this [`Self::Gbrap16Le`]?
    pub fn is_gbrap_16_le(&self) -> (r: bool)
        ensures
            r == (self@ == Term::Named(212)),
    {
        matches!(self, PixelFormat::Gbrap16Le)
    }

    /// Is this [`Self::Gbrap16Be`]?
    pub fn is_gbrap_16_be(&self) -> (r: bool)
        ensures
            r == (self@ == Term::Named(213)),
    {
        matches!(self, PixelFormat::Gbrap16Be)
    }

    /// Is this [`Self::Gbrap32Le`]?
    pub fn is_gbrap_32_le(&self) -> (r: bool)
        ensures
            r == (self@ == Term::Named(214)),
    {
        matches!(self, PixelFormat::Gbrap32Le)
    }

    /// Is this [`Self::Gbrap32Be`]?
    pub fn is_gbrap_32_be(&self) -> (r: bool)
        ensures
            r == (self@ == Term::Named(215)),
    {
        matches!(self, PixelFormat::Gbrap32Be)
    }

    /// Is this [`Self::Gbrapf16Le`]?
    pub fn is_gbrapf_16_le(&self) -> (r: bool)
        ensures
            r == (self@ == Term::Named(216)),
    {
        matches!(self, PixelFormat::Gbrapf16Le)
    }

    /// Is this [`Self::Gbrapf16Be`]?
    pub fn is_gbrapf_16_be(&self) -> (r: bool)
        ensures
            r == (self@ == Term::Named(217)),
    {
        matches!(self, PixelFormat::Gbrapf16Be)
    }

    /// Is this [`Self::Gbrapf32Le`]?
    pub fn is_gbrapf_32_le(&self) -> (r: bool)
        ensures
            r == (self@ == Term::Named(218)),
    {
        matches!(self, PixelFormat::Gbrapf32Le)
    }

    /// Is this [`Self::Gbrapf32Be`]?
    pub fn is_gbrapf_32_be(&self) -> (r: bool)
        ensures
            r == (self@ == Term::Named(219)),
    {
        matches!(self, PixelFormat::Gbrapf32Be)
    }

    /// Is this [`Self::Gray8`]?
    pub fn is_gray_8(&self) -> (r: bool)
        ensures
            r == (self@ == Term::Named(220)),
    {
        matches!(self, PixelFormat::Gray8)
    }

    /// Is this [`Self::Gray8a`]?
    pub fn is_gray_8_a(&self) -> (r: bool)
        ensures
            r == (self@ == Term::Named(221)),
    {
        matches!(self, PixelFormat::Gray8a)
    }

    /// Is this [`Self::Gray9Le`]?
    pub fn is_gray_9_le(&self) -> (r: bool)
        ensures
            r == (self@ == Term::Named(222)),
    {
        matches!(self, PixelFormat::Gray9Le)
    }

    /// Is this [`Self::Gray9Be`]?
    pub fn is_gray_9_be(&self) -> (r: bool)
        ensures
            r == (self@ == Term::Named(223)),
    {
        matches!(self, PixelFormat::Gray9Be)
    }

    /// Is this [`Self::Gray10Le`]?
    pub fn is_gray_10_le(&self) -> (r: bool)
        ensures
            r == (self@ == Term::Named(224)),
    {
        matches!(self, PixelFormat::Gray10Le)
    }

    /// Is this [`Self::Gray10Be`]?
    pub fn is_gray_10_be(&self) -> (r: bool)
        ensures
            r == (self@ == Term::Named(225)),
    {
        matches!(self, PixelFormat::Gray10Be)
    }

    /// Is this [`Self::Gray12Le`]?
    pub fn is_gray_12_le(&self) -> (r: bool)
        ensures
            r == (self@ == Term::Named(226)),
    {
        matches!(self, PixelFormat::Gray12Le)
    }

    /// Is this [`Self::Gray12Be`]?
    pub fn is_gray_12_be(&self) -> (r: bool)
        ensures
            r == (self@ == Term::Named(227)),
    {
        matches!(self, PixelFormat::Gray12Be)
    }

    /// Is this [`Self::Gray14Le`]?
    pub fn is_gray_14_le(&self) -> (r: bool)
        ensures
            r == (self@ == Term::Named(228)),
    {
        matches!(self, PixelFormat::Gray14Le)
    }

    /// Is this [`Self::Gray14Be`]?
    pub fn is_gray_14_be(&self) -> (r: bool)
        ensures
            r == (self@ == Term::Named(229)),
    {
        matches!(self, PixelFormat::Gray14Be)
    }

    /// Is this [`Self::Gray16Le`]?
    pub fn is_gray_16_le(&self) -> (r: bool)
        ensures
            r == (self@ == Term::Named(230)),
    {
        matches!(self, PixelFormat::Gray16Le)
    }

    /// Is this [`Self::Gray16Be`]?
    pub fn is_gray_16_be(&self) -> (r: bool)
        ensures
            r == (self@ == Term::Named(231)),
    {
        matches!(self, PixelFormat::Gray16Be)
    }

    /// Is this [`Self::Gray32Le`]?
    pub fn is_gray_32_le(&self) -> (r: bool)
        ensures
            r == (self@ == Term::Named(232)),
    {
        matches!(self, PixelFormat::Gray32Le)
    }

    /// Is this [`Self::Gray32Be`]?
    pub fn is_gray_32_be(&self) -> (r: bool)
        ensures
            r == (self@ == Term::Named(233)),
    {
        matches!(self, PixelFormat::Gray32Be)
    }

    /// Is this [`Self::Grayf32Le`]?
    pub fn is_grayf_32_le(&self) -> (r: bool)
        ensures
            r == (self@ == Term::Named(234)),
    {
        matches!(self, PixelFormat::Grayf32Le)
    }

    /// Is this [`Self::Grayf32Be`]?
    pub fn is_grayf_32_be(&self) -> (r: bool)
        ensures
            r == (self@ == Term::Named(235)),
    {
        matches!(self, PixelFormat::Grayf32Be)
    }

    /// Is this [`Self::Grayf16Le`]?
    pub fn is_grayf_16_le(&self) -> (r: bool)
        ensures
            r == (self@ == Term::Named(236)),
    {
        matches!(self, PixelFormat::Grayf16Le)
    }

    /// Is this [`Self::Grayf16Be`]?
    pub fn is_grayf_16_be(&self) -> (r: bool)
        ensures
            r == (self@ == Term::Named(237)),
    {
        matches!(self, PixelFormat::Grayf16Be)
    }

    /// Is this [`Self::Ya8`]?
    pub fn is_ya_8(&self) -> (r: bool)
        ensures
            r == (self@ == Term::Named(238)),
    {
        matches!(self, PixelFormat::Ya8)
    }

    /// Is this [`Self::Y400a`]?
    pub fn is_y_400_a(&self) -> (r: bool)
        ensures
            r == (self@ == Term::Named(239)),
    {
        matches!(self, PixelFormat::Y400a)
    }

    /// Is this [`Self::Ya16Le`]?
    pub fn is_ya_16_le(&self) -> (r: bool)
        ensures
            r == (self@ == Term::Named(240)),
    {
        matches!(self, PixelFormat::Ya16Le)
    }

    /// Is this [`Self::Ya16Be`]?
    pub fn is_ya_16_be(&self) -> (r: bool)
        ensures
            r == (self@ == Term::Named(241)),
    {
        matches!(self, PixelFormat::Ya16Be)
    }

    /// Is this [`Self::Yaf16Le`]?
    pub fn is_yaf_16_le(&self) -> (r: bool)
        ensures
            r == (self@ == Term::Named(242)),
    {
        matches!(self, PixelFormat::Yaf16Le)
    }

    /// Is this [`Self::Yaf16Be`]?
    pub fn is_yaf_16_be(&self) -> (r: bool)
        ensures
            r == (self@ == Term::Named(243)),
    {
        matches!(self, PixelFormat::Yaf16Be)
    }

    /// Is this [`Self::Yaf32Le`]?
    pub fn is_yaf_32_le(&self) -> (r: bool)
        ensures
            r == (self@ == Term::Named(244)),
    {
        matches!(self, PixelFormat::Yaf32Le)
    }

    /// Is this [`Self::Yaf32Be`]?
    pub fn is_yaf_32_be(&self) -> (r: bool)
        ensures
            r == (self@ == Term::Named(245)),
    {
        matches!(self, PixelFormat::Yaf32Be)
    }

    /// Is this [`Self::Monowhite`]?
    pub fn is_monowhite(&self) -> (r: bool)
        ensures
            r == (self@ == Term::Named(246)),
    {
        matches!(self, PixelFormat::Monowhite)
    }

    /// Is this [`Self::Monoblack`]?
    pub fn is_monoblack(&self) -> (r: bool)
        ensures
            r == (self@ == Term::Named(247)),
    {
        matches!(self, PixelFormat::Monoblack)
    }

    /// Is this [`Self::Pal8`]?
    pub fn is_pal_8(&self) -> (r: bool)
        ensures
            r == (self@ == Term::Named(248)),
    {
        matches!(self, PixelFormat::Pal8)
    }

    /// Is this [`Self::BayerBggr8`]?
    pub fn is_bayer_bggr_8(&self) -> (r: bool)
        ensures
            r == (self@ == Term::Named(249)),
    {
        matches!(self, PixelFormat::BayerBggr8)
    }

    /// Is this [`Self::BayerRggb8`]?
    pub fn is_bayer_rggb_8(&self) -> (r: bool)
        ensures
            r == (self@ == Term::Named(250)),
    {
        matches!(self, PixelFormat::BayerRggb8)
    }

    /// Is this [`Self::BayerGbrg8`]?
    pub fn is_bayer_gbrg_8(&self) -> (r: bool)
        ensures
            r == (self@ == Term::Named(251)),
    {
        matches!(self, PixelFormat::BayerGbrg8)
    }

    /// Is this [`Self::BayerGrbg8`]?
    pub fn is_bayer_grbg_8(&self) -> (r: bool)
        ensures
            r == (self@ == Term::Named(252)),
    {
        matches!(self, PixelFormat::BayerGrbg8)
    }

    /// Is this [`Self::BayerBggr10Le`]?
    pub fn is_bayer_bggr_10_le(&self) -> (r: bool)
        ensures
            r == (self@ == Term::Named(253)),
    {
        matches!(self, PixelFormat::BayerBggr10Le)
    }

    /// Is this [`Self::BayerBggr10Be`]?
    pub fn is_bayer_bggr_10_be(&self) -> (r: bool)
        ensures
            r == (self@ == Term::Named(254)),
    {
        matches!(self, PixelFormat::BayerBggr10Be)
    }

    /// Is this [`Self::BayerRggb10Le`]?
    pub fn is_bayer_rggb_10_le(&self) -> (r: bool)
        ensures
            r == (self@ == Term::Named(255)),
    {
        matches!(self, PixelFormat::BayerRggb10Le)
    }

    /// Is this [`Self::BayerRggb10Be`]?
    pub fn is_bayer_rggb_10_be(&self) -> (r: bool)
        ensures
            r == (self@ == Term::Named(256)),
    {
        matches!(self, PixelFormat::BayerRggb10Be)
    }

    /// Is this [`Self::BayerGbrg10Le`]?
    pub fn is_bayer_gbrg_10_le(&self) -> (r: bool)
        ensures
            r == (self@ == Term::Named(257)),
    {
        matches!(self, PixelFormat::BayerGbrg10Le)
    }

    /// Is this [`Self::BayerGbrg10Be`]?
    pub fn is_bayer_gbrg_10_be(&self) -> (r: bool)
        ensures
            r == (self@ == Term::Named(258)),
    {
        matches!(self, PixelFormat::BayerGbrg10Be)
    }

    /// Is this [`Self::BayerGrbg10Le`]?
    pub fn is_bayer_grbg_10_le(&self) -> (r: bool)
        ensures
            r == (self@ == Term::Named(259)),
    {
        matches!(self, PixelFormat::BayerGrbg10Le)
    }

    /// Is this [`Self::BayerGrbg10Be`]?
    pub fn is_bayer_grbg_10_be(&self) -> (r: bool)
        ensures
            r == (self@ == Term::Named(260)),
    {
        matches!(self, PixelFormat::BayerGrbg10Be)
    }

    /// Is this [`Self::BayerBggr12Le`]?
    pub fn is_bayer_bggr_12_le(&self) -> (r: bool)
        ensures
            r == (self@ == Term::Named(261)),
    {
        matches!(self, PixelFormat::BayerBggr12Le)
    }

    /// Is this [`Self::BayerBggr12Be`]?
    pub fn is_bayer_bggr_12_be(&self) -> (r: bool)
        ensures
            r == (self@ == Term::Named(262)),
    {
        matches!(self, PixelFormat::BayerBggr12Be)
    }

    /// Is this [`Self::BayerRggb12Le`]?
    pub fn is_bayer_rggb_12_le(&self) -> (r: bool)
        ensures
            r == (self@ == Term::Named(263)),
    {
        matches!(self, PixelFormat::BayerRggb12Le)
    }

    /// Is this [`Self::BayerRggb12Be`]?
    pub fn is_bayer_rggb_12_be(&self) -> (r: bool)
        ensures
            r == (self@ == Term::Named(264)),
    {
        matches!(self, PixelFormat::BayerRggb12Be)
    }

    /// Is this [`Self::BayerGbrg12Le`]?
    pub fn is_bayer_gbrg_12_le(&self) -> (r: bool)
        ensures
            r == (self@ == Term::Named(265)),
    {
        matches!(self, PixelFormat::BayerGbrg12Le)
    }

    /// Is this [`Self::BayerGbrg12Be`]?
    pub fn is_bayer_gbrg_12_be(&self) -> (r: bool)
        ensures
            r == (self@ == Term::Named(266)),
    {
        matches!(self, PixelFormat::BayerGbrg12Be)
    }

    /// Is this [`Self::BayerGrbg12Le`]?
    pub fn is_bayer_grbg_12_le(&self) -> (r: bool)
        ensures
            r == (self@ == Term::Named(267)),
    {
        matches!(self, PixelFormat::BayerGrbg12Le)
    }

    /// Is this [`Self::BayerGrbg12Be`]?
    pub fn is_bayer_grbg_12_be(&self) -> (r: bool)
        ensures
            r == (self@ == Term::Named(268)),
    {
        matches!(self, PixelFormat::BayerGrbg12Be)
    }

    /// Is this [`Self::BayerBggr14Le`]?
    pub fn is_bayer_bggr_14_le(&self) -> (r: bool)
        ensures
            r == (self@ == Term::Named(269)),
    {
        matches!(self, PixelFormat::BayerBggr14Le)
    }

    /// Is this [`Self::BayerBggr14Be`]?
    pub fn is_bayer_bggr_14_be(&self) -> (r: bool)
        ensures
            r == (self@ == Term::Named(270)),
    {
        matches!(self, PixelFormat::BayerBggr14Be)
    }

    /// Is this [`Self::BayerRggb14Le`]?
    pub fn is_bayer_rggb_14_le(&self) -> (r: bool)
        ensures
            r == (self@ == Term::Named(271)),
    {
        matches!(self, PixelFormat::BayerRggb14Le)
    }

    /// Is this [`Self::BayerRggb14Be`]?
    pub fn is_bayer_rggb_14_be(&self) -> (r: bool)
        ensures
            r == (self@ == Term::Named(272)),
    {
        matches!(self, PixelFormat::BayerRggb14Be)
    }

    /// Is this [`Self::BayerGbrg14Le`]?
    pub fn is_bayer_gbrg_14_le(&self) -> (r: bool)
        ensures
            r == (self@ == Term::Named(273)),
    {
        matches!(self, PixelFormat::BayerGbrg14Le)
    }

    /// Is this [`Self::BayerGbrg14Be`]?
    pub fn is_bayer_gbrg_14_be(&self) -> (r: bool)
        ensures
            r == (self@ == Term::Named(274)),
    {
        matches!(self, PixelFormat::BayerGbrg14Be)
    }

    /// Is this [`Self::BayerGrbg14Le`]?
    pub fn is_bayer_grbg_14_le(&self) -> (r: bool)
        ensures
            r == (self@ == Term::Named(275)),
    {
        matches!(self, PixelFormat::BayerGrbg14Le)
    }

    /// Is this [`Self::BayerGrbg14Be`]?
    pub fn is_bayer_grbg_14_be(&self) -> (r: bool)
        ensures
            r == (self@ == Term::Named(276)),
    {
        matches!(self, PixelFormat::BayerGrbg14Be)
    }

    /// Is this [`Self::BayerBggr16Le`]?
    pub fn is_bayer_bggr_16_le(&self) -> (r: bool)
        ensures
            r == (self@ == Term::Named(277)),
    {
        matches!(self, PixelFormat::BayerBggr16Le)
    }

    /// Is this [`Self::BayerBggr16Be`]?
    pub fn is_bayer_bggr_16_be(&self) -> (r: bool)
        ensures
            r == (self@ == Term::Named(278)),
    {
        matches!(self, PixelFormat::BayerBggr16Be)
    }

    /// Is this [`Self::BayerRggb16Le`]?
    pub fn is_bayer_rggb_16_le(&self) -> (r: bool)
        ensures
            r == (self@ == Term::Named(279)),
    {
        matches!(self, PixelFormat::BayerRggb16Le)
    }

    /// Is this [`Self::BayerRggb16Be`]?
    pub fn is_bayer_rggb_16_be(&self) -> (r: bool)
        ensures
            r == (self@ == Term::Named(280)),
    {
        matches!(self, PixelFormat::BayerRggb16Be)
    }

    /// Is this [`Self::BayerGbrg16Le`]?
    pub fn is_bayer_gbrg_16_le(&self) -> (r: bool)
        ensures
            r == (self@ == Term::Named(281)),
    {
        matches!(self, PixelFormat::BayerGbrg16Le)
    }

    /// Is this [`Self::BayerGbrg16Be`]?
    pub fn is_bayer_gbrg_16_be(&self) -> (r: bool)
        ensures
            r == (self@ == Term::Named(282)),
    {
        matches!(self, PixelFormat::BayerGbrg16Be)
    }

    /// Is this [`Self::BayerGrbg16Le`]?
    pub fn is_bayer_grbg_16_le(&self) -> (r: bool)
        ensures
            r == (self@ == Term::Named(283)),
    {
        matches!(self, PixelFormat::BayerGrbg16Le)
    }

    /// Is this [`Self::BayerGrbg16Be`]?
    pub fn is_bayer_grbg_16_be(&self) -> (r: bool)
        ensures
            r == (self@ == Term::Named(284)),
    {
        matches!(self, PixelFormat::BayerGrbg16Be)
    }

    /// Is this a name the roster does not carry?
    pub fn is_other(&self) -> (r: bool)
        ensures
            r == (self@ is Other),
    {
        matches!(self, PixelFormat::Other(_))
    }
}

impl Default for PixelFormat {
    /// [`Self::NoFormat`], FFmpeg's `AV_PIX_FMT_NONE`.
    fn default() -> (r: Self)
        ensures
            r@ == Term::Named(0),
    {
        PixelFormat::NoFormat
    }
}

impl PartialEq for PixelFormat {
    fn eq(&self, other: &Self) -> (r: bool) {
        match (self, other) {
            (PixelFormat::Other(a), PixelFormat::Other(b)) => str_equal(a.as_str(), b.as_str()),
            (PixelFormat::Other(_), _) => false,
            (_, PixelFormat::Other(_)) => false,
            _ => self.index() == other.index(),
        }
    }
}

impl PartialEqSpecImpl for PixelFormat {
    open spec fn obeys_eq_spec() -> bool {
        true
    }

    open spec fn eq_spec(&self, other: &Self) -> bool {
        self@ == other@
    }
}

impl core::str::FromStr for PixelFormat {
    type Err = core::convert::Infallible;

    fn from_str(s: &str) -> Result<Self, Self::Err> {
        Ok(PixelFormat::parse(s))
    }
}

/// The error [`PixelFormat`]'s parse returns where the vocabulary is closed: not a pixel-format
/// name.
#[derive(Debug, Clone, Copy, PartialEq, Eq, Hash, Structural)]
pub struct ParsePixelFormatError;

proof fn lemma_code_index_is(codes: Seq<u32>, v: u32, i: int)
    requires
        0 <= i < codes.len(),
        codes[i] == v,
        forall|j: int| 0 <= j < i ==> codes[j] != v,
    ensures
        code_index(codes, v) == Some(i as nat),
    decreases i,
{
    if i > 0 {
        assert(codes[0] != v);
        assert forall|j: int| 0 <= j < i - 1 implies codes.drop_first()[j] != v by {
            assert(codes.drop_first()[j] == codes[j + 1]);
        }
        lemma_code_index_is(codes.drop_first(), v, i - 1);
    }
}

proof fn lemma_code_index_none(codes: Seq<u32>, v: u32)
    requires
        forall|j: int| 0 <= j < codes.len() ==> codes[j] != v,
    ensures
        code_index(codes, v) is None,
    decreases codes.len(),
{
    if codes.len() > 0 {
        assert forall|j: int| 0 <= j < codes.len() - 1 implies codes.drop_first()[j] != v by {
            assert(codes.drop_first()[j] == codes[j + 1]);
        }
        lemma_code_index_none(codes.drop_first(), v);
    }
}

proof fn lemma_pixel_format_spellings_in_range()
    ensures
        forall|k: int| 0 <= k < PIXEL_FORMAT_SPELLINGS@.len() ==> (#[trigger] PIXEL_FORMAT_SPELLINGS@[k]).1 < 285,
{
    assert forall|k: int| 0 <= k < PIXEL_FORMAT_SPELLINGS@.len() implies (#[trigger] PIXEL_FORMAT_SPELLINGS@[k]).1 < 285 by {
        if k == 0 {
            assert(PIXEL_FORMAT_SPELLINGS@[0].1 == 0);
        } else if k == 1 {
            assert(PIXEL_FORMAT_SPELLINGS@[1].1 == 1);
        } else if k == 2 {
            assert(PIXEL_FORMAT_SPELLINGS@[2].1 == 2);
        } else if k == 3 {
            assert(PIXEL_FORMAT_SPELLINGS@[3].1 == 3);
        } else if k == 4 {
            assert(PIXEL_FORMAT_SPELLINGS@[4].1 == 4);
        } else if k == 5 {
            assert(PIXEL_FORMAT_SPELLINGS@[5].1 == 5);
        } else if k == 6 {
            assert(PIXEL_FORMAT_SPELLINGS@[6].1 == 6);
        } else if k == 7 {
            assert(PIXEL_FORMAT_SPELLINGS@[7].1 == 7);
        } else if k == 8 {
            assert(PIXEL_FORMAT_SPELLINGS@[8].1 == 8);
        } else if k == 9 {
            assert(PIXEL_FORMAT_SPELLINGS@[9].1 == 9);
        } else if k == 10 {
            assert(PIXEL_FORMAT_SPELLINGS@[10].1 == 10);
        } else if k == 11 {
            assert(PIXEL_FORMAT_SPELLINGS@[11].1 == 11);
        } else if k == 12 {
            assert(PIXEL_FORMAT_SPELLINGS@[12].1 == 12);
        } else if k == 13 {
            assert(PIXEL_FORMAT_SPELLINGS@[13].1 == 13);
        } else if k == 14 {
            assert(PIXEL_FORMAT_SPELLINGS@[14].1 == 14);
        } else if k == 15 {
            assert(PIXEL_FORMAT_SPELLINGS@[15].1 == 15);
        } else if k == 16 {
            assert(PIXEL_FORMAT_SPELLINGS@[16].1 == 16);
        } else if k == 17 {
            assert(PIXEL_FORMAT_SPELLINGS@[17].1 == 17);
        } else if k == 18 {
            assert(PIXEL_FORMAT_SPELLINGS@[18].1 == 18);
        } else if k == 19 {
            assert(PIXEL_FORMAT_SPELLINGS@[19].1 == 19);
        } else if k == 20 {
            assert(PIXEL_FORMAT_SPELLINGS@[20].1 == 20);
        } else if k == 21 {
            assert(PIXEL_FORMAT_SPELLINGS@[21].1 == 21);
        } else if k == 22 {
            assert(PIXEL_FORMAT_SPELLINGS@[22].1 == 22);
        } else if k == 23 {
            assert(PIXEL_FORMAT_SPELLINGS@[23].1 == 23);
        } else if k == 24 {
            assert(PIXEL_FORMAT_SPELLINGS@[24].1 == 24);
        } else if k == 25 {
            assert(PIXEL_FORMAT_SPELLINGS@[25].1 == 25);
        } else if k == 26 {
            assert(PIXEL_FORMAT_SPELLINGS@[26].1 == 26);
        } else if k == 27 {
            assert(PIXEL_FORMAT_SPELLINGS@[27].1 == 27);
        } else if k == 28 {
            assert(PIXEL_FORMAT_SPELLINGS@[28].1 == 28);
        } else if k == 29 {
            assert(PIXEL_FORMAT_SPELLINGS@[29].1 == 29);
        } else if k == 30 {
            assert(PIXEL_FORMAT_SPELLINGS@[30].1 == 30);
        } else if k == 31 {
            assert(PIXEL_FORMAT_SPELLINGS@[31].1 == 31);
        } else if k == 32 {
            assert(PIXEL_FORMAT_SPELLINGS@[32].1 == 32);
        } else if k == 33 {
            assert(PIXEL_FORMAT_SPELLINGS@[33].1 == 33);
        } else if k == 34 {
            assert(PIXEL_FORMAT_SPELLINGS@[34].1 == 34);
        } else if k == 35 {
            assert(PIXEL_FORMAT_SPELLINGS@[35].1 == 35);
        } else if k == 36 {
            assert(PIXEL_FORMAT_SPELLINGS@[36].1 == 36);
        } else if k == 37 {
            assert(PIXEL_FORMAT_SPELLINGS@[37].1 == 37);
        } else if k == 38 {
            assert(PIXEL_FORMAT_SPELLINGS@[38].1 == 38);
        } else if k == 39 {
            assert(PIXEL_FORMAT_SPELLINGS@[39].1 == 39);
        } else if k == 40 {
            assert(PIXEL_FORMAT_SPELLINGS@[40].1 == 40);
        } else if k == 41 {
            assert(PIXEL_FORMAT_SPELLINGS@[41].1 == 41);
        } else if k == 42 {
            assert(PIXEL_FORMAT_SPELLINGS@[42].1 == 42);
        } else if k == 43 {
            assert(PIXEL_FORMAT_SPELLINGS@[43].1 == 43);
        } else if k == 44 {
            assert(PIXEL_FORMAT_SPELLINGS@[44].1 == 44);
        } else if k == 45 {
            assert(PIXEL_FORMAT_SPELLINGS@[45].1 == 45);
        } else if k == 46 {
            assert(PIXEL_FORMAT_SPELLINGS@[46].1 == 46);
        } else if k == 47 {
            assert(PIXEL_FORMAT_SPELLINGS@[47].1 == 47);
        } else if k == 48 {
            assert(PIXEL_FORMAT_SPELLINGS@[48].1 == 48);
        } else if k == 49 {
            assert(PIXEL_FORMAT_SPELLINGS@[49].1 == 49);
        } else if k == 50 {
            assert(PIXEL_FORMAT_SPELLINGS@[50].1 == 50);
        } else if k == 51 {
            assert(PIXEL_FORMAT_SPELLINGS@[51].1 == 51);
        } else if k == 52 {
            assert(PIXEL_FORMAT_SPELLINGS@[52].1 == 52);
        } else if k == 53 {
            assert(PIXEL_FORMAT_SPELLINGS@[53].1 == 53);
        } else if k == 54 {
            assert(PIXEL_FORMAT_SPELLINGS@[54].1 == 54);
        } else if k == 55 {
            assert(PIXEL_FORMAT_SPELLINGS@[55].1 == 55);
        } else if k == 56 {
            assert(PIXEL_FORMAT_SPELLINGS@[56].1 == 56);
        } else if k == 57 {
            assert(PIXEL_FORMAT_SPELLINGS@[57].1 == 57);
        } else if k == 58 {
            assert(PIXEL_FORMAT_SPELLINGS@[58].1 == 58);
        } else if k == 59 {
            assert(PIXEL_FORMAT_SPELLINGS@[59].1 == 59);
        } else if k == 60 {
            assert(PIXEL_FORMAT_SPELLINGS@[60].1 == 60);
        } else if k == 61 {
            assert(PIXEL_FORMAT_SPELLINGS@[61].1 == 61);
        } else if k == 62 {
            assert(PIXEL_FORMAT_SPELLINGS@[62].1 == 62);
        } else if k == 63 {
            assert(PIXEL_FORMAT_SPELLINGS@[63].1 == 63);
        } else if k == 64 {
            assert(PIXEL_FORMAT_SPELLINGS@[64].1 == 64);
        } else if k == 65 {
            assert(PIXEL_FORMAT_SPELLINGS@[65].1 == 65);
        } else if k == 66 {
            assert(PIXEL_FORMAT_SPELLINGS@[66].1 == 66);
        } else if k == 67 {
            assert(PIXEL_FORMAT_SPELLINGS@[67].1 == 67);
        } else if k == 68 {
            assert(PIXEL_FORMAT_SPELLINGS@[68].1 == 68);
        } else if k == 69 {
            assert(PIXEL_FORMAT_SPELLINGS@[69].1 == 69);
        } else if k == 70 {
            assert(PIXEL_FORMAT_SPELLINGS@[70].1 == 70);
        } else if k == 71 {
            assert(PIXEL_FORMAT_SPELLINGS@[71].1 == 71);
        } else if k == 72 {
            assert(PIXEL_FORMAT_SPELLINGS@[72].1 == 72);
        } else if k == 73 {
            assert(PIXEL_FORMAT_SPELLINGS@[73].1 == 73);
        } else if k == 74 {
            assert(PIXEL_FORMAT_SPELLINGS@[74].1 == 74);
        } else if k == 75 {
            assert(PIXEL_FORMAT_SPELLINGS@[75].1 == 75);
        } else if k == 76 {
            assert(PIXEL_FORMAT_SPELLINGS@[76].1 == 76);
        } else if k == 77 {
            assert(PIXEL_FORMAT_SPELLINGS@[77].1 == 77);
        } else if k == 78 {
            assert(PIXEL_FORMAT_SPELLINGS@[78].1 == 78);
        } else if k == 79 {
            assert(PIXEL_FORMAT_SPELLINGS@[79].1 == 79);
        } else if k == 80 {
            assert(PIXEL_FORMAT_SPELLINGS@[80].1 == 80);
        } else if k == 81 {
            assert(PIXEL_FORMAT_SPELLINGS@[81].1 == 81);
        } else if k == 82 {
            assert(PIXEL_FORMAT_SPELLINGS@[82].1 == 82);
        } else if k == 83 {
            assert(PIXEL_FORMAT_SPELLINGS@[83].1 == 83);
        } else if k == 84 {
            assert(PIXEL_FORMAT_SPELLINGS@[84].1 == 84);
        } else if k == 85 {
            assert(PIXEL_FORMAT_SPELLINGS@[85].1 == 85);
        } else if k == 86 {
            assert(PIXEL_FORMAT_SPELLINGS@[86].1 == 86);
        } else if k == 87 {
            assert(PIXEL_FORMAT_SPELLINGS@[87].1 == 87);
        } else if k == 88 {
            assert(PIXEL_FORMAT_SPELLINGS@[88].1 == 88);
        } else if k == 89 {
            assert(PIXEL_FORMAT_SPELLINGS@[89].1 == 89);
        } else if k == 90 {
            assert(PIXEL_FORMAT_SPELLINGS@[90].1 == 90);
        } else if k == 91 {
            assert(PIXEL_FORMAT_SPELLINGS@[91].1 == 91);
        } else if k == 92 {
            assert(PIXEL_FORMAT_SPELLINGS@[92].1 == 92);
        } else if k == 93 {
            assert(PIXEL_FORMAT_SPELLINGS@[93].1 == 93);
        } else if k == 94 {
            assert(PIXEL_FORMAT_SPELLINGS@[94].1 == 94);
        } else if k == 95 {
            assert(PIXEL_FORMAT_SPELLINGS@[95].1 == 95);
        } else if k == 96 {
            assert(PIXEL_FORMAT_SPELLINGS@[96].1 == 96);
        } else if k == 97 {
            assert(PIXEL_FORMAT_SPELLINGS@[97].1 == 97);
        } else if k == 98 {
            assert(PIXEL_FORMAT_SPELLINGS@[98].1 == 98);
        } else if k == 99 {
            assert(PIXEL_FORMAT_SPELLINGS@[99].1 == 99);
        } else if k == 100 {
            assert(PIXEL_FORMAT_SPELLINGS@[100].1 == 100);
        } else if k == 101 {
            assert(PIXEL_FORMAT_SPELLINGS@[101].1 == 101);
        } else if k == 102 {
            assert(PIXEL_FORMAT_SPELLINGS@[102].1 == 102);
        } else if k == 103 {
            assert(PIXEL_FORMAT_SPELLINGS@[103].1 == 103);
        } else if k == 104 {
            assert(PIXEL_FORMAT_SPELLINGS@[104].1 == 104);
        } else if k == 105 {
            assert(PIXEL_FORMAT_SPELLINGS@[105].1 == 105);
        } else if k == 106 {
            assert(PIXEL_FORMAT_SPELLINGS@[106].1 == 106);
        } else if k == 107 {
            assert(PIXEL_FORMAT_SPELLINGS@[107].1 == 107);
        } else if k == 108 {
            assert(PIXEL_FORMAT_SPELLINGS@[108].1 == 108);
        } else if k == 109 {
            assert(PIXEL_FORMAT_SPELLINGS@[109].1 == 109);
        } else if k == 110 {
            assert(PIXEL_FORMAT_SPELLINGS@[110].1 == 110);
        } else if k == 111 {
            assert(PIXEL_FORMAT_SPELLINGS@[111].1 == 111);
        } else if k == 112 {
            assert(PIXEL_FORMAT_SPELLINGS@[112].1 == 112);
        } else if k == 113 {
            assert(PIXEL_FORMAT_SPELLINGS@[113].1 == 113);
        } else if k == 114 {
            assert(PIXEL_FORMAT_SPELLINGS@[114].1 == 114);
        } else if k == 115 {
            assert(PIXEL_FORMAT_SPELLINGS@[115].1 == 115);
        } else if k == 116 {
            assert(PIXEL_FORMAT_SPELLINGS@[116].1 == 116);
        } else if k == 117 {
            assert(PIXEL_FORMAT_SPELLINGS@[117].1 == 117);
        } else if k == 118 {
            assert(PIXEL_FORMAT_SPELLINGS@[118].1 == 118);
        } else if k == 119 {
            assert(PIXEL_FORMAT_SPELLINGS@[119].1 == 119);
        } else if k == 120 {
            assert(PIXEL_FORMAT_SPELLINGS@[120].1 == 120);
        } else if k == 121 {
            assert(PIXEL_FORMAT_SPELLINGS@[121].1 == 121);
        } else if k == 122 {
            assert(PIXEL_FORMAT_SPELLINGS@[122].1 == 122);
        } else if k == 123 {
            assert(PIXEL_FORMAT_SPELLINGS@[123].1 == 123);
        } else if k == 124 {
            assert(PIXEL_FORMAT_SPELLINGS@[124].1 == 124);
        } else if k == 125 {
            assert(PIXEL_FORMAT_SPELLINGS@[125].1 == 125);
        } else if k == 126 {
            assert(PIXEL_FORMAT_SPELLINGS@[126].1 == 126);
        } else if k == 127 {
            assert(PIXEL_FORMAT_SPELLINGS@[127].1 == 127);
        } else if k == 128 {
            assert(PIXEL_FORMAT_SPELLINGS@[128].1 == 128);
        } else if k == 129 {
            assert(PIXEL_FORMAT_SPELLINGS@[129].1 == 129);
        } else if k == 130 {
            assert(PIXEL_FORMAT_SPELLINGS@[130].1 == 130);
        } else if k == 131 {
            assert(PIXEL_FORMAT_SPELLINGS@[131].1 == 131);
        } else if k == 132 {
            assert(PIXEL_FORMAT_SPELLINGS@[132].1 == 132);
        } else if k == 133 {
            assert(PIXEL_FORMAT_SPELLINGS@[133].1 == 133);
        } else if k == 134 {
            assert(PIXEL_FORMAT_SPELLINGS@[134].1 == 134);
        } else if k == 135 {
            assert(PIXEL_FORMAT_SPELLINGS@[135].1 == 135);
        } else if k == 136 {
            assert(PIXEL_FORMAT_SPELLINGS@[136].1 == 136);
        } else if k == 137 {
            assert(PIXEL_FORMAT_SPELLINGS@[137].1 == 137);
        } else if k == 138 {
            assert(PIXEL_FORMAT_SPELLINGS@[138].1 == 138);
        } else if k == 139 {
            assert(PIXEL_FORMAT_SPELLINGS@[139].1 == 139);
        } else if k == 140 {
            assert(PIXEL_FORMAT_SPELLINGS@[140].1 == 140);
        } else if k == 141 {
            assert(PIXEL_FORMAT_SPELLINGS@[141].1 == 141);
        } else if k == 142 {
            assert(PIXEL_FORMAT_SPELLINGS@[142].1 == 142);
        } else if k == 143 {
            assert(PIXEL_FORMAT_SPELLINGS@[143].1 == 143);
        } else if k == 144 {
            assert(PIXEL_FORMAT_SPELLINGS@[144].1 == 144);
        } else if k == 145 {
            assert(PIXEL_FORMAT_SPELLINGS@[145].1 == 145);
        } else if k == 146 {
            assert(PIXEL_FORMAT_SPELLINGS@[146].1 == 146);
        } else if k == 147 {
            assert(PIXEL_FORMAT_SPELLINGS@[147].1 == 147);
        } else if k == 148 {
            assert(PIXEL_FORMAT_SPELLINGS@[148].1 == 148);
        } else if k == 149 {
            assert(PIXEL_FORMAT_SPELLINGS@[149].1 == 149);
        } else if k == 150 {
            assert(PIXEL_FORMAT_SPELLINGS@[150].1 == 150);
        } else if k == 151 {
            assert(PIXEL_FORMAT_SPELLINGS@[151].1 == 151);
        } else if k == 152 {
            assert(PIXEL_FORMAT_SPELLINGS@[152].1 == 152);
        } else if k == 153 {
            assert(PIXEL_FORMAT_SPELLINGS@[153].1 == 153);
        } else if k == 154 {
            assert(PIXEL_FORMAT_SPELLINGS@[154].1 == 154);
        } else if k == 155 {
            assert(PIXEL_FORMAT_SPELLINGS@[155].1 == 155);
        } else if k == 156 {
            assert(PIXEL_FORMAT_SPELLINGS@[156].1 == 156);
        } else if k == 157 {
            assert(PIXEL_FORMAT_SPELLINGS@[157].1 == 157);
        } else if k == 158 {
            assert(PIXEL_FORMAT_SPELLINGS@[158].1 == 158);
        } else if k == 159 {
            assert(PIXEL_FORMAT_SPELLINGS@[159].1 == 159);
        } else if k == 160 {
            assert(PIXEL_FORMAT_SPELLINGS@[160].1 == 160);
        } else if k == 161 {
            assert(PIXEL_FORMAT_SPELLINGS@[161].1 == 161);
        } else if k == 162 {
            assert(PIXEL_FORMAT_SPELLINGS@[162].1 == 162);
        } else if k == 163 {
            assert(PIXEL_FORMAT_SPELLINGS@[163].1 == 163);
        } else if k == 164 {
            assert(PIXEL_FORMAT_SPELLINGS@[164].1 == 164);
        } else if k == 165 {
            assert(PIXEL_FORMAT_SPELLINGS@[165].1 == 165);
        } else if k == 166 {
            assert(PIXEL_FORMAT_SPELLINGS@[166].1 == 166);
        } else if k == 167 {
            assert(PIXEL_FORMAT_SPELLINGS@[167].1 == 167);
        } else if k == 168 {
            assert(PIXEL_FORMAT_SPELLINGS@[168].1 == 168);
        } else if k == 169 {
            assert(PIXEL_FORMAT_SPELLINGS@[169].1 == 169);
        } else if k == 170 {
            assert(PIXEL_FORMAT_SPELLINGS@[170].1 == 170);
        } else if k == 171 {
            assert(PIXEL_FORMAT_SPELLINGS@[171].1 == 171);
        } else if k == 172 {
            assert(PIXEL_FORMAT_SPELLINGS@[172].1 == 172);
        } else if k == 173 {
            assert(PIXEL_FORMAT_SPELLINGS@[173].1 == 173);
        } else if k == 174 {
            assert(PIXEL_FORMAT_SPELLINGS@[174].1 == 174);
        } else if k == 175 {
            assert(PIXEL_FORMAT_SPELLINGS@[175].1 == 175);
        } else if k == 176 {
            assert(PIXEL_FORMAT_SPELLINGS@[176].1 == 176);
        } else if k == 177 {
            assert(PIXEL_FORMAT_SPELLINGS@[177].1 == 177);
        } else if k == 178 {
            assert(PIXEL_FORMAT_SPELLINGS@[178].1 == 178);
        } else if k == 179 {
            assert(PIXEL_FORMAT_SPELLINGS@[179].1 == 179);
        } else if k == 180 {
            assert(PIXEL_FORMAT_SPELLINGS@[180].1 == 180);
        } else if k == 181 {
            assert(PIXEL_FORMAT_SPELLINGS@[181].1 == 181);
        } else if k == 182 {
            assert(PIXEL_FORMAT_SPELLINGS@[182].1 == 182);
        } else if k == 183 {
            assert(PIXEL_FORMAT_SPELLINGS@[183].1 == 183);
        } else if k == 184 {
            assert(PIXEL_FORMAT_SPELLINGS@[184].1 == 184);
        } else if k == 185 {
            assert(PIXEL_FORMAT_SPELLINGS@[185].1 == 185);
        } else if k == 186 {
            assert(PIXEL_FORMAT_SPELLINGS@[186].1 == 186);
        } else if k == 187 {
            assert(PIXEL_FORMAT_SPELLINGS@[187].1 == 187);
        } else if k == 188 {
            assert(PIXEL_FORMAT_SPELLINGS@[188].1 == 188);
        } else if k == 189 {
            assert(PIXEL_FORMAT_SPELLINGS@[189].1 == 189);
        } else if k == 190 {
            assert(PIXEL_FORMAT_SPELLINGS@[190].1 == 190);
        } else if k == 191 {
            assert(PIXEL_FORMAT_SPELLINGS@[191].1 == 191);
        } else if k == 192 {
            assert(PIXEL_FORMAT_SPELLINGS@[192].1 == 192);
        } else if k == 193 {
            assert(PIXEL_FORMAT_SPELLINGS@[193].1 == 193);
        } else if k == 194 {
            assert(PIXEL_FORMAT_SPELLINGS@[194].1 == 194);
        } else if k == 195 {
            assert(PIXEL_FORMAT_SPELLINGS@[195].1 == 195);
        } else if k == 196 {
            assert(PIXEL_FORMAT_SPELLINGS@[196].1 == 196);
        } else if k == 197 {
            assert(PIXEL_FORMAT_SPELLINGS@[197].1 == 197);
        } else if k == 198 {
            assert(PIXEL_FORMAT_SPELLINGS@[198].1 == 198);
        } else if k == 199 {
            assert(PIXEL_FORMAT_SPELLINGS@[199].1 == 199);
        } else if k == 200 {
            assert(PIXEL_FORMAT_SPELLINGS@[200].1 == 200);
        } else if k == 201 {
            assert(PIXEL_FORMAT_SPELLINGS@[201].1 == 201);
        } else if k == 202 {
            assert(PIXEL_FORMAT_SPELLINGS@[202].1 == 202);
        } else if k == 203 {
            assert(PIXEL_FORMAT_SPELLINGS@[203].1 == 203);
        } else if k == 204 {
            assert(PIXEL_FORMAT_SPELLINGS@[204].1 == 204);
        } else if k == 205 {
            assert(PIXEL_FORMAT_SPELLINGS@[205].1 == 205);
        } else if k == 206 {
            assert(PIXEL_FORMAT_SPELLINGS@[206].1 == 206);
        } else if k == 207 {
            assert(PIXEL_FORMAT_SPELLINGS@[207].1 == 207);
        } else if k == 208 {
            assert(PIXEL_FORMAT_SPELLINGS@[208].1 == 208);
        } else if k == 209 {
            assert(PIXEL_FORMAT_SPELLINGS@[209].1 == 209);
        } else if k == 210 {
            assert(PIXEL_FORMAT_SPELLINGS@[210].1 == 210);
        } else if k == 211 {
            assert(PIXEL_FORMAT_SPELLINGS@[211].1 == 211);
        } else if k == 212 {
            assert(PIXEL_FORMAT_SPELLINGS@[212].1 == 212);
        } else if k == 213 {
            assert(PIXEL_FORMAT_SPELLINGS@[213].1 == 213);
        } else if k == 214 {
            assert(PIXEL_FORMAT_SPELLINGS@[214].1 == 214);
        } else if k == 215 {
            assert(PIXEL_FORMAT_SPELLINGS@[215].1 == 215);
        } else if k == 216 {
            assert(PIXEL_FORMAT_SPELLINGS@[216].1 == 216);
        } else if k == 217 {
            assert(PIXEL_FORMAT_SPELLINGS@[217].1 == 217);
        } else if k == 218 {
            assert(PIXEL_FORMAT_SPELLINGS@[218].1 == 218);
        } else if k == 219 {
            assert(PIXEL_FORMAT_SPELLINGS@[219].1 == 219);
        } else if k == 220 {
            assert(PIXEL_FORMAT_SPELLINGS@[220].1 == 220);
        } else if k == 221 {
            assert(PIXEL_FORMAT_SPELLINGS@[221].1 == 221);
        } else if k == 222 {
            assert(PIXEL_FORMAT_SPELLINGS@[222].1 == 222);
        } else if k == 223 {
            assert(PIXEL_FORMAT_SPELLINGS@[223].1 == 223);
        } else if k == 224 {
            assert(PIXEL_FORMAT_SPELLINGS@[224].1 == 224);
        } else if k == 225 {
            assert(PIXEL_FORMAT_SPELLINGS@[225].1 == 225);
        } else if k == 226 {
            assert(PIXEL_FORMAT_SPELLINGS@[226].1 == 226);
        } else if k == 227 {
            assert(PIXEL_FORMAT_SPELLINGS@[227].1 == 227);
        } else if k == 228 {
            assert(PIXEL_FORMAT_SPELLINGS@[228].1 == 228);
        } else if k == 229 {
            assert(PIXEL_FORMAT_SPELLINGS@[229].1 == 229);
        } else if k == 230 {
            assert(PIXEL_FORMAT_SPELLINGS@[230].1 == 230);
        } else if k == 231 {
            assert(PIXEL_FORMAT_SPELLINGS@[231].1 == 231);
        } else if k == 232 {
            assert(PIXEL_FORMAT_SPELLINGS@[232].1 == 232);
        } else if k == 233 {
            assert(PIXEL_FORMAT_SPELLINGS@[233].1 == 233);
        } else if k == 234 {
            assert(PIXEL_FORMAT_SPELLINGS@[234].1 == 234);
        } else if k == 235 {
            assert(PIXEL_FORMAT_SPELLINGS@[235].1 == 235);
        } else if k == 236 {
            assert(PIXEL_FORMAT_SPELLINGS@[236].1 == 236);
        } else if k == 237 {
            assert(PIXEL_FORMAT_SPELLINGS@[237].1 == 237);
        } else if k == 238 {
            assert(PIXEL_FORMAT_SPELLINGS@[238].1 == 238);
        } else if k == 239 {
            assert(PIXEL_FORMAT_SPELLINGS@[239].1 == 239);
        } else if k == 240 {
            assert(PIXEL_FORMAT_SPELLINGS@[240].1 == 240);
        } else if k == 241 {
            assert(PIXEL_FORMAT_SPELLINGS@[241].1 == 241);
        } else if k == 242 {
            assert(PIXEL_FORMAT_SPELLINGS@[242].1 == 242);
        } else if k == 243 {
            assert(PIXEL_FORMAT_SPELLINGS@[243].1 == 243);
        } else if k == 244 {
            assert(PIXEL_FORMAT_SPELLINGS@[244].1 == 244);
        } else if k == 245 {
            assert(PIXEL_FORMAT_SPELLINGS@[245].1 == 245);
        } else if k == 246 {
            assert(PIXEL_FORMAT_SPELLINGS@[246].1 == 246);
        } else if k == 247 {
            assert(PIXEL_FORMAT_SPELLINGS@[247].1 == 247);
        } else if k == 248 {
            assert(PIXEL_FORMAT_SPELLINGS@[248].1 == 248);
        } else if k == 249 {
            assert(PIXEL_FORMAT_SPELLINGS@[249].1 == 249);
        } else if k == 250 {
            assert(PIXEL_FORMAT_SPELLINGS@[250].1 == 250);
        } else if k == 251 {
            assert(PIXEL_FORMAT_SPELLINGS@[251].1 == 251);
        } else if k == 252 {
            assert(PIXEL_FORMAT_SPELLINGS@[252].1 == 252);
        } else if k == 253 {
            assert(PIXEL_FORMAT_SPELLINGS@[253].1 == 253);
        } else if k == 254 {
            assert(PIXEL_FORMAT_SPELLINGS@[254].1 == 254);
        } else if k == 255 {
            assert(PIXEL_FORMAT_SPELLINGS@[255].1 == 255);
        } else if k == 256 {
            assert(PIXEL_FORMAT_SPELLINGS@[256].1 == 256);
        } else if k == 257 {
            assert(PIXEL_FORMAT_SPELLINGS@[257].1 == 257);
        } else if k == 258 {
            assert(PIXEL_FORMAT_SPELLINGS@[258].1 == 258);
        } else if k == 259 {
            assert(PIXEL_FORMAT_SPELLINGS@[259].1 == 259);
        } else if k == 260 {
            assert(PIXEL_FORMAT_SPELLINGS@[260].1 == 260);
        } else if k == 261 {
            assert(PIXEL_FORMAT_SPELLINGS@[261].1 == 261);
        } else if k == 262 {
            assert(PIXEL_FORMAT_SPELLINGS@[262].1 == 262);
        } else if k == 263 {
            assert(PIXEL_FORMAT_SPELLINGS@[263].1 == 263);
        } else if k == 264 {
            assert(PIXEL_FORMAT_SPELLINGS@[264].1 == 264);
        } else if k == 265 {
            assert(PIXEL_FORMAT_SPELLINGS@[265].1 == 265);
        } else if k == 266 {
            assert(PIXEL_FORMAT_SPELLINGS@[266].1 == 266);
        } else if k == 267 {
            assert(PIXEL_FORMAT_SPELLINGS@[267].1 == 267);
        } else if k == 268 {
            assert(PIXEL_FORMAT_SPELLINGS@[268].1 == 268);
        } else if k == 269 {
            assert(PIXEL_FORMAT_SPELLINGS@[269].1 == 269);
        } else if k == 270 {
            assert(PIXEL_FORMAT_SPELLINGS@[270].1 == 270);
        } else if k == 271 {
            assert(PIXEL_FORMAT_SPELLINGS@[271].1 == 271);
        } else if k == 272 {
            assert(PIXEL_FORMAT_SPELLINGS@[272].1 == 272);
        } else if k == 273 {
            assert(PIXEL_FORMAT_SPELLINGS@[273].1 == 273);
        } else if k == 274 {
            assert(PIXEL_FORMAT_SPELLINGS@[274].1 == 274);
        } else if k == 275 {
            assert(PIXEL_FORMAT_SPELLINGS@[275].1 == 275);
        } else if k == 276 {
            assert(PIXEL_FORMAT_SPELLINGS@[276].1 == 276);
        } else if k == 277 {
            assert(PIXEL_FORMAT_SPELLINGS@[277].1 == 277);
        } else if k == 278 {
            assert(PIXEL_FORMAT_SPELLINGS@[278].1 == 278);
        } else if k == 279 {
            assert(PIXEL_FORMAT_SPELLINGS@[279].1 == 279);
        } else if k == 280 {
            assert(PIXEL_FORMAT_SPELLINGS@[280].1 == 280);
        } else if k == 281 {
            assert(PIXEL_FORMAT_SPELLINGS@[281].1 == 281);
        } else if k == 282 {
            assert(PIXEL_FORMAT_SPELLINGS@[282].1 == 282);
        } else if k == 283 {
            assert(PIXEL_FORMAT_SPELLINGS@[283].1 == 283);
        } else if k == 284 {
            assert(PIXEL_FORMAT_SPELLINGS@[284].1 == 284);
        } else if k == 285 {
            assert(PIXEL_FORMAT_SPELLINGS@[285].1 == 220);
        } else if k == 286 {
            assert(PIXEL_FORMAT_SPELLINGS@[286].1 == 247);
        } else if k == 287 {
            assert(PIXEL_FORMAT_SPELLINGS@[287].1 == 246);
        }
    }
}

/// The roster position whose slug has this key, for the slugs of this roster.
spec fn slug_of_key(k: int) -> int {
    if k == 1718579311 {
        0
    } else if k == 31860768378418810 {
        1
    } else if k == 31862967401674362 {
        2
    } else if k == 31860776968353402 {
        3
    } else if k == 31865175014864506 {
        4
    } else if k == 31861863595079290 {
        5
    } else if k == 31860764083451514 {
        6
    } else if k == 8156637080139036282 {
        7
    } else if k == 8156356704673953402 {
        8
    } else if k == 8156919654627374714 {
        9
    } else if k == 8156358903697208954 {
        10
    } else if k == 8157484803604051578 {
        11
    } else if k == 483696287557960731162234 {
        12
    } else if k == 483511820117223635646074 {
        13
    } else if k == 123826079072525049191167610 {
        14
    } else if k == 123778855407696352739030650 {
        15
    } else if k == 123826115966013196610270842 {
        16
    } else if k == 123778892301184500158133882 {
        17
    } else if k == 123826152859501344029374074 {
        18
    } else if k == 123778929194672647577237114 {
        19
    } else if k == 123826189752989491448477306 {
        20
    } else if k == 123778966088160794996340346 {
        21
    } else if k == 483696287560159754417786 {
        22
    } else if k == 483511820119422658901626 {
        23
    } else if k == 123826079072527248214423162 {
        24
    } else if k == 123778855407698551762286202 {
        25
    } else if k == 123826115966015395633526394 {
        26
    } else if k == 123778892301186699181389434 {
        27
    } else if k == 123826152859503543052629626 {
        28
    } else if k == 123778929194674846600492666 {
        29
    } else if k == 123826189752991690471732858 {
        30
    } else if k == 123778966088162994019595898 {
        31
    } else if k == 123826079072525057781102202 {
        32
    } else if k == 123778855407696361328965242 {
        33
    } else if k == 123826115966013205200205434 {
        34
    } else if k == 123778892301184508748068474 {
        35
    } else if k == 483696287562367367607930 {
        36
    } else if k == 483511820121630272091770 {
        37
    } else if k == 123826079072529455827613306 {
        38
    } else if k == 123778855407700759375476346 {
        39
    } else if k == 123826115966017603246716538 {
        40
    } else if k == 123778892301188906794579578 {
        41
    } else if k == 123826152859505750665819770 {
        42
    } else if k == 123778929194677054213682810 {
        43
    } else if k == 123826189752993898084923002 {
        44
    } else if k == 123778966088165201632786042 {
        45
    } else if k == 2077472429058260422819253593798266 {
        46
    } else if k == 2076680147433117779443318154294906 {
        47
    } else if k == 2077472429058297316307401012901498 {
        48
    } else if k == 2076680147433154672931465573398138 {
        49
    } else if k == 8156356704522958458 {
        50
    } else if k == 8156919654476379770 {
        51
    } else if k == 8157484803453056634 {
        52
    } else if k == 123826249614837946825275002 {
        53
    } else if k == 123779025950009250373138042 {
        54
    } else if k == 123826249615400896778696314 {
        55
    } else if k == 123779025950572200326559354 {
        56
    } else if k == 123826249615966045755373178 {
        57
    } else if k == 123779025951137349303236218 {
        58
    } else if k == 31699476242566412592586651258 {
        59
    } else if k == 31687386984370266300839589498 {
        60
    } else if k == 31699476242566975542540072570 {
        61
    } else if k == 31687386984370829250793010810 {
        62
    } else if k == 31699476242567540691516749434 {
        63
    } else if k == 31687386984371394399769687674 {
        64
    } else if k == 31699485687299378331877078650 {
        65
    } else if k == 31687396429103232040130016890 {
        66
    } else if k == 31699485687299941281830499962 {
        67
    } else if k == 31687396429103794990083438202 {
        68
    } else if k == 31699485687300506430807176826 {
        69
    } else if k == 31687396429104360139060115066 {
        70
    } else if k == 31699495132033472170097604218 {
        71
    } else if k == 31699504576765309810457933434 {
        72
    } else if k == 31687415318569163518710871674 {
        73
    } else if k == 31699504576765872760411354746 {
        74
    } else if k == 31687415318569726468664292986 {
        75
    } else if k == 31699504576766437909388031610 {
        76
    } else if k == 31687415318570291617640969850 {
        77
    } else if k == 858945391 {
        78
    } else if k == 842233711 {
        79
    } else if k == 926054255 {
        80
    } else if k == 892565359 {
        81
    } else if k == 859141999 {
        82
    } else if k == 112619162924911 {
        83
    } else if k == 112576213251951 {
        84
    } else if k == 112619162841457 {
        85
    } else if k == 112576213168497 {
        86
    } else if k == 112619196395889 {
        87
    } else if k == 112576246722929 {
        88
    } else if k == 112619263504753 {
        89
    } else if k == 112576313831793 {
        90
    } else if k == 112619162841969 {
        91
    } else if k == 112576213169009 {
        92
    } else if k == 112619196396401 {
        93
    } else if k == 112576246723441 {
        94
    } else if k == 112619263505265 {
        95
    } else if k == 112576313832305 {
        96
    } else if k == 112619162842481 {
        97
    } else if k == 112576213169521 {
        98
    } else if k == 112619196396913 {
        99
    } else if k == 112576246723953 {
        100
    } else if k == 112619263505777 {
        101
    } else if k == 112576313832817 {
        102
    } else if k == 14411528543041146 {
        103
    } else if k == 14411528593177206 {
        104
    } else if k == 14411528526264186 {
        105
    } else if k == 925955136227548756598 {
        106
    } else if k == 112619162841978 {
        107
    } else if k == 112576213169018 {
        108
    } else if k == 112619196396410 {
        109
    } else if k == 112576246723450 {
        110
    } else if k == 112619263505274 {
        111
    } else if k == 112576313832314 {
        112
    } else if k == 825373559 {
        113
    } else if k == 112619162842487 {
        114
    } else if k == 112576213169527 {
        115
    } else if k == 112619162990457 {
        116
    } else if k == 112576213317497 {
        117
    } else if k == 112620370736247 {
        118
    } else if k == 112577421063287 {
        119
    } else if k == 112619263653753 {
        120
    } else if k == 112576313980793 {
        121
    } else if k == 112619297273721 {
        122
    } else if k == 112576347600761 {
        123
    } else if k == 1652192887 {
        124
    } else if k == 2038068855 {
        125
    } else if k == 2004253282 {
        126
    } else if k == 7380613876673837666 {
        127
    } else if k == 7377799126906731106 {
        128
    } else if k == 1651997302 {
        129
    } else if k == 58502646495863 {
        130
    } else if k == 28830514282199673 {
        131
    } else if k == 28819519165921913 {
        132
    } else if k == 228495419507 {
        133
    } else if k == 228496468067 {
        134
    } else if k == 1650681971 {
        135
    } else if k == 1651730531 {
        136
    } else if k == 1667789666 {
        137
    } else if k == 1936221026 {
        138
    } else if k == 828598387 {
        139
    } else if k == 829646947 {
        140
    } else if k == 1667789617 {
        141
    } else if k == 1936220977 {
        142
    } else if k == 1889436020944902763385 {
        143
    } else if k == 1888715445004523484025 {
        144
    } else if k == 1889436021013621191545 {
        145
    } else if k == 1888715445073241912185 {
        146
    } else if k == 124473310405480 {
        147
    } else if k == 895707251 {
        148
    } else if k == 1890033083232834250867 {
        149
    } else if k == 962816115 {
        150
    } else if k == 896755811 {
        151
    } else if k == 1890033083232835299427 {
        152
    } else if k == 963864675 {
        153
    } else if k == 7380613866975357043 {
        154
    } else if k == 7377799117208250483 {
        155
    } else if k == 7380613866976405603 {
        156
    } else if k == 7377799117209299043 {
        157
    } else if k == 7380614970798729331 {
        158
    } else if k == 7377800221031622771 {
        159
    } else if k == 7380614970799777891 {
        160
    } else if k == 7377800221032671331 {
        161
    } else if k == 7380614975093696627 {
        162
    } else if k == 7377800225326590067 {
        163
    } else if k == 7380614975094745187 {
        164
    } else if k == 7377800225327638627 {
        165
    } else if k == 28830540100757619 {
        166
    } else if k == 28819544984479859 {
        167
    } else if k == 28830540101806179 {
        168
    } else if k == 28819544985528419 {
        169
    } else if k == 7380613876320266355 {
        170
    } else if k == 7377799126553159795 {
        171
    } else if k == 7380613876321314915 {
        172
    } else if k == 7377799126554208355 {
        173
    } else if k == 28830531594709107 {
        174
    } else if k == 28819536478431347 {
        175
    } else if k == 1889438273633672980595 {
        176
    } else if k == 1888717697693293701235 {
        177
    } else if k == 7380616053952571507 {
        178
    } else if k == 7377801304185464947 {
        179
    } else if k == 7380611664495994995 {
        180
    } else if k == 7377796914728888435 {
        181
    } else if k == 1889437709811841198195 {
        182
    } else if k == 1888717133871461918835 {
        183
    } else if k == 1889436586110957611123 {
        184
    } else if k == 1888716010170578331763 {
        185
    } else if k == 1903387496 {
        186
    } else if k == 28830545403405160 {
        187
    } else if k == 28819550287127400 {
        188
    } else if k == 7380609457051624296 {
        189
    } else if k == 7377794707284517736 {
        190
    } else if k == 123827006164685512953258856 {
        191
    } else if k == 123779782499856816501121896 {
        192
    } else if k == 7380611656074879848 {
        193
    } else if k == 7377796906307773288 {
        194
    } else if k == 123827006164687711976514408 {
        195
    } else if k == 123779782499859015524377448 {
        196
    } else if k == 7380613855098135400 {
        197
    } else if k == 7377799105331028840 {
        198
    } else if k == 7380616054121390952 {
        199
    } else if k == 7377801304354284392 {
        200
    } else if k == 1889437709812093903720 {
        201
    } else if k == 1888717133871714624360 {
        202
    } else if k == 1889436586111210316648 {
        203
    } else if k == 1888716010170831037288 {
        204
    } else if k == 486983033704 {
        205
    } else if k == 1889436021004931654504 {
        206
    } else if k == 1888715445064552375144 {
        207
    } else if k == 1889436583954885075816 {
        208
    } else if k == 1888716008014505796456 {
        209
    } else if k == 1889437146904838497128 {
        210
    } else if k == 1888716570964459217768 {
        211
    } else if k == 1889437709854791918440 {
        212
    } else if k == 1888717133914412639080 {
        213
    } else if k == 1889436586153908331368 {
        214
    } else if k == 1888716010213529052008 {
        215
    } else if k == 483696053711895755187048 {
        216
    } else if k == 483511586271158659670888 {
        217
    } else if k == 483695766044469556896616 {
        218
    } else if k == 483511298603732461380456 {
        219
    } else if k == 246866408296 {
        220
    } else if k == 107999005930344 {
        221
    } else if k == 28830545553290088 {
        222
    } else if k == 28819550437012328 {
        223
    } else if k == 7380609457201509224 {
        224
    } else if k == 7377794707434402664 {
        225
    } else if k == 7380611656224764776 {
        226
    } else if k == 7377796906457658216 {
        227
    } else if k == 7380613855248020328 {
        228
    } else if k == 7377799105480913768 {
        229
    } else if k == 7380616054271275880 {
        230
    } else if k == 7377801304504169320 {
        231
    } else if k == 7380611664814699368 {
        232
    } else if k == 7377796915047592808 {
        233
    } else if k == 1889436586111360201576 {
        234
    } else if k == 1888716010170980922216 {
        235
    } else if k == 1889437709812243788648 {
        236
    } else if k == 1888717133871864509288 {
        237
    } else if k == 3760762 {
        238
    } else if k == 421732103546 {
        239
    } else if k == 112619263517306 {
        240
    } else if k == 112576313844346 {
        241
    } else if k == 28830531460751994 {
        242
    } else if k == 28819536344474234 {
        243
    } else if k == 28830514314437242 {
        244
    } else if k == 28819519198159482 {
        245
    } else if k == 1890028586334346506350 {
        246
    } else if k == 1999481824185997553774 {
        247
    } else if k == 963469937 {
        248
    } else if k == 69453769846909389346857571 {
        249
    } else if k == 69378211987687074650808931 {
        250
    } else if k == 69402026370902038748488291 {
        251
    } else if k == 69401732375918364002509411 {
        252
    } else if k == 2077456875043295551555668559946339 {
        253
    } else if k == 2076664593418152908179733120442979 {
        254
    } else if k == 2077456874967737692333353863897699 {
        255
    } else if k == 2076664593342595048957418424394339 {
        256
    } else if k == 2077456874991552075548317961577059 {
        257
    } else if k == 2076664593366409432172382522073699 {
        258
    } else if k == 2077456874991258080564643215598179 {
        259
    } else if k == 2076664593366115437188707776094819 {
        260
    } else if k == 2077457494013315194245806009508451 {
        261
    } else if k == 2076665212388172550869870570005091 {
        262
    } else if k == 2077457493937757335023491313459811 {
        263
    } else if k == 2076665212312614691647555873956451 {
        264
    } else if k == 2077457493961571718238455411139171 {
        265
    } else if k == 2076665212336429074862519971635811 {
        266
    } else if k == 2077457493961277723254780665160291 {
        267
    } else if k == 2076665212336135079878845225656931 {
        268
    } else if k == 2077458112983334836935943459070563 {
        269
    } else if k == 2076665831358192193560008019567203 {
        270
    } else if k == 2077458112907776977713628763021923 {
        271
    } else if k == 2076665831282634334337693323518563 {
        272
    } else if k == 2077458112931591360928592860701283 {
        273
    } else if k == 2076665831306448717552657421197923 {
        274
    } else if k == 2077458112931297365944918114722403 {
        275
    } else if k == 2076665831306154722568982675219043 {
        276
    } else if k == 2077458731953354479626080908632675 {
        277
    } else if k == 2076666450328211836250145469129315 {
        278
    } else if k == 2077458731877796620403766212584035 {
        279
    } else if k == 2076666450252653977027830773080675 {
        280
    } else if k == 2077458731901611003618730310263395 {
        281
    } else if k == 2076666450276468360242794870760035 {
        282
    } else if k == 2077458731901317008635055564284515 {
        283
    } else if k == 2076666450276174365259120124781155 {
        284
    } else {
        -1
    }
}

/// The roster position whose wire id is `c`, for the ids of this roster.
spec fn position_of_code(c: u32) -> int {
    if c == 0 {
        0
    } else if c == 100 {
        1
    } else if c == 101 {
        2
    } else if c == 102 {
        3
    } else if c == 103 {
        4
    } else if c == 104 {
        5
    } else if c == 105 {
        6
    } else if c == 106 {
        7
    } else if c == 107 {
        8
    } else if c == 108 {
        9
    } else if c == 109 {
        10
    } else if c == 110 {
        11
    } else if c == 111 {
        12
    } else if c == 112 {
        13
    } else if c == 113 {
        14
    } else if c == 114 {
        15
    } else if c == 115 {
        16
    } else if c == 116 {
        17
    } else if c == 117 {
        18
    } else if c == 118 {
        19
    } else if c == 119 {
        20
    } else if c == 120 {
        21
    } else if c == 121 {
        22
    } else if c == 122 {
        23
    } else if c == 123 {
        24
    } else if c == 124 {
        25
    } else if c == 125 {
        26
    } else if c == 126 {
        27
    } else if c == 127 {
        28
    } else if c == 128 {
        29
    } else if c == 129 {
        30
    } else if c == 130 {
        31
    } else if c == 131 {
        32
    } else if c == 132 {
        33
    } else if c == 133 {
        34
    } else if c == 134 {
        35
    } else if c == 140 {
        36
    } else if c == 141 {
        37
    } else if c == 142 {
        38
    } else if c == 143 {
        39
    } else if c == 144 {
        40
    } else if c == 145 {
        41
    } else if c == 146 {
        42
    } else if c == 147 {
        43
    } else if c == 148 {
        44
    } else if c == 149 {
        45
    } else if c == 150 {
        46
    } else if c == 151 {
        47
    } else if c == 152 {
        48
    } else if c == 153 {
        49
    } else if c == 200 {
        50
    } else if c == 201 {
        51
    } else if c == 202 {
        52
    } else if c == 203 {
        53
    } else if c == 216 {
        54
    } else if c == 204 {
        55
    } else if c == 217 {
        56
    } else if c == 205 {
        57
    } else if c == 218 {
        58
    } else if c == 206 {
        59
    } else if c == 219 {
        60
    } else if c == 207 {
        61
    } else if c == 220 {
        62
    } else if c == 208 {
        63
    } else if c == 221 {
        64
    } else if c == 215 {
        65
    } else if c == 227 {
        66
    } else if c == 209 {
        67
    } else if c == 222 {
        68
    } else if c == 210 {
        69
    } else if c == 223 {
        70
    } else if c == 211 {
        71
    } else if c == 212 {
        72
    } else if c == 224 {
        73
    } else if c == 213 {
        74
    } else if c == 225 {
        75
    } else if c == 214 {
        76
    } else if c == 226 {
        77
    } else if c == 300 {
        78
    } else if c == 301 {
        79
    } else if c == 302 {
        80
    } else if c == 303 {
        81
    } else if c == 304 {
        82
    } else if c == 305 {
        83
    } else if c == 306 {
        84
    } else if c == 310 {
        85
    } else if c == 311 {
        86
    } else if c == 312 {
        87
    } else if c == 320 {
        88
    } else if c == 313 {
        89
    } else if c == 321 {
        90
    } else if c == 314 {
        91
    } else if c == 322 {
        92
    } else if c == 315 {
        93
    } else if c == 323 {
        94
    } else if c == 316 {
        95
    } else if c == 324 {
        96
    } else if c == 317 {
        97
    } else if c == 325 {
        98
    } else if c == 318 {
        99
    } else if c == 326 {
        100
    } else if c == 319 {
        101
    } else if c == 327 {
        102
    } else if c == 400 {
        103
    } else if c == 401 {
        104
    } else if c == 402 {
        105
    } else if c == 403 {
        106
    } else if c == 410 {
        107
    } else if c == 420 {
        108
    } else if c == 411 {
        109
    } else if c == 421 {
        110
    } else if c == 412 {
        111
    } else if c == 422 {
        112
    } else if c == 413 {
        113
    } else if c == 414 {
        114
    } else if c == 435 {
        115
    } else if c == 415 {
        116
    } else if c == 423 {
        117
    } else if c == 433 {
        118
    } else if c == 434 {
        119
    } else if c == 416 {
        120
    } else if c == 424 {
        121
    } else if c == 425 {
        122
    } else if c == 426 {
        123
    } else if c == 417 {
        124
    } else if c == 418 {
        125
    } else if c == 427 {
        126
    } else if c == 419 {
        127
    } else if c == 428 {
        128
    } else if c == 429 {
        129
    } else if c == 430 {
        130
    } else if c == 431 {
        131
    } else if c == 432 {
        132
    } else if c == 500 {
        133
    } else if c == 501 {
        134
    } else if c == 502 {
        135
    } else if c == 503 {
        136
    } else if c == 504 {
        137
    } else if c == 505 {
        138
    } else if c == 506 {
        139
    } else if c == 507 {
        140
    } else if c == 508 {
        141
    } else if c == 509 {
        142
    } else if c == 510 {
        143
    } else if c == 512 {
        144
    } else if c == 511 {
        145
    } else if c == 513 {
        146
    } else if c == 514 {
        147
    } else if c == 515 {
        148
    } else if c == 516 {
        149
    } else if c == 517 {
        150
    } else if c == 518 {
        151
    } else if c == 519 {
        152
    } else if c == 560 {
        153
    } else if c == 520 {
        154
    } else if c == 561 {
        155
    } else if c == 521 {
        156
    } else if c == 562 {
        157
    } else if c == 522 {
        158
    } else if c == 563 {
        159
    } else if c == 523 {
        160
    } else if c == 564 {
        161
    } else if c == 524 {
        162
    } else if c == 565 {
        163
    } else if c == 525 {
        164
    } else if c == 566 {
        165
    } else if c == 530 {
        166
    } else if c == 567 {
        167
    } else if c == 531 {
        168
    } else if c == 568 {
        169
    } else if c == 532 {
        170
    } else if c == 569 {
        171
    } else if c == 533 {
        172
    } else if c == 570 {
        173
    } else if c == 571 {
        174
    } else if c == 572 {
        175
    } else if c == 573 {
        176
    } else if c == 574 {
        177
    } else if c == 540 {
        178
    } else if c == 541 {
        179
    } else if c == 542 {
        180
    } else if c == 543 {
        181
    } else if c == 544 {
        182
    } else if c == 545 {
        183
    } else if c == 546 {
        184
    } else if c == 547 {
        185
    } else if c == 600 {
        186
    } else if c == 601 {
        187
    } else if c == 608 {
        188
    } else if c == 602 {
        189
    } else if c == 609 {
        190
    } else if c == 630 {
        191
    } else if c == 631 {
        192
    } else if c == 603 {
        193
    } else if c == 610 {
        194
    } else if c == 632 {
        195
    } else if c == 633 {
        196
    } else if c == 604 {
        197
    } else if c == 611 {
        198
    } else if c == 605 {
        199
    } else if c == 612 {
        200
    } else if c == 606 {
        201
    } else if c == 613 {
        202
    } else if c == 607 {
        203
    } else if c == 614 {
        204
    } else if c == 620 {
        205
    } else if c == 621 {
        206
    } else if c == 634 {
        207
    } else if c == 622 {
        208
    } else if c == 635 {
        209
    } else if c == 623 {
        210
    } else if c == 636 {
        211
    } else if c == 624 {
        212
    } else if c == 637 {
        213
    } else if c == 638 {
        214
    } else if c == 639 {
        215
    } else if c == 625 {
        216
    } else if c == 640 {
        217
    } else if c == 626 {
        218
    } else if c == 641 {
        219
    } else if c == 700 {
        220
    } else if c == 701 {
        221
    } else if c == 702 {
        222
    } else if c == 712 {
        223
    } else if c == 703 {
        224
    } else if c == 713 {
        225
    } else if c == 704 {
        226
    } else if c == 714 {
        227
    } else if c == 705 {
        228
    } else if c == 715 {
        229
    } else if c == 706 {
        230
    } else if c == 716 {
        231
    } else if c == 717 {
        232
    } else if c == 718 {
        233
    } else if c == 707 {
        234
    } else if c == 719 {
        235
    } else if c == 720 {
        236
    } else if c == 721 {
        237
    } else if c == 730 {
        238
    } else if c == 731 {
        239
    } else if c == 732 {
        240
    } else if c == 733 {
        241
    } else if c == 734 {
        242
    } else if c == 735 {
        243
    } else if c == 736 {
        244
    } else if c == 737 {
        245
    } else if c == 740 {
        246
    } else if c == 741 {
        247
    } else if c == 800 {
        248
    } else if c == 900 {
        249
    } else if c == 901 {
        250
    } else if c == 902 {
        251
    } else if c == 903 {
        252
    } else if c == 910 {
        253
    } else if c == 914 {
        254
    } else if c == 911 {
        255
    } else if c == 915 {
        256
    } else if c == 912 {
        257
    } else if c == 916 {
        258
    } else if c == 913 {
        259
    } else if c == 917 {
        260
    } else if c == 920 {
        261
    } else if c == 924 {
        262
    } else if c == 921 {
        263
    } else if c == 925 {
        264
    } else if c == 922 {
        265
    } else if c == 926 {
        266
    } else if c == 923 {
        267
    } else if c == 927 {
        268
    } else if c == 930 {
        269
    } else if c == 934 {
        270
    } else if c == 931 {
        271
    } else if c == 935 {
        272
    } else if c == 932 {
        273
    } else if c == 936 {
        274
    } else if c == 933 {
        275
    } else if c == 937 {
        276
    } else if c == 940 {
        277
    } else if c == 944 {
        278
    } else if c == 941 {
        279
    } else if c == 945 {
        280
    } else if c == 942 {
        281
    } else if c == 946 {
        282
    } else if c == 943 {
        283
    } else if c == 947 {
        284
    } else {
        -1
    }
}

/// Every slug is lowercase and keyed back to its own position.
#[verifier::rlimit(100)]
proof fn lemma_pixel_format_slug_keys()
    ensures
        forall|i: int| 0 <= i < pixel_format_slugs().len() ==> slug_of_key(text_key(#[trigger] pixel_format_slugs()[i])) == i
            && lower(pixel_format_slugs()[i]) == pixel_format_slugs()[i],
{
    reveal_strlit("none");
    reveal_strlit("yuv420p");
    reveal_strlit("yuv422p");
    reveal_strlit("yuv440p");
    reveal_strlit("yuv444p");
    reveal_strlit("yuv411p");
    reveal_strlit("yuv410p");
    reveal_strlit("yuvj411p");
    reveal_strlit("yuvj420p");
    reveal_strlit("yuvj422p");
    reveal_strlit("yuvj440p");
    reveal_strlit("yuvj444p");
    reveal_strlit("yuv420p9le");
    reveal_strlit("yuv420p9be");
    reveal_strlit("yuv420p10le");
    reveal_strlit("yuv420p10be");
    reveal_strlit("yuv420p12le");
    reveal_strlit("yuv420p12be");
    reveal_strlit("yuv420p14le");
    reveal_strlit("yuv420p14be");
    reveal_strlit("yuv420p16le");
    reveal_strlit("yuv420p16be");
    reveal_strlit("yuv422p9le");
    reveal_strlit("yuv422p9be");
    reveal_strlit("yuv422p10le");
    reveal_strlit("yuv422p10be");
    reveal_strlit("yuv422p12le");
    reveal_strlit("yuv422p12be");
    reveal_strlit("yuv422p14le");
    reveal_strlit("yuv422p14be");
    reveal_strlit("yuv422p16le");
    reveal_strlit("yuv422p16be");
    reveal_strlit("yuv440p10le");
    reveal_strlit("yuv440p10be");
    reveal_strlit("yuv440p12le");
    reveal_strlit("yuv440p12be");
    reveal_strlit("yuv444p9le");
    reveal_strlit("yuv444p9be");
    reveal_strlit("yuv444p10le");
    reveal_strlit("yuv444p10be");
    reveal_strlit("yuv444p12le");
    reveal_strlit("yuv444p12be");
    reveal_strlit("yuv444p14le");
    reveal_strlit("yuv444p14be");
    reveal_strlit("yuv444p16le");
    reveal_strlit("yuv444p16be");
    reveal_strlit("yuv444p10msble");
    reveal_strlit("yuv444p10msbbe");
    reveal_strlit("yuv444p12msble");
    reveal_strlit("yuv444p12msbbe");
    reveal_strlit("yuva420p");
    reveal_strlit("yuva422p");
    reveal_strlit("yuva444p");
    reveal_strlit("yuva420p9le");
    reveal_strlit("yuva420p9be");
    reveal_strlit("yuva422p9le");
    reveal_strlit("yuva422p9be");
    reveal_strlit("yuva444p9le");
    reveal_strlit("yuva444p9be");
    reveal_strlit("yuva420p10le");
    reveal_strlit("yuva420p10be");
    reveal_strlit("yuva422p10le");
    reveal_strlit("yuva422p10be");
    reveal_strlit("yuva444p10le");
    reveal_strlit("yuva444p10be");
    reveal_strlit("yuva420p12le");
    reveal_strlit("yuva420p12be");
    reveal_strlit("yuva422p12le");
    reveal_strlit("yuva422p12be");
    reveal_strlit("yuva444p12le");
    reveal_strlit("yuva444p12be");
    reveal_strlit("yuva444p14le");
    reveal_strlit("yuva420p16le");
    reveal_strlit("yuva420p16be");
    reveal_strlit("yuva422p16le");
    reveal_strlit("yuva422p16be");
    reveal_strlit("yuva444p16le");
    reveal_strlit("yuva444p16be");
    reveal_strlit("nv12");
    reveal_strlit("nv21");
    reveal_strlit("nv16");
    reveal_strlit("nv24");
    reveal_strlit("nv42");
    reveal_strlit("nv20le");
    reveal_strlit("nv20be");
    reveal_strlit("p010le");
    reveal_strlit("p010be");
    reveal_strlit("p012le");
    reveal_strlit("p012be");
    reveal_strlit("p016le");
    reveal_strlit("p016be");
    reveal_strlit("p210le");
    reveal_strlit("p210be");
    reveal_strlit("p212le");
    reveal_strlit("p212be");
    reveal_strlit("p216le");
    reveal_strlit("p216be");
    reveal_strlit("p410le");
    reveal_strlit("p410be");
    reveal_strlit("p412le");
    reveal_strlit("p412be");
    reveal_strlit("p416le");
    reveal_strlit("p416be");
    reveal_strlit("yuyv422");
    reveal_strlit("uyvy422");
    reveal_strlit("yvyu422");
    reveal_strlit("uyyvyy411");
    reveal_strlit("y210le");
    reveal_strlit("y210be");
    reveal_strlit("y212le");
    reveal_strlit("y212be");
    reveal_strlit("y216le");
    reveal_strlit("y216be");
    reveal_strlit("v210");
    reveal_strlit("v410le");
    reveal_strlit("v410be");
    reveal_strlit("xv30le");
    reveal_strlit("xv30be");
    reveal_strlit("v30xle");
    reveal_strlit("v30xbe");
    reveal_strlit("xv36le");
    reveal_strlit("xv36be");
    reveal_strlit("xv48le");
    reveal_strlit("xv48be");
    reveal_strlit("vuya");
    reveal_strlit("vuyx");
    reveal_strlit("ayuv");
    reveal_strlit("ayuv64le");
    reveal_strlit("ayuv64be");
    reveal_strlit("uyva");
    reveal_strlit("vyu444");
    reveal_strlit("xyz12le");
    reveal_strlit("xyz12be");
    reveal_strlit("rgb24");
    reveal_strlit("bgr24");
    reveal_strlit("rgba");
    reveal_strlit("bgra");
    reveal_strlit("argb");
    reveal_strlit("abgr");
    reveal_strlit("rgb0");
    reveal_strlit("bgr0");
    reveal_strlit("0rgb");
    reveal_strlit("0bgr");
    reveal_strlit("x2rgb10le");
    reveal_strlit("x2rgb10be");
    reveal_strlit("x2bgr10le");
    reveal_strlit("x2bgr10be");
    reveal_strlit("gbr24p");
    reveal_strlit("rgb4");
    reveal_strlit("rgb4_byte");
    reveal_strlit("rgb8");
    reveal_strlit("bgr4");
    reveal_strlit("bgr4_byte");
    reveal_strlit("bgr8");
    reveal_strlit("rgb444le");
    reveal_strlit("rgb444be");
    reveal_strlit("bgr444le");
    reveal_strlit("bgr444be");
    reveal_strlit("rgb555le");
    reveal_strlit("rgb555be");
    reveal_strlit("bgr555le");
    reveal_strlit("bgr555be");
    reveal_strlit("rgb565le");
    reveal_strlit("rgb565be");
    reveal_strlit("bgr565le");
    reveal_strlit("bgr565be");
    reveal_strlit("rgb48le");
    reveal_strlit("rgb48be");
    reveal_strlit("bgr48le");
    reveal_strlit("bgr48be");
    reveal_strlit("rgba64le");
    reveal_strlit("rgba64be");
    reveal_strlit("bgra64le");
    reveal_strlit("bgra64be");
    reveal_strlit("rgb96le");
    reveal_strlit("rgb96be");
    reveal_strlit("rgba128le");
    reveal_strlit("rgba128be");
    reveal_strlit("rgbf16le");
    reveal_strlit("rgbf16be");
    reveal_strlit("rgbf32le");
    reveal_strlit("rgbf32be");
    reveal_strlit("rgbaf16le");
    reveal_strlit("rgbaf16be");
    reveal_strlit("rgbaf32le");
    reveal_strlit("rgbaf32be");
    reveal_strlit("gbrp");
    reveal_strlit("gbrp9le");
    reveal_strlit("gbrp9be");
    reveal_strlit("gbrp10le");
    reveal_strlit("gbrp10be");
    reveal_strlit("gbrp10msble");
    reveal_strlit("gbrp10msbbe");
    reveal_strlit("gbrp12le");
    reveal_strlit("gbrp12be");
    reveal_strlit("gbrp12msble");
    reveal_strlit("gbrp12msbbe");
    reveal_strlit("gbrp14le");
    reveal_strlit("gbrp14be");
    reveal_strlit("gbrp16le");
    reveal_strlit("gbrp16be");
    reveal_strlit("gbrpf16le");
    reveal_strlit("gbrpf16be");
    reveal_strlit("gbrpf32le");
    reveal_strlit("gbrpf32be");
    reveal_strlit("gbrap");
    reveal_strlit("gbrap10le");
    reveal_strlit("gbrap10be");
    reveal_strlit("gbrap12le");
    reveal_strlit("gbrap12be");
    reveal_strlit("gbrap14le");
    reveal_strlit("gbrap14be");
    reveal_strlit("gbrap16le");
    reveal_strlit("gbrap16be");
    reveal_strlit("gbrap32le");
    reveal_strlit("gbrap32be");
    reveal_strlit("gbrapf16le");
    reveal_strlit("gbrapf16be");
    reveal_strlit("gbrapf32le");
    reveal_strlit("gbrapf32be");
    reveal_strlit("gray8");
    reveal_strlit("gray8a");
    reveal_strlit("gray9le");
    reveal_strlit("gray9be");
    reveal_strlit("gray10le");
    reveal_strlit("gray10be");
    reveal_strlit("gray12le");
    reveal_strlit("gray12be");
    reveal_strlit("gray14le");
    reveal_strlit("gray14be");
    reveal_strlit("gray16le");
    reveal_strlit("gray16be");
    reveal_strlit("gray32le");
    reveal_strlit("gray32be");
    reveal_strlit("grayf32le");
    reveal_strlit("grayf32be");
    reveal_strlit("grayf16le");
    reveal_strlit("grayf16be");
    reveal_strlit("ya8");
    reveal_strlit("y400a");
    reveal_strlit("ya16le");
    reveal_strlit("ya16be");
    reveal_strlit("yaf16le");
    reveal_strlit("yaf16be");
    reveal_strlit("yaf32le");
    reveal_strlit("yaf32be");
    reveal_strlit("monowhite");
    reveal_strlit("monoblack");
    reveal_strlit("pal8");
    reveal_strlit("bayer_bggr8");
    reveal_strlit("bayer_rggb8");
    reveal_strlit("bayer_gbrg8");
    reveal_strlit("bayer_grbg8");
    reveal_strlit("bayer_bggr10le");
    reveal_strlit("bayer_bggr10be");
    reveal_strlit("bayer_rggb10le");
    reveal_strlit("bayer_rggb10be");
    reveal_strlit("bayer_gbrg10le");
    reveal_strlit("bayer_gbrg10be");
    reveal_strlit("bayer_grbg10le");
    reveal_strlit("bayer_grbg10be");
    reveal_strlit("bayer_bggr12le");
    reveal_strlit("bayer_bggr12be");
    reveal_strlit("bayer_rggb12le");
    reveal_strlit("bayer_rggb12be");
    reveal_strlit("bayer_gbrg12le");
    reveal_strlit("bayer_gbrg12be");
    reveal_strlit("bayer_grbg12le");
    reveal_strlit("bayer_grbg12be");
    reveal_strlit("bayer_bggr14le");
    reveal_strlit("bayer_bggr14be");
    reveal_strlit("bayer_rggb14le");
    reveal_strlit("bayer_rggb14be");
    reveal_strlit("bayer_gbrg14le");
    reveal_strlit("bayer_gbrg14be");
    reveal_strlit("bayer_grbg14le");
    reveal_strlit("bayer_grbg14be");
    reveal_strlit("bayer_bggr16le");
    reveal_strlit("bayer_bggr16be");
    reveal_strlit("bayer_rggb16le");
    reveal_strlit("bayer_rggb16be");
    reveal_strlit("bayer_gbrg16le");
    reveal_strlit("bayer_gbrg16be");
    reveal_strlit("bayer_grbg16le");
    reveal_strlit("bayer_grbg16be");
    let s = pixel_format_slugs();
    assert(s.len() == 285);
    assert forall|i: int| 0 <= i < s.len() implies slug_of_key(text_key(#[trigger] s[i])) == i && lower(s[i]) == s[i] by {
        if i == 0 {
            assert(text_key(s[0]) == 1718579311);
            assert(lower(s[0]) =~= s[0]);
        } else if i == 1 {
            assert(text_key(s[1]) == 31860768378418810);
            assert(lower(s[1]) =~= s[1]);
        } else if i == 2 {
            assert(text_key(s[2]) == 31862967401674362);
            assert(lower(s[2]) =~= s[2]);
        } else if i == 3 {
            assert(text_key(s[3]) == 31860776968353402);
            assert(lower(s[3]) =~= s[3]);
        } else if i == 4 {
            assert(text_key(s[4]) == 31865175014864506);
            assert(lower(s[4]) =~= s[4]);
        } else if i == 5 {
            assert(text_key(s[5]) == 31861863595079290);
            assert(lower(s[5]) =~= s[5]);
        } else if i == 6 {
            assert(text_key(s[6]) == 31860764083451514);
            assert(lower(s[6]) =~= s[6]);
        } else if i == 7 {
            assert(text_key(s[7]) == 8156637080139036282);
            assert(lower(s[7]) =~= s[7]);
        } else if i == 8 {
            assert(text_key(s[8]) == 8156356704673953402);
            assert(lower(s[8]) =~= s[8]);
        } else if i == 9 {
            assert(text_key(s[9]) == 8156919654627374714);
            assert(lower(s[9]) =~= s[9]);
        } else if i == 10 {
            assert(text_key(s[10]) == 8156358903697208954);
            assert(lower(s[10]) =~= s[10]);
        } else if i == 11 {
            assert(text_key(s[11]) == 8157484803604051578);
            assert(lower(s[11]) =~= s[11]);
        } else if i == 12 {
            assert(text_key(s[12]) == 483696287557960731162234);
            assert(lower(s[12]) =~= s[12]);
        } else if i == 13 {
            assert(text_key(s[13]) == 483511820117223635646074);
            assert(lower(s[13]) =~= s[13]);
        } else if i == 14 {
            assert(text_key(s[14]) == 123826079072525049191167610);
            assert(lower(s[14]) =~= s[14]);
        } else if i == 15 {
            assert(text_key(s[15]) == 123778855407696352739030650);
            assert(lower(s[15]) =~= s[15]);
        } else if i == 16 {
            assert(text_key(s[16]) == 123826115966013196610270842);
            assert(lower(s[16]) =~= s[16]);
        } else if i == 17 {
            assert(text_key(s[17]) == 123778892301184500158133882);
            assert(lower(s[17]) =~= s[17]);
        } else if i == 18 {
            assert(text_key(s[18]) == 123826152859501344029374074);
            assert(lower(s[18]) =~= s[18]);
        } else if i == 19 {
            assert(text_key(s[19]) == 123778929194672647577237114);
            assert(lower(s[19]) =~= s[19]);
        } else if i == 20 {
            assert(text_key(s[20]) == 123826189752989491448477306);
            assert(lower(s[20]) =~= s[20]);
        } else if i == 21 {
            assert(text_key(s[21]) == 123778966088160794996340346);
            assert(lower(s[21]) =~= s[21]);
        } else if i == 22 {
            assert(text_key(s[22]) == 483696287560159754417786);
            assert(lower(s[22]) =~= s[22]);
        } else if i == 23 {
            assert(text_key(s[23]) == 483511820119422658901626);
            assert(lower(s[23]) =~= s[23]);
        } else if i == 24 {
            assert(text_key(s[24]) == 123826079072527248214423162);
            assert(lower(s[24]) =~= s[24]);
        } else if i == 25 {
            assert(text_key(s[25]) == 123778855407698551762286202);
            assert(lower(s[25]) =~= s[25]);
        } else if i == 26 {
            assert(text_key(s[26]) == 123826115966015395633526394);
            assert(lower(s[26]) =~= s[26]);
        } else if i == 27 {
            assert(text_key(s[27]) == 123778892301186699181389434);
            assert(lower(s[27]) =~= s[27]);
        } else if i == 28 {
            assert(text_key(s[28]) == 123826152859503543052629626);
            assert(lower(s[28]) =~= s[28]);
        } else if i == 29 {
            assert(text_key(s[29]) == 123778929194674846600492666);
            assert(lower(s[29]) =~= s[29]);
        } else if i == 30 {
            assert(text_key(s[30]) == 123826189752991690471732858);
            assert(lower(s[30]) =~= s[30]);
        } else if i == 31 {
            assert(text_key(s[31]) == 123778966088162994019595898);
            assert(lower(s[31]) =~= s[31]);
        } else if i == 32 {
            assert(text_key(s[32]) == 123826079072525057781102202);
            assert(lower(s[32]) =~= s[32]);
        } else if i == 33 {
            assert(text_key(s[33]) == 123778855407696361328965242);
            assert(lower(s[33]) =~= s[33]);
        } else if i == 34 {
            assert(text_key(s[34]) == 123826115966013205200205434);
            assert(lower(s[34]) =~= s[34]);
        } else if i == 35 {
            assert(text_key(s[35]) == 123778892301184508748068474);
            assert(lower(s[35]) =~= s[35]);
        } else if i == 36 {
            assert(text_key(s[36]) == 483696287562367367607930);
            assert(lower(s[36]) =~= s[36]);
        } else if i == 37 {
            assert(text_key(s[37]) == 483511820121630272091770);
            assert(lower(s[37]) =~= s[37]);
        } else if i == 38 {
            assert(text_key(s[38]) == 123826079072529455827613306);
            assert(lower(s[38]) =~= s[38]);
        } else if i == 39 {
            assert(text_key(s[39]) == 123778855407700759375476346);
            assert(lower(s[39]) =~= s[39]);
        } else if i == 40 {
            assert(text_key(s[40]) == 123826115966017603246716538);
            assert(lower(s[40]) =~= s[40]);
        } else if i == 41 {
            assert(text_key(s[41]) == 123778892301188906794579578);
            assert(lower(s[41]) =~= s[41]);
        } else if i == 42 {
            assert(text_key(s[42]) == 123826152859505750665819770);
            assert(lower(s[42]) =~= s[42]);
        } else if i == 43 {
            assert(text_key(s[43]) == 123778929194677054213682810);
            assert(lower(s[43]) =~= s[43]);
        } else if i == 44 {
            assert(text_key(s[44]) == 123826189752993898084923002);
            assert(lower(s[44]) =~= s[44]);
        } else if i == 45 {
            assert(text_key(s[45]) == 123778966088165201632786042);
            assert(lower(s[45]) =~= s[45]);
        } else if i == 46 {
            assert(text_key(s[46]) == 2077472429058260422819253593798266);
            assert(lower(s[46]) =~= s[46]);
        } else if i == 47 {
            assert(text_key(s[47]) == 2076680147433117779443318154294906);
            assert(lower(s[47]) =~= s[47]);
        } else if i == 48 {
            assert(text_key(s[48]) == 2077472429058297316307401012901498);
            assert(lower(s[48]) =~= s[48]);
        } else if i == 49 {
            assert(text_key(s[49]) == 2076680147433154672931465573398138);
            assert(lower(s[49]) =~= s[49]);
        } else if i == 50 {
            assert(text_key(s[50]) == 8156356704522958458);
            assert(lower(s[50]) =~= s[50]);
        } else if i == 51 {
            assert(text_key(s[51]) == 8156919654476379770);
            assert(lower(s[51]) =~= s[51]);
        } else if i == 52 {
            assert(text_key(s[52]) == 8157484803453056634);
            assert(lower(s[52]) =~= s[52]);
        } else if i == 53 {
            assert(text_key(s[53]) == 123826249614837946825275002);
            assert(lower(s[53]) =~= s[53]);
        } else if i == 54 {
            assert(text_key(s[54]) == 123779025950009250373138042);
            assert(lower(s[54]) =~= s[54]);
        } else if i == 55 {
            assert(text_key(s[55]) == 123826249615400896778696314);
            assert(lower(s[55]) =~= s[55]);
        } else if i == 56 {
            assert(text_key(s[56]) == 123779025950572200326559354);
            assert(lower(s[56]) =~= s[56]);
        } else if i == 57 {
            assert(text_key(s[57]) == 123826249615966045755373178);
            assert(lower(s[57]) =~= s[57]);
        } else if i == 58 {
            assert(text_key(s[58]) == 123779025951137349303236218);
            assert(lower(s[58]) =~= s[58]);
        } else if i == 59 {
            assert(text_key(s[59]) == 31699476242566412592586651258);
            assert(lower(s[59]) =~= s[59]);
        } else if i == 60 {
            assert(text_key(s[60]) == 31687386984370266300839589498);
            assert(lower(s[60]) =~= s[60]);
        } else if i == 61 {
            assert(text_key(s[61]) == 31699476242566975542540072570);
            assert(lower(s[61]) =~= s[61]);
        } else if i == 62 {
            assert(text_key(s[62]) == 31687386984370829250793010810);
            assert(lower(s[62]) =~= s[62]);
        } else if i == 63 {
            assert(text_key(s[63]) == 31699476242567540691516749434);
            assert(lower(s[63]) =~= s[63]);
        } else if i == 64 {
            assert(text_key(s[64]) == 31687386984371394399769687674);
            assert(lower(s[64]) =~= s[64]);
        } else if i == 65 {
            assert(text_key(s[65]) == 31699485687299378331877078650);
            assert(lower(s[65]) =~= s[65]);
        } else if i == 66 {
            assert(text_key(s[66]) == 31687396429103232040130016890);
            assert(lower(s[66]) =~= s[66]);
        } else if i == 67 {
            assert(text_key(s[67]) == 31699485687299941281830499962);
            assert(lower(s[67]) =~= s[67]);
        } else if i == 68 {
            assert(text_key(s[68]) == 31687396429103794990083438202);
            assert(lower(s[68]) =~= s[68]);
        } else if i == 69 {
            assert(text_key(s[69]) == 31699485687300506430807176826);
            assert(lower(s[69]) =~= s[69]);
        } else if i == 70 {
            assert(text_key(s[70]) == 31687396429104360139060115066);
            assert(lower(s[70]) =~= s[70]);
        } else if i == 71 {
            assert(text_key(s[71]) == 31699495132033472170097604218);
            assert(lower(s[71]) =~= s[71]);
        } else if i == 72 {
            assert(text_key(s[72]) == 31699504576765309810457933434);
            assert(lower(s[72]) =~= s[72]);
        } else if i == 73 {
            assert(text_key(s[73]) == 31687415318569163518710871674);
            assert(lower(s[73]) =~= s[73]);
        } else if i == 74 {
            assert(text_key(s[74]) == 31699504576765872760411354746);
            assert(lower(s[74]) =~= s[74]);
        } else if i == 75 {
            assert(text_key(s[75]) == 31687415318569726468664292986);
            assert(lower(s[75]) =~= s[75]);
        } else if i == 76 {
            assert(text_key(s[76]) == 31699504576766437909388031610);
            assert(lower(s[76]) =~= s[76]);
        } else if i == 77 {
            assert(text_key(s[77]) == 31687415318570291617640969850);
            assert(lower(s[77]) =~= s[77]);
        } else if i == 78 {
            assert(text_key(s[78]) == 858945391);
            assert(lower(s[78]) =~= s[78]);
        } else if i == 79 {
            assert(text_key(s[79]) == 842233711);
            assert(lower(s[79]) =~= s[79]);
        } else if i == 80 {
            assert(text_key(s[80]) == 926054255);
            assert(lower(s[80]) =~= s[80]);
        } else if i == 81 {
            assert(text_key(s[81]) == 892565359);
            assert(lower(s[81]) =~= s[81]);
        } else if i == 82 {
            assert(text_key(s[82]) == 859141999);
            assert(lower(s[82]) =~= s[82]);
        } else if i == 83 {
            assert(text_key(s[83]) == 112619162924911);
            assert(lower(s[83]) =~= s[83]);
        } else if i == 84 {
            assert(text_key(s[84]) == 112576213251951);
            assert(lower(s[84]) =~= s[84]);
        } else if i == 85 {
            assert(text_key(s[85]) == 112619162841457);
            assert(lower(s[85]) =~= s[85]);
        } else if i == 86 {
            assert(text_key(s[86]) == 112576213168497);
            assert(lower(s[86]) =~= s[86]);
        } else if i == 87 {
            assert(text_key(s[87]) == 112619196395889);
            assert(lower(s[87]) =~= s[87]);
        } else if i == 88 {
            assert(text_key(s[88]) == 112576246722929);
            assert(lower(s[88]) =~= s[88]);
        } else if i == 89 {
            assert(text_key(s[89]) == 112619263504753);
            assert(lower(s[89]) =~= s[89]);
        } else if i == 90 {
            assert(text_key(s[90]) == 112576313831793);
            assert(lower(s[90]) =~= s[90]);
        } else if i == 91 {
            assert(text_key(s[91]) == 112619162841969);
            assert(lower(s[91]) =~= s[91]);
        } else if i == 92 {
            assert(text_key(s[92]) == 112576213169009);
            assert(lower(s[92]) =~= s[92]);
        } else if i == 93 {
            assert(text_key(s[93]) == 112619196396401);
            assert(lower(s[93]) =~= s[93]);
        } else if i == 94 {
            assert(text_key(s[94]) == 112576246723441);
            assert(lower(s[94]) =~= s[94]);
        } else if i == 95 {
            assert(text_key(s[95]) == 112619263505265);
            assert(lower(s[95]) =~= s[95]);
        } else if i == 96 {
            assert(text_key(s[96]) == 112576313832305);
            assert(lower(s[96]) =~= s[96]);
        } else if i == 97 {
            assert(text_key(s[97]) == 112619162842481);
            assert(lower(s[97]) =~= s[97]);
        } else if i == 98 {
            assert(text_key(s[98]) == 112576213169521);
            assert(lower(s[98]) =~= s[98]);
        } else if i == 99 {
            assert(text_key(s[99]) == 112619196396913);
            assert(lower(s[99]) =~= s[99]);
        } else if i == 100 {
            assert(text_key(s[100]) == 112576246723953);
            assert(lower(s[100]) =~= s[100]);
        } else if i == 101 {
            assert(text_key(s[101]) == 112619263505777);
            assert(lower(s[101]) =~= s[101]);
        } else if i == 102 {
            assert(text_key(s[102]) == 112576313832817);
            assert(lower(s[102]) =~= s[102]);
        } else if i == 103 {
            assert(text_key(s[103]) == 14411528543041146);
            assert(lower(s[103]) =~= s[103]);
        } else if i == 104 {
            assert(text_key(s[104]) == 14411528593177206);
            assert(lower(s[104]) =~= s[104]);
        } else if i == 105 {
            assert(text_key(s[105]) == 14411528526264186);
            assert(lower(s[105]) =~= s[105]);
        } else if i == 106 {
            assert(text_key(s[106]) == 925955136227548756598);
            assert(lower(s[106]) =~= s[106]);
        } else if i == 107 {
            assert(text_key(s[107]) == 112619162841978);
            assert(lower(s[107]) =~= s[107]);
        } else if i == 108 {
            assert(text_key(s[108]) == 112576213169018);
            assert(lower(s[108]) =~= s[108]);
        } else if i == 109 {
            assert(text_key(s[109]) == 112619196396410);
            assert(lower(s[109]) =~= s[109]);
        } else if i == 110 {
            assert(text_key(s[110]) == 112576246723450);
            assert(lower(s[110]) =~= s[110]);
        } else if i == 111 {
            assert(text_key(s[111]) == 112619263505274);
            assert(lower(s[111]) =~= s[111]);
        } else if i == 112 {
            assert(text_key(s[112]) == 112576313832314);
            assert(lower(s[112]) =~= s[112]);
        } else if i == 113 {
            assert(text_key(s[113]) == 825373559);
            assert(lower(s[113]) =~= s[113]);
        } else if i == 114 {
            assert(text_key(s[114]) == 112619162842487);
            assert(lower(s[114]) =~= s[114]);
        } else if i == 115 {
            assert(text_key(s[115]) == 112576213169527);
            assert(lower(s[115]) =~= s[115]);
        } else if i == 116 {
            assert(text_key(s[116]) == 112619162990457);
            assert(lower(s[116]) =~= s[116]);
        } else if i == 117 {
            assert(text_key(s[117]) == 112576213317497);
            assert(lower(s[117]) =~= s[117]);
        } else if i == 118 {
            assert(text_key(s[118]) == 112620370736247);
            assert(lower(s[118]) =~= s[118]);
        } else if i == 119 {
            assert(text_key(s[119]) == 112577421063287);
            assert(lower(s[119]) =~= s[119]);
        } else if i == 120 {
            assert(text_key(s[120]) == 112619263653753);
            assert(lower(s[120]) =~= s[120]);
        } else if i == 121 {
            assert(text_key(s[121]) == 112576313980793);
            assert(lower(s[121]) =~= s[121]);
        } else if i == 122 {
            assert(text_key(s[122]) == 112619297273721);
            assert(lower(s[122]) =~= s[122]);
        } else if i == 123 {
            assert(text_key(s[123]) == 112576347600761);
            assert(lower(s[123]) =~= s[123]);
        } else if i == 124 {
            assert(text_key(s[124]) == 1652192887);
            assert(lower(s[124]) =~= s[124]);
        } else if i == 125 {
            assert(text_key(s[125]) == 2038068855);
            assert(lower(s[125]) =~= s[125]);
        } else if i == 126 {
            assert(text_key(s[126]) == 2004253282);
            assert(lower(s[126]) =~= s[126]);
        } else if i == 127 {
            assert(text_key(s[127]) == 7380613876673837666);
            assert(lower(s[127]) =~= s[127]);
        } else if i == 128 {
            assert(text_key(s[128]) == 7377799126906731106);
            assert(lower(s[128]) =~= s[128]);
        } else if i == 129 {
            assert(text_key(s[129]) == 1651997302);
            assert(lower(s[129]) =~= s[129]);
        } else if i == 130 {
            assert(text_key(s[130]) == 58502646495863);
            assert(lower(s[130]) =~= s[130]);
        } else if i == 131 {
            assert(text_key(s[131]) == 28830514282199673);
            assert(lower(s[131]) =~= s[131]);
        } else if i == 132 {
            assert(text_key(s[132]) == 28819519165921913);
            assert(lower(s[132]) =~= s[132]);
        } else if i == 133 {
            assert(text_key(s[133]) == 228495419507);
            assert(lower(s[133]) =~= s[133]);
        } else if i == 134 {
            assert(text_key(s[134]) == 228496468067);
            assert(lower(s[134]) =~= s[134]);
        } else if i == 135 {
            assert(text_key(s[135]) == 1650681971);
            assert(lower(s[135]) =~= s[135]);
        } else if i == 136 {
            assert(text_key(s[136]) == 1651730531);
            assert(lower(s[136]) =~= s[136]);
        } else if i == 137 {
            assert(text_key(s[137]) == 1667789666);
            assert(lower(s[137]) =~= s[137]);
        } else if i == 138 {
            assert(text_key(s[138]) == 1936221026);
            assert(lower(s[138]) =~= s[138]);
        } else if i == 139 {
            assert(text_key(s[139]) == 828598387);
            assert(lower(s[139]) =~= s[139]);
        } else if i == 140 {
            assert(text_key(s[140]) == 829646947);
            assert(lower(s[140]) =~= s[140]);
        } else if i == 141 {
            assert(text_key(s[141]) == 1667789617);
            assert(lower(s[141]) =~= s[141]);
        } else if i == 142 {
            assert(text_key(s[142]) == 1936220977);
            assert(lower(s[142]) =~= s[142]);
        } else if i == 143 {
            assert(text_key(s[143]) == 1889436020944902763385);
            assert(lower(s[143]) =~= s[143]);
        } else if i == 144 {
            assert(text_key(s[144]) == 1888715445004523484025);
            assert(lower(s[144]) =~= s[144]);
        } else if i == 145 {
            assert(text_key(s[145]) == 1889436021013621191545);
            assert(lower(s[145]) =~= s[145]);
        } else if i == 146 {
            assert(text_key(s[146]) == 1888715445073241912185);
            assert(lower(s[146]) =~= s[146]);
        } else if i == 147 {
            assert(text_key(s[147]) == 124473310405480);
            assert(lower(s[147]) =~= s[147]);
        } else if i == 148 {
            assert(text_key(s[148]) == 895707251);
            assert(lower(s[148]) =~= s[148]);
        } else if i == 149 {
            assert(text_key(s[149]) == 1890033083232834250867);
            assert(lower(s[149]) =~= s[149]);
        } else if i == 150 {
            assert(text_key(s[150]) == 962816115);
            assert(lower(s[150]) =~= s[150]);
        } else if i == 151 {
            assert(text_key(s[151]) == 896755811);
            assert(lower(s[151]) =~= s[151]);
        } else if i == 152 {
            assert(text_key(s[152]) == 1890033083232835299427);
            assert(lower(s[152]) =~= s[152]);
        } else if i == 153 {
            assert(text_key(s[153]) == 963864675);
            assert(lower(s[153]) =~= s[153]);
        } else if i == 154 {
            assert(text_key(s[154]) == 7380613866975357043);
            assert(lower(s[154]) =~= s[154]);
        } else if i == 155 {
            assert(text_key(s[155]) == 7377799117208250483);
            assert(lower(s[155]) =~= s[155]);
        } else if i == 156 {
            assert(text_key(s[156]) == 7380613866976405603);
            assert(lower(s[156]) =~= s[156]);
        } else if i == 157 {
            assert(text_key(s[157]) == 7377799117209299043);
            assert(lower(s[157]) =~= s[157]);
        } else if i == 158 {
            assert(text_key(s[158]) == 7380614970798729331);
            assert(lower(s[158]) =~= s[158]);
        } else if i == 159 {
            assert(text_key(s[159]) == 7377800221031622771);
            assert(lower(s[159]) =~= s[159]);
        } else if i == 160 {
            assert(text_key(s[160]) == 7380614970799777891);
            assert(lower(s[160]) =~= s[160]);
        } else if i == 161 {
            assert(text_key(s[161]) == 7377800221032671331);
            assert(lower(s[161]) =~= s[161]);
        } else if i == 162 {
            assert(text_key(s[162]) == 7380614975093696627);
            assert(lower(s[162]) =~= s[162]);
        } else if i == 163 {
            assert(text_key(s[163]) == 7377800225326590067);
            assert(lower(s[163]) =~= s[163]);
        } else if i == 164 {
            assert(text_key(s[164]) == 7380614975094745187);
            assert(lower(s[164]) =~= s[164]);
        } else if i == 165 {
            assert(text_key(s[165]) == 7377800225327638627);
            assert(lower(s[165]) =~= s[165]);
        } else if i == 166 {
            assert(text_key(s[166]) == 28830540100757619);
            assert(lower(s[166]) =~= s[166]);
        } else if i == 167 {
            assert(text_key(s[167]) == 28819544984479859);
            assert(lower(s[167]) =~= s[167]);
        } else if i == 168 {
            assert(text_key(s[168]) == 28830540101806179);
            assert(lower(s[168]) =~= s[168]);
        } else if i == 169 {
            assert(text_key(s[169]) == 28819544985528419);
            assert(lower(s[169]) =~= s[169]);
        } else if i == 170 {
            assert(text_key(s[170]) == 7380613876320266355);
            assert(lower(s[170]) =~= s[170]);
        } else if i == 171 {
            assert(text_key(s[171]) == 7377799126553159795);
            assert(lower(s[171]) =~= s[171]);
        } else if i == 172 {
            assert(text_key(s[172]) == 7380613876321314915);
            assert(lower(s[172]) =~= s[172]);
        } else if i == 173 {
            assert(text_key(s[173]) == 7377799126554208355);
            assert(lower(s[173]) =~= s[173]);
        } else if i == 174 {
            assert(text_key(s[174]) == 28830531594709107);
            assert(lower(s[174]) =~= s[174]);
        } else if i == 175 {
            assert(text_key(s[175]) == 28819536478431347);
            assert(lower(s[175]) =~= s[175]);
        } else if i == 176 {
            assert(text_key(s[176]) == 1889438273633672980595);
            assert(lower(s[176]) =~= s[176]);
        } else if i == 177 {
            assert(text_key(s[177]) == 1888717697693293701235);
            assert(lower(s[177]) =~= s[177]);
        } else if i == 178 {
            assert(text_key(s[178]) == 7380616053952571507);
            assert(lower(s[178]) =~= s[178]);
        } else if i == 179 {
            assert(text_key(s[179]) == 7377801304185464947);
            assert(lower(s[179]) =~= s[179]);
        } else if i == 180 {
            assert(text_key(s[180]) == 7380611664495994995);
            assert(lower(s[180]) =~= s[180]);
        } else if i == 181 {
            assert(text_key(s[181]) == 7377796914728888435);
            assert(lower(s[181]) =~= s[181]);
        } else if i == 182 {
            assert(text_key(s[182]) == 1889437709811841198195);
            assert(lower(s[182]) =~= s[182]);
        } else if i == 183 {
            assert(text_key(s[183]) == 1888717133871461918835);
            assert(lower(s[183]) =~= s[183]);
        } else if i == 184 {
            assert(text_key(s[184]) == 1889436586110957611123);
            assert(lower(s[184]) =~= s[184]);
        } else if i == 185 {
            assert(text_key(s[185]) == 1888716010170578331763);
            assert(lower(s[185]) =~= s[185]);
        } else if i == 186 {
            assert(text_key(s[186]) == 1903387496);
            assert(lower(s[186]) =~= s[186]);
        } else if i == 187 {
            assert(text_key(s[187]) == 28830545403405160);
            assert(lower(s[187]) =~= s[187]);
        } else if i == 188 {
            assert(text_key(s[188]) == 28819550287127400);
            assert(lower(s[188]) =~= s[188]);
        } else if i == 189 {
            assert(text_key(s[189]) == 7380609457051624296);
            assert(lower(s[189]) =~= s[189]);
        } else if i == 190 {
            assert(text_key(s[190]) == 7377794707284517736);
            assert(lower(s[190]) =~= s[190]);
        } else if i == 191 {
            assert(text_key(s[191]) == 123827006164685512953258856);
            assert(lower(s[191]) =~= s[191]);
        } else if i == 192 {
            assert(text_key(s[192]) == 123779782499856816501121896);
            assert(lower(s[192]) =~= s[192]);
        } else if i == 193 {
            assert(text_key(s[193]) == 7380611656074879848);
            assert(lower(s[193]) =~= s[193]);
        } else if i == 194 {
            assert(text_key(s[194]) == 7377796906307773288);
            assert(lower(s[194]) =~= s[194]);
        } else if i == 195 {
            assert(text_key(s[195]) == 123827006164687711976514408);
            assert(lower(s[195]) =~= s[195]);
        } else if i == 196 {
            assert(text_key(s[196]) == 123779782499859015524377448);
            assert(lower(s[196]) =~= s[196]);
        } else if i == 197 {
            assert(text_key(s[197]) == 7380613855098135400);
            assert(lower(s[197]) =~= s[197]);
        } else if i == 198 {
            assert(text_key(s[198]) == 7377799105331028840);
            assert(lower(s[198]) =~= s[198]);
        } else if i == 199 {
            assert(text_key(s[199]) == 7380616054121390952);
            assert(lower(s[199]) =~= s[199]);
        } else if i == 200 {
            assert(text_key(s[200]) == 7377801304354284392);
            assert(lower(s[200]) =~= s[200]);
        } else if i == 201 {
            assert(text_key(s[201]) == 1889437709812093903720);
            assert(lower(s[201]) =~= s[201]);
        } else if i == 202 {
            assert(text_key(s[202]) == 1888717133871714624360);
            assert(lower(s[202]) =~= s[202]);
        } else if i == 203 {
            assert(text_key(s[203]) == 1889436586111210316648);
            assert(lower(s[203]) =~= s[203]);
        } else if i == 204 {
            assert(text_key(s[204]) == 1888716010170831037288);
            assert(lower(s[204]) =~= s[204]);
        } else if i == 205 {
            assert(text_key(s[205]) == 486983033704);
            assert(lower(s[205]) =~= s[205]);
        } else if i == 206 {
            assert(text_key(s[206]) == 1889436021004931654504);
            assert(lower(s[206]) =~= s[206]);
        } else if i == 207 {
            assert(text_key(s[207]) == 1888715445064552375144);
            assert(lower(s[207]) =~= s[207]);
        } else if i == 208 {
            assert(text_key(s[208]) == 1889436583954885075816);
            assert(lower(s[208]) =~= s[208]);
        } else if i == 209 {
            assert(text_key(s[209]) == 1888716008014505796456);
            assert(lower(s[209]) =~= s[209]);
        } else if i == 210 {
            assert(text_key(s[210]) == 1889437146904838497128);
            assert(lower(s[210]) =~= s[210]);
        } else if i == 211 {
            assert(text_key(s[211]) == 1888716570964459217768);
            assert(lower(s[211]) =~= s[211]);
        } else if i == 212 {
            assert(text_key(s[212]) == 1889437709854791918440);
            assert(lower(s[212]) =~= s[212]);
        } else if i == 213 {
            assert(text_key(s[213]) == 1888717133914412639080);
            assert(lower(s[213]) =~= s[213]);
        } else if i == 214 {
            assert(text_key(s[214]) == 1889436586153908331368);
            assert(lower(s[214]) =~= s[214]);
        } else if i == 215 {
            assert(text_key(s[215]) == 1888716010213529052008);
            assert(lower(s[215]) =~= s[215]);
        } else if i == 216 {
            assert(text_key(s[216]) == 483696053711895755187048);
            assert(lower(s[216]) =~= s[216]);
        } else if i == 217 {
            assert(text_key(s[217]) == 483511586271158659670888);
            assert(lower(s[217]) =~= s[217]);
        } else if i == 218 {
            assert(text_key(s[218]) == 483695766044469556896616);
            assert(lower(s[218]) =~= s[218]);
        } else if i == 219 {
            assert(text_key(s[219]) == 483511298603732461380456);
            assert(lower(s[219]) =~= s[219]);
        } else if i == 220 {
            assert(text_key(s[220]) == 246866408296);
            assert(lower(s[220]) =~= s[220]);
        } else if i == 221 {
            assert(text_key(s[221]) == 107999005930344);
            assert(lower(s[221]) =~= s[221]);
        } else if i == 222 {
            assert(text_key(s[222]) == 28830545553290088);
            assert(lower(s[222]) =~= s[222]);
        } else if i == 223 {
            assert(text_key(s[223]) == 28819550437012328);
            assert(lower(s[223]) =~= s[223]);
        } else if i == 224 {
            assert(text_key(s[224]) == 7380609457201509224);
            assert(lower(s[224]) =~= s[224]);
        } else if i == 225 {
            assert(text_key(s[225]) == 7377794707434402664);
            assert(lower(s[225]) =~= s[225]);
        } else if i == 226 {
            assert(text_key(s[226]) == 7380611656224764776);
            assert(lower(s[226]) =~= s[226]);
        } else if i == 227 {
            assert(text_key(s[227]) == 7377796906457658216);
            assert(lower(s[227]) =~= s[227]);
        } else if i == 228 {
            assert(text_key(s[228]) == 7380613855248020328);
            assert(lower(s[228]) =~= s[228]);
        } else if i == 229 {
            assert(text_key(s[229]) == 7377799105480913768);
            assert(lower(s[229]) =~= s[229]);
        } else if i == 230 {
            assert(text_key(s[230]) == 7380616054271275880);
            assert(lower(s[230]) =~= s[230]);
        } else if i == 231 {
            assert(text_key(s[231]) == 7377801304504169320);
            assert(lower(s[231]) =~= s[231]);
        } else if i == 232 {
            assert(text_key(s[232]) == 7380611664814699368);
            assert(lower(s[232]) =~= s[232]);
        } else if i == 233 {
            assert(text_key(s[233]) == 7377796915047592808);
            assert(lower(s[233]) =~= s[233]);
        } else if i == 234 {
            assert(text_key(s[234]) == 1889436586111360201576);
            assert(lower(s[234]) =~= s[234]);
        } else if i == 235 {
            assert(text_key(s[235]) == 1888716010170980922216);
            assert(lower(s[235]) =~= s[235]);
        } else if i == 236 {
            assert(text_key(s[236]) == 1889437709812243788648);
            assert(lower(s[236]) =~= s[236]);
        } else if i == 237 {
            assert(text_key(s[237]) == 1888717133871864509288);
            assert(lower(s[237]) =~= s[237]);
        } else if i == 238 {
            assert(text_key(s[238]) == 3760762);
            assert(lower(s[238]) =~= s[238]);
        } else if i == 239 {
            assert(text_key(s[239]) == 421732103546);
            assert(lower(s[239]) =~= s[239]);
        } else if i == 240 {
            assert(text_key(s[240]) == 112619263517306);
            assert(lower(s[240]) =~= s[240]);
        } else if i == 241 {
            assert(text_key(s[241]) == 112576313844346);
            assert(lower(s[241]) =~= s[241]);
        } else if i == 242 {
            assert(text_key(s[242]) == 28830531460751994);
            assert(lower(s[242]) =~= s[242]);
        } else if i == 243 {
            assert(text_key(s[243]) == 28819536344474234);
            assert(lower(s[243]) =~= s[243]);
        } else if i == 244 {
            assert(text_key(s[244]) == 28830514314437242);
            assert(lower(s[244]) =~= s[244]);
        } else if i == 245 {
            assert(text_key(s[245]) == 28819519198159482);
            assert(lower(s[245]) =~= s[245]);
        } else if i == 246 {
            assert(text_key(s[246]) == 1890028586334346506350);
            assert(lower(s[246]) =~= s[246]);
        } else if i == 247 {
            assert(text_key(s[247]) == 1999481824185997553774);
            assert(lower(s[247]) =~= s[247]);
        } else if i == 248 {
            assert(text_key(s[248]) == 963469937);
            assert(lower(s[248]) =~= s[248]);
        } else if i == 249 {
            assert(text_key(s[249]) == 69453769846909389346857571);
            assert(lower(s[249]) =~= s[249]);
        } else if i == 250 {
            assert(text_key(s[250]) == 69378211987687074650808931);
            assert(lower(s[250]) =~= s[250]);
        } else if i == 251 {
            assert(text_key(s[251]) == 69402026370902038748488291);
            assert(lower(s[251]) =~= s[251]);
        } else if i == 252 {
            assert(text_key(s[252]) == 69401732375918364002509411);
            assert(lower(s[252]) =~= s[252]);
        } else if i == 253 {
            assert(text_key(s[253]) == 2077456875043295551555668559946339);
            assert(lower(s[253]) =~= s[253]);
        } else if i == 254 {
            assert(text_key(s[254]) == 2076664593418152908179733120442979);
            assert(lower(s[254]) =~= s[254]);
        } else if i == 255 {
            assert(text_key(s[255]) == 2077456874967737692333353863897699);
            assert(lower(s[255]) =~= s[255]);
        } else if i == 256 {
            assert(text_key(s[256]) == 2076664593342595048957418424394339);
            assert(lower(s[256]) =~= s[256]);
        } else if i == 257 {
            assert(text_key(s[257]) == 2077456874991552075548317961577059);
            assert(lower(s[257]) =~= s[257]);
        } else if i == 258 {
            assert(text_key(s[258]) == 2076664593366409432172382522073699);
            assert(lower(s[258]) =~= s[258]);
        } else if i == 259 {
            assert(text_key(s[259]) == 2077456874991258080564643215598179);
            assert(lower(s[259]) =~= s[259]);
        } else if i == 260 {
            assert(text_key(s[260]) == 2076664593366115437188707776094819);
            assert(lower(s[260]) =~= s[260]);
        } else if i == 261 {
            assert(text_key(s[261]) == 2077457494013315194245806009508451);
            assert(lower(s[261]) =~= s[261]);
        } else if i == 262 {
            assert(text_key(s[262]) == 2076665212388172550869870570005091);
            assert(lower(s[262]) =~= s[262]);
        } else if i == 263 {
            assert(text_key(s[263]) == 2077457493937757335023491313459811);
            assert(lower(s[263]) =~= s[263]);
        } else if i == 264 {
            assert(text_key(s[264]) == 2076665212312614691647555873956451);
            assert(lower(s[264]) =~= s[264]);
        } else if i == 265 {
            assert(text_key(s[265]) == 2077457493961571718238455411139171);
            assert(lower(s[265]) =~= s[265]);
        } else if i == 266 {
            assert(text_key(s[266]) == 2076665212336429074862519971635811);
            assert(lower(s[266]) =~= s[266]);
        } else if i == 267 {
            assert(text_key(s[267]) == 2077457493961277723254780665160291);
            assert(lower(s[267]) =~= s[267]);
        } else if i == 268 {
            assert(text_key(s[268]) == 2076665212336135079878845225656931);
            assert(lower(s[268]) =~= s[268]);
        } else if i == 269 {
            assert(text_key(s[269]) == 2077458112983334836935943459070563);
            assert(lower(s[269]) =~= s[269]);
        } else if i == 270 {
            assert(text_key(s[270]) == 2076665831358192193560008019567203);
            assert(lower(s[270]) =~= s[270]);
        } else if i == 271 {
            assert(text_key(s[271]) == 2077458112907776977713628763021923);
            assert(lower(s[271]) =~= s[271]);
        } else if i == 272 {
            assert(text_key(s[272]) == 2076665831282634334337693323518563);
            assert(lower(s[272]) =~= s[272]);
        } else if i == 273 {
            assert(text_key(s[273]) == 2077458112931591360928592860701283);
            assert(lower(s[273]) =~= s[273]);
        } else if i == 274 {
            assert(text_key(s[274]) == 2076665831306448717552657421197923);
            assert(lower(s[274]) =~= s[274]);
        } else if i == 275 {
            assert(text_key(s[275]) == 2077458112931297365944918114722403);
            assert(lower(s[275]) =~= s[275]);
        } else if i == 276 {
            assert(text_key(s[276]) == 2076665831306154722568982675219043);
            assert(lower(s[276]) =~= s[276]);
        } else if i == 277 {
            assert(text_key(s[277]) == 2077458731953354479626080908632675);
            assert(lower(s[277]) =~= s[277]);
        } else if i == 278 {
            assert(text_key(s[278]) == 2076666450328211836250145469129315);
            assert(lower(s[278]) =~= s[278]);
        } else if i == 279 {
            assert(text_key(s[279]) == 2077458731877796620403766212584035);
            assert(lower(s[279]) =~= s[279]);
        } else if i == 280 {
            assert(text_key(s[280]) == 2076666450252653977027830773080675);
            assert(lower(s[280]) =~= s[280]);
        } else if i == 281 {
            assert(text_key(s[281]) == 2077458731901611003618730310263395);
            assert(lower(s[281]) =~= s[281]);
        } else if i == 282 {
            assert(text_key(s[282]) == 2076666450276468360242794870760035);
            assert(lower(s[282]) =~= s[282]);
        } else if i == 283 {
            assert(text_key(s[283]) == 2077458731901317008635055564284515);
            assert(lower(s[283]) =~= s[283]);
        } else if i == 284 {
            assert(text_key(s[284]) == 2076666450276174365259120124781155);
            assert(lower(s[284]) =~= s[284]);
        }
    }
}

/// Every wire id is keyed back to its own position.
#[verifier::rlimit(100)]
proof fn lemma_pixel_format_codes_keyed()
    ensures
        forall|i: int| 0 <= i < PIXEL_FORMAT_CODES@.len() ==> position_of_code(#[trigger] PIXEL_FORMAT_CODES@[i]) == i,
{
    assert forall|i: int| 0 <= i < PIXEL_FORMAT_CODES@.len() implies position_of_code(#[trigger] PIXEL_FORMAT_CODES@[i]) == i by {
        if i == 0 {
            assert(PIXEL_FORMAT_CODES@[0] == 0);
        } else if i == 1 {
            assert(PIXEL_FORMAT_CODES@[1] == 100);
        } else if i == 2 {
            assert(PIXEL_FORMAT_CODES@[2] == 101);
        } else if i == 3 {
            assert(PIXEL_FORMAT_CODES@[3] == 102);
        } else if i == 4 {
            assert(PIXEL_FORMAT_CODES@[4] == 103);
        } else if i == 5 {
            assert(PIXEL_FORMAT_CODES@[5] == 104);
        } else if i == 6 {
            assert(PIXEL_FORMAT_CODES@[6] == 105);
        } else if i == 7 {
            assert(PIXEL_FORMAT_CODES@[7] == 106);
        } else if i == 8 {
            assert(PIXEL_FORMAT_CODES@[8] == 107);
        } else if i == 9 {
            assert(PIXEL_FORMAT_CODES@[9] == 108);
        } else if i == 10 {
            assert(PIXEL_FORMAT_CODES@[10] == 109);
        } else if i == 11 {
            assert(PIXEL_FORMAT_CODES@[11] == 110);
        } else if i == 12 {
            assert(PIXEL_FORMAT_CODES@[12] == 111);
        } else if i == 13 {
            assert(PIXEL_FORMAT_CODES@[13] == 112);
        } else if i == 14 {
            assert(PIXEL_FORMAT_CODES@[14] == 113);
        } else if i == 15 {
            assert(PIXEL_FORMAT_CODES@[15] == 114);
        } else if i == 16 {
            assert(PIXEL_FORMAT_CODES@[16] == 115);
        } else if i == 17 {
            assert(PIXEL_FORMAT_CODES@[17] == 116);
        } else if i == 18 {
            assert(PIXEL_FORMAT_CODES@[18] == 117);
        } else if i == 19 {
            assert(PIXEL_FORMAT_CODES@[19] == 118);
        } else if i == 20 {
            assert(PIXEL_FORMAT_CODES@[20] == 119);
        } else if i == 21 {
            assert(PIXEL_FORMAT_CODES@[21] == 120);
        } else if i == 22 {
            assert(PIXEL_FORMAT_CODES@[22] == 121);
        } else if i == 23 {
            assert(PIXEL_FORMAT_CODES@[23] == 122);
        } else if i == 24 {
            assert(PIXEL_FORMAT_CODES@[24] == 123);
        } else if i == 25 {
            assert(PIXEL_FORMAT_CODES@[25] == 124);
        } else if i == 26 {
            assert(PIXEL_FORMAT_CODES@[26] == 125);
        } else if i == 27 {
            assert(PIXEL_FORMAT_CODES@[27] == 126);
        } else if i == 28 {
            assert(PIXEL_FORMAT_CODES@[28] == 127);
        } else if i == 29 {
            assert(PIXEL_FORMAT_CODES@[29] == 128);
        } else if i == 30 {
            assert(PIXEL_FORMAT_CODES@[30] == 129);
        } else if i == 31 {
            assert(PIXEL_FORMAT_CODES@[31] == 130);
        } else if i == 32 {
            assert(PIXEL_FORMAT_CODES@[32] == 131);
        } else if i == 33 {
            assert(PIXEL_FORMAT_CODES@[33] == 132);
        } else if i == 34 {
            assert(PIXEL_FORMAT_CODES@[34] == 133);
        } else if i == 35 {
            assert(PIXEL_FORMAT_CODES@[35] == 134);
        } else if i == 36 {
            assert(PIXEL_FORMAT_CODES@[36] == 140);
        } else if i == 37 {
            assert(PIXEL_FORMAT_CODES@[37] == 141);
        } else if i == 38 {
            assert(PIXEL_FORMAT_CODES@[38] == 142);
        } else if i == 39 {
            assert(PIXEL_FORMAT_CODES@[39] == 143);
        } else if i == 40 {
            assert(PIXEL_FORMAT_CODES@[40] == 144);
        } else if i == 41 {
            assert(PIXEL_FORMAT_CODES@[41] == 145);
        } else if i == 42 {
            assert(PIXEL_FORMAT_CODES@[42] == 146);
        } else if i == 43 {
            assert(PIXEL_FORMAT_CODES@[43] == 147);
        } else if i == 44 {
            assert(PIXEL_FORMAT_CODES@[44] == 148);
        } else if i == 45 {
            assert(PIXEL_FORMAT_CODES@[45] == 149);
        } else if i == 46 {
            assert(PIXEL_FORMAT_CODES@[46] == 150);
        } else if i == 47 {
            assert(PIXEL_FORMAT_CODES@[47] == 151);
        } else if i == 48 {
            assert(PIXEL_FORMAT_CODES@[48] == 152);
        } else if i == 49 {
            assert(PIXEL_FORMAT_CODES@[49] == 153);
        } else if i == 50 {
            assert(PIXEL_FORMAT_CODES@[50] == 200);
        } else if i == 51 {
            assert(PIXEL_FORMAT_CODES@[51] == 201);
        } else if i == 52 {
            assert(PIXEL_FORMAT_CODES@[52] == 202);
        } else if i == 53 {
            assert(PIXEL_FORMAT_CODES@[53] == 203);
        } else if i == 54 {
            assert(PIXEL_FORMAT_CODES@[54] == 216);
        } else if i == 55 {
            assert(PIXEL_FORMAT_CODES@[55] == 204);
        } else if i == 56 {
            assert(PIXEL_FORMAT_CODES@[56] == 217);
        } else if i == 57 {
            assert(PIXEL_FORMAT_CODES@[57] == 205);
        } else if i == 58 {
            assert(PIXEL_FORMAT_CODES@[58] == 218);
        } else if i == 59 {
            assert(PIXEL_FORMAT_CODES@[59] == 206);
        } else if i == 60 {
            assert(PIXEL_FORMAT_CODES@[60] == 219);
        } else if i == 61 {
            assert(PIXEL_FORMAT_CODES@[61] == 207);
        } else if i == 62 {
            assert(PIXEL_FORMAT_CODES@[62] == 220);
        } else if i == 63 {
            assert(PIXEL_FORMAT_CODES@[63] == 208);
        } else if i == 64 {
            assert(PIXEL_FORMAT_CODES@[64] == 221);
        } else if i == 65 {
            assert(PIXEL_FORMAT_CODES@[65] == 215);
        } else if i == 66 {
            assert(PIXEL_FORMAT_CODES@[66] == 227);
        } else if i == 67 {
            assert(PIXEL_FORMAT_CODES@[67] == 209);
        } else if i == 68 {
            assert(PIXEL_FORMAT_CODES@[68] == 222);
        } else if i == 69 {
            assert(PIXEL_FORMAT_CODES@[69] == 210);
        } else if i == 70 {
            assert(PIXEL_FORMAT_CODES@[70] == 223);
        } else if i == 71 {
            assert(PIXEL_FORMAT_CODES@[71] == 211);
        } else if i == 72 {
            assert(PIXEL_FORMAT_CODES@[72] == 212);
        } else if i == 73 {
            assert(PIXEL_FORMAT_CODES@[73] == 224);
        } else if i == 74 {
            assert(PIXEL_FORMAT_CODES@[74] == 213);
        } else if i == 75 {
            assert(PIXEL_FORMAT_CODES@[75] == 225);
        } else if i == 76 {
            assert(PIXEL_FORMAT_CODES@[76] == 214);
        } else if i == 77 {
            assert(PIXEL_FORMAT_CODES@[77] == 226);
        } else if i == 78 {
            assert(PIXEL_FORMAT_CODES@[78] == 300);
        } else if i == 79 {
            assert(PIXEL_FORMAT_CODES@[79] == 301);
        } else if i == 80 {
            assert(PIXEL_FORMAT_CODES@[80] == 302);
        } else if i == 81 {
            assert(PIXEL_FORMAT_CODES@[81] == 303);
        } else if i == 82 {
            assert(PIXEL_FORMAT_CODES@[82] == 304);
        } else if i == 83 {
            assert(PIXEL_FORMAT_CODES@[83] == 305);
        } else if i == 84 {
            assert(PIXEL_FORMAT_CODES@[84] == 306);
        } else if i == 85 {
            assert(PIXEL_FORMAT_CODES@[85] == 310);
        } else if i == 86 {
            assert(PIXEL_FORMAT_CODES@[86] == 311);
        } else if i == 87 {
            assert(PIXEL_FORMAT_CODES@[87] == 312);
        } else if i == 88 {
            assert(PIXEL_FORMAT_CODES@[88] == 320);
        } else if i == 89 {
            assert(PIXEL_FORMAT_CODES@[89] == 313);
        } else if i == 90 {
            assert(PIXEL_FORMAT_CODES@[90] == 321);
        } else if i == 91 {
            assert(PIXEL_FORMAT_CODES@[91] == 314);
        } else if i == 92 {
            assert(PIXEL_FORMAT_CODES@[92] == 322);
        } else if i == 93 {
            assert(PIXEL_FORMAT_CODES@[93] == 315);
        } else if i == 94 {
            assert(PIXEL_FORMAT_CODES@[94] == 323);
        } else if i == 95 {
            assert(PIXEL_FORMAT_CODES@[95] == 316);
        } else if i == 96 {
            assert(PIXEL_FORMAT_CODES@[96] == 324);
        } else if i == 97 {
            assert(PIXEL_FORMAT_CODES@[97] == 317);
        } else if i == 98 {
            assert(PIXEL_FORMAT_CODES@[98] == 325);
        } else if i == 99 {
            assert(PIXEL_FORMAT_CODES@[99] == 318);
        } else if i == 100 {
            assert(PIXEL_FORMAT_CODES@[100] == 326);
        } else if i == 101 {
            assert(PIXEL_FORMAT_CODES@[101] == 319);
        } else if i == 102 {
            assert(PIXEL_FORMAT_CODES@[102] == 327);
        } else if i == 103 {
            assert(PIXEL_FORMAT_CODES@[103] == 400);
        } else if i == 104 {
            assert(PIXEL_FORMAT_CODES@[104] == 401);
        } else if i == 105 {
            assert(PIXEL_FORMAT_CODES@[105] == 402);
        } else if i == 106 {
            assert(PIXEL_FORMAT_CODES@[106] == 403);
        } else if i == 107 {
            assert(PIXEL_FORMAT_CODES@[107] == 410);
        } else if i == 108 {
            assert(PIXEL_FORMAT_CODES@[108] == 420);
        } else if i == 109 {
            assert(PIXEL_FORMAT_CODES@[109] == 411);
        } else if i == 110 {
            assert(PIXEL_FORMAT_CODES@[110] == 421);
        } else if i == 111 {
            assert(PIXEL_FORMAT_CODES@[111] == 412);
        } else if i == 112 {
            assert(PIXEL_FORMAT_CODES@[112] == 422);
        } else if i == 113 {
            assert(PIXEL_FORMAT_CODES@[113] == 413);
        } else if i == 114 {
            assert(PIXEL_FORMAT_CODES@[114] == 414);
        } else if i == 115 {
            assert(PIXEL_FORMAT_CODES@[115] == 435);
        } else if i == 116 {
            assert(PIXEL_FORMAT_CODES@[116] == 415);
        } else if i == 117 {
            assert(PIXEL_FORMAT_CODES@[117] == 423);
        } else if i == 118 {
            assert(PIXEL_FORMAT_CODES@[118] == 433);
        } else if i == 119 {
            assert(PIXEL_FORMAT_CODES@[119] == 434);
        } else if i == 120 {
            assert(PIXEL_FORMAT_CODES@[120] == 416);
        } else if i == 121 {
            assert(PIXEL_FORMAT_CODES@[121] == 424);
        } else if i == 122 {
            assert(PIXEL_FORMAT_CODES@[122] == 425);
        } else if i == 123 {
            assert(PIXEL_FORMAT_CODES@[123] == 426);
        } else if i == 124 {
            assert(PIXEL_FORMAT_CODES@[124] == 417);
        } else if i == 125 {
            assert(PIXEL_FORMAT_CODES@[125] == 418);
        } else if i == 126 {
            assert(PIXEL_FORMAT_CODES@[126] == 427);
        } else if i == 127 {
            assert(PIXEL_FORMAT_CODES@[127] == 419);
        } else if i == 128 {
            assert(PIXEL_FORMAT_CODES@[128] == 428);
        } else if i == 129 {
            assert(PIXEL_FORMAT_CODES@[129] == 429);
        } else if i == 130 {
            assert(PIXEL_FORMAT_CODES@[130] == 430);
        } else if i == 131 {
            assert(PIXEL_FORMAT_CODES@[131] == 431);
        } else if i == 132 {
            assert(PIXEL_FORMAT_CODES@[132] == 432);
        } else if i == 133 {
            assert(PIXEL_FORMAT_CODES@[133] == 500);
        } else if i == 134 {
            assert(PIXEL_FORMAT_CODES@[134] == 501);
        } else if i == 135 {
            assert(PIXEL_FORMAT_CODES@[135] == 502);
        } else if i == 136 {
            assert(PIXEL_FORMAT_CODES@[136] == 503);
        } else if i == 137 {
            assert(PIXEL_FORMAT_CODES@[137] == 504);
        } else if i == 138 {
            assert(PIXEL_FORMAT_CODES@[138] == 505);
        } else if i == 139 {
            assert(PIXEL_FORMAT_CODES@[139] == 506);
        } else if i == 140 {
            assert(PIXEL_FORMAT_CODES@[140] == 507);
        } else if i == 141 {
            assert(PIXEL_FORMAT_CODES@[141] == 508);
        } else if i == 142 {
            assert(PIXEL_FORMAT_CODES@[142] == 509);
        } else if i == 143 {
            assert(PIXEL_FORMAT_CODES@[143] == 510);
        } else if i == 144 {
            assert(PIXEL_FORMAT_CODES@[144] == 512);
        } else if i == 145 {
            assert(PIXEL_FORMAT_CODES@[145] == 511);
        } else if i == 146 {
            assert(PIXEL_FORMAT_CODES@[146] == 513);
        } else if i == 147 {
            assert(PIXEL_FORMAT_CODES@[147] == 514);
        } else if i == 148 {
            assert(PIXEL_FORMAT_CODES@[148] == 515);
        } else if i == 149 {
            assert(PIXEL_FORMAT_CODES@[149] == 516);
        } else if i == 150 {
            assert(PIXEL_FORMAT_CODES@[150] == 517);
        } else if i == 151 {
            assert(PIXEL_FORMAT_CODES@[151] == 518);
        } else if i == 152 {
            assert(PIXEL_FORMAT_CODES@[152] == 519);
        } else if i == 153 {
            assert(PIXEL_FORMAT_CODES@[153] == 560);
        } else if i == 154 {
            assert(PIXEL_FORMAT_CODES@[154] == 520);
        } else if i == 155 {
            assert(PIXEL_FORMAT_CODES@[155] == 561);
        } else if i == 156 {
            assert(PIXEL_FORMAT_CODES@[156] == 521);
        } else if i == 157 {
            assert(PIXEL_FORMAT_CODES@[157] == 562);
        } else if i == 158 {
            assert(PIXEL_FORMAT_CODES@[158] == 522);
        } else if i == 159 {
            assert(PIXEL_FORMAT_CODES@[159] == 563);
        } else if i == 160 {
            assert(PIXEL_FORMAT_CODES@[160] == 523);
        } else if i == 161 {
            assert(PIXEL_FORMAT_CODES@[161] == 564);
        } else if i == 162 {
            assert(PIXEL_FORMAT_CODES@[162] == 524);
        } else if i == 163 {
            assert(PIXEL_FORMAT_CODES@[163] == 565);
        } else if i == 164 {
            assert(PIXEL_FORMAT_CODES@[164] == 525);
        } else if i == 165 {
            assert(PIXEL_FORMAT_CODES@[165] == 566);
        } else if i == 166 {
            assert(PIXEL_FORMAT_CODES@[166] == 530);
        } else if i == 167 {
            assert(PIXEL_FORMAT_CODES@[167] == 567);
        } else if i == 168 {
            assert(PIXEL_FORMAT_CODES@[168] == 531);
        } else if i == 169 {
            assert(PIXEL_FORMAT_CODES@[169] == 568);
        } else if i == 170 {
            assert(PIXEL_FORMAT_CODES@[170] == 532);
        } else if i == 171 {
            assert(PIXEL_FORMAT_CODES@[171] == 569);
        } else if i == 172 {
            assert(PIXEL_FORMAT_CODES@[172] == 533);
        } else if i == 173 {
            assert(PIXEL_FORMAT_CODES@[173] == 570);
        } else if i == 174 {
            assert(PIXEL_FORMAT_CODES@[174] == 571);
        } else if i == 175 {
            assert(PIXEL_FORMAT_CODES@[175] == 572);
        } else if i == 176 {
            assert(PIXEL_FORMAT_CODES@[176] == 573);
        } else if i == 177 {
            assert(PIXEL_FORMAT_CODES@[177] == 574);
        } else if i == 178 {
            assert(PIXEL_FORMAT_CODES@[178] == 540);
        } else if i == 179 {
            assert(PIXEL_FORMAT_CODES@[179] == 541);
        } else if i == 180 {
            assert(PIXEL_FORMAT_CODES@[180] == 542);
        } else if i == 181 {
            assert(PIXEL_FORMAT_CODES@[181] == 543);
        } else if i == 182 {
            assert(PIXEL_FORMAT_CODES@[182] == 544);
        } else if i == 183 {
            assert(PIXEL_FORMAT_CODES@[183] == 545);
        } else if i == 184 {
            assert(PIXEL_FORMAT_CODES@[184] == 546);
        } else if i == 185 {
            assert(PIXEL_FORMAT_CODES@[185] == 547);
        } else if i == 186 {
            assert(PIXEL_FORMAT_CODES@[186] == 600);
        } else if i == 187 {
            assert(PIXEL_FORMAT_CODES@[187] == 601);
        } else if i == 188 {
            assert(PIXEL_FORMAT_CODES@[188] == 608);
        } else if i == 189 {
            assert(PIXEL_FORMAT_CODES@[189] == 602);
        } else if i == 190 {
            assert(PIXEL_FORMAT_CODES@[190] == 609);
        } else if i == 191 {
            assert(PIXEL_FORMAT_CODES@[191] == 630);
        } else if i == 192 {
            assert(PIXEL_FORMAT_CODES@[192] == 631);
        } else if i == 193 {
            assert(PIXEL_FORMAT_CODES@[193] == 603);
        } else if i == 194 {
            assert(PIXEL_FORMAT_CODES@[194] == 610);
        } else if i == 195 {
            assert(PIXEL_FORMAT_CODES@[195] == 632);
        } else if i == 196 {
            assert(PIXEL_FORMAT_CODES@[196] == 633);
        } else if i == 197 {
            assert(PIXEL_FORMAT_CODES@[197] == 604);
        } else if i == 198 {
            assert(PIXEL_FORMAT_CODES@[198] == 611);
        } else if i == 199 {
            assert(PIXEL_FORMAT_CODES@[199] == 605);
        } else if i == 200 {
            assert(PIXEL_FORMAT_CODES@[200] == 612);
        } else if i == 201 {
            assert(PIXEL_FORMAT_CODES@[201] == 606);
        } else if i == 202 {
            assert(PIXEL_FORMAT_CODES@[202] == 613);
        } else if i == 203 {
            assert(PIXEL_FORMAT_CODES@[203] == 607);
        } else if i == 204 {
            assert(PIXEL_FORMAT_CODES@[204] == 614);
        } else if i == 205 {
            assert(PIXEL_FORMAT_CODES@[205] == 620);
        } else if i == 206 {
            assert(PIXEL_FORMAT_CODES@[206] == 621);
        } else if i == 207 {
            assert(PIXEL_FORMAT_CODES@[207] == 634);
        } else if i == 208 {
            assert(PIXEL_FORMAT_CODES@[208] == 622);
        } else if i == 209 {
            assert(PIXEL_FORMAT_CODES@[209] == 635);
        } else if i == 210 {
            assert(PIXEL_FORMAT_CODES@[210] == 623);
        } else if i == 211 {
            assert(PIXEL_FORMAT_CODES@[211] == 636);
        } else if i == 212 {
            assert(PIXEL_FORMAT_CODES@[212] == 624);
        } else if i == 213 {
            assert(PIXEL_FORMAT_CODES@[213] == 637);
        } else if i == 214 {
            assert(PIXEL_FORMAT_CODES@[214] == 638);
        } else if i == 215 {
            assert(PIXEL_FORMAT_CODES@[215] == 639);
        } else if i == 216 {
            assert(PIXEL_FORMAT_CODES@[216] == 625);
        } else if i == 217 {
            assert(PIXEL_FORMAT_CODES@[217] == 640);
        } else if i == 218 {
            assert(PIXEL_FORMAT_CODES@[218] == 626);
        } else if i == 219 {
            assert(PIXEL_FORMAT_CODES@[219] == 641);
        } else if i == 220 {
            assert(PIXEL_FORMAT_CODES@[220] == 700);
        } else if i == 221 {
            assert(PIXEL_FORMAT_CODES@[221] == 701);
        } else if i == 222 {
            assert(PIXEL_FORMAT_CODES@[222] == 702);
        } else if i == 223 {
            assert(PIXEL_FORMAT_CODES@[223] == 712);
        } else if i == 224 {
            assert(PIXEL_FORMAT_CODES@[224] == 703);
        } else if i == 225 {
            assert(PIXEL_FORMAT_CODES@[225] == 713);
        } else if i == 226 {
            assert(PIXEL_FORMAT_CODES@[226] == 704);
        } else if i == 227 {
            assert(PIXEL_FORMAT_CODES@[227] == 714);
        } else if i == 228 {
            assert(PIXEL_FORMAT_CODES@[228] == 705);
        } else if i == 229 {
            assert(PIXEL_FORMAT_CODES@[229] == 715);
        } else if i == 230 {
            assert(PIXEL_FORMAT_CODES@[230] == 706);
        } else if i == 231 {
            assert(PIXEL_FORMAT_CODES@[231] == 716);
        } else if i == 232 {
            assert(PIXEL_FORMAT_CODES@[232] == 717);
        } else if i == 233 {
            assert(PIXEL_FORMAT_CODES@[233] == 718);
        } else if i == 234 {
            assert(PIXEL_FORMAT_CODES@[234] == 707);
        } else if i == 235 {
            assert(PIXEL_FORMAT_CODES@[235] == 719);
        } else if i == 236 {
            assert(PIXEL_FORMAT_CODES@[236] == 720);
        } else if i == 237 {
            assert(PIXEL_FORMAT_CODES@[237] == 721);
        } else if i == 238 {
            assert(PIXEL_FORMAT_CODES@[238] == 730);
        } else if i == 239 {
            assert(PIXEL_FORMAT_CODES@[239] == 731);
        } else if i == 240 {
            assert(PIXEL_FORMAT_CODES@[240] == 732);
        } else if i == 241 {
            assert(PIXEL_FORMAT_CODES@[241] == 733);
        } else if i == 242 {
            assert(PIXEL_FORMAT_CODES@[242] == 734);
        } else if i == 243 {
            assert(PIXEL_FORMAT_CODES@[243] == 735);
        } else if i == 244 {
            assert(PIXEL_FORMAT_CODES@[244] == 736);
        } else if i == 245 {
            assert(PIXEL_FORMAT_CODES@[245] == 737);
        } else if i == 246 {
            assert(PIXEL_FORMAT_CODES@[246] == 740);
        } else if i == 247 {
            assert(PIXEL_FORMAT_CODES@[247] == 741);
        } else if i == 248 {
            assert(PIXEL_FORMAT_CODES@[248] == 800);
        } else if i == 249 {
            assert(PIXEL_FORMAT_CODES@[249] == 900);
        } else if i == 250 {
            assert(PIXEL_FORMAT_CODES@[250] == 901);
        } else if i == 251 {
            assert(PIXEL_FORMAT_CODES@[251] == 902);
        } else if i == 252 {
            assert(PIXEL_FORMAT_CODES@[252] == 903);
        } else if i == 253 {
            assert(PIXEL_FORMAT_CODES@[253] == 910);
        } else if i == 254 {
            assert(PIXEL_FORMAT_CODES@[254] == 914);
        } else if i == 255 {
            assert(PIXEL_FORMAT_CODES@[255] == 911);
        } else if i == 256 {
            assert(PIXEL_FORMAT_CODES@[256] == 915);
        } else if i == 257 {
            assert(PIXEL_FORMAT_CODES@[257] == 912);
        } else if i == 258 {
            assert(PIXEL_FORMAT_CODES@[258] == 916);
        } else if i == 259 {
            assert(PIXEL_FORMAT_CODES@[259] == 913);
        } else if i == 260 {
            assert(PIXEL_FORMAT_CODES@[260] == 917);
        } else if i == 261 {
            assert(PIXEL_FORMAT_CODES@[261] == 920);
        } else if i == 262 {
            assert(PIXEL_FORMAT_CODES@[262] == 924);
        } else if i == 263 {
            assert(PIXEL_FORMAT_CODES@[263] == 921);
        } else if i == 264 {
            assert(PIXEL_FORMAT_CODES@[264] == 925);
        } else if i == 265 {
            assert(PIXEL_FORMAT_CODES@[265] == 922);
        } else if i == 266 {
            assert(PIXEL_FORMAT_CODES@[266] == 926);
        } else if i == 267 {
            assert(PIXEL_FORMAT_CODES@[267] == 923);
        } else if i == 268 {
            assert(PIXEL_FORMAT_CODES@[268] == 927);
        } else if i == 269 {
            assert(PIXEL_FORMAT_CODES@[269] == 930);
        } else if i == 270 {
            assert(PIXEL_FORMAT_CODES@[270] == 934);
        } else if i == 271 {
            assert(PIXEL_FORMAT_CODES@[271] == 931);
        } else if i == 272 {
            assert(PIXEL_FORMAT_CODES@[272] == 935);
        } else if i == 273 {
            assert(PIXEL_FORMAT_CODES@[273] == 932);
        } else if i == 274 {
            assert(PIXEL_FORMAT_CODES@[274] == 936);
        } else if i == 275 {
            assert(PIXEL_FORMAT_CODES@[275] == 933);
        } else if i == 276 {
            assert(PIXEL_FORMAT_CODES@[276] == 937);
        } else if i == 277 {
            assert(PIXEL_FORMAT_CODES@[277] == 940);
        } else if i == 278 {
            assert(PIXEL_FORMAT_CODES@[278] == 944);
        } else if i == 279 {
            assert(PIXEL_FORMAT_CODES@[279] == 941);
        } else if i == 280 {
            assert(PIXEL_FORMAT_CODES@[280] == 945);
        } else if i == 281 {
            assert(PIXEL_FORMAT_CODES@[281] == 942);
        } else if i == 282 {
            assert(PIXEL_FORMAT_CODES@[282] == 946);
        } else if i == 283 {
            assert(PIXEL_FORMAT_CODES@[283] == 943);
        } else if i == 284 {
            assert(PIXEL_FORMAT_CODES@[284] == 947);
        }
    }
}

/// The slug roster is lowercase-canonical and spells no two formats alike.
proof fn lemma_pixel_format_slugs_well_formed()
    ensures
        well_formed_roster(pixel_format_slugs()),
{
    lemma_pixel_format_slug_keys();
    let s = pixel_format_slugs();
    assert forall|i: int, j: int| 0 <= i < j < s.len() implies #[trigger] s[i] != #[trigger] s[j] by {
        assert(slug_of_key(text_key(s[i])) == i);
        assert(slug_of_key(text_key(s[j])) == j);
    }
}

proof fn lemma_pixel_format_spellings_open_with_slugs()
    ensures
        PIXEL_FORMAT_SPELLINGS@.len() >= pixel_format_slugs().len(),
        forall|k: int| 0 <= k < pixel_format_slugs().len() ==> (#[trigger] PIXEL_FORMAT_SPELLINGS@[k]).0@
            == pixel_format_slugs()[k] && PIXEL_FORMAT_SPELLINGS@[k].1 == k,
{
    assert forall|k: int| 0 <= k < pixel_format_slugs().len() implies (#[trigger] PIXEL_FORMAT_SPELLINGS@[k]).0@
        == pixel_format_slugs()[k] && PIXEL_FORMAT_SPELLINGS@[k].1 == k by {
        assert(PIXEL_FORMAT_SPELLINGS@[k].0 == PIXEL_FORMAT_SLUGS@[k]);
    }
}

/// **Every named pixel format survives its slug** — in its own spelling and in ASCII upper case —
/// and its wire id decodes back to it.
pub proof fn law_pixel_format_named_round_trip(i: nat)
    requires
        i < 285,
    ensures
        parse_spelled(PIXEL_FORMAT_SPELLINGS@, term_text(pixel_format_slugs(), Term::Named(i))) == Term::Named(i),
        parse_spelled(PIXEL_FORMAT_SPELLINGS@, upper(term_text(pixel_format_slugs(), Term::Named(i))))
            == Term::Named(i),
        lower(term_text(pixel_format_slugs(), Term::Named(i))) == term_text(pixel_format_slugs(), Term::Named(i)),
        code_index(PIXEL_FORMAT_CODES@, pixel_format_code(Term::Named(i))->0) == Some(i),
{
    lemma_pixel_format_slugs_well_formed();
    lemma_pixel_format_spellings_open_with_slugs();
    lemma_spelled_named(PIXEL_FORMAT_SPELLINGS@, pixel_format_slugs(), i as int);
    lemma_pixel_format_code_decodes(i);
}

/// The wire id of the format at `i` decodes back to `i`.
proof fn lemma_pixel_format_code_decodes(i: nat)
    requires
        i < 285,
    ensures
        code_index(PIXEL_FORMAT_CODES@, pixel_format_code(Term::Named(i))->0) == Some(i),
{
    lemma_pixel_format_codes_keyed();
    let c = PIXEL_FORMAT_CODES@[i as int];
    assert forall|j: int| 0 <= j < i implies PIXEL_FORMAT_CODES@[j] != c by {
        assert(position_of_code(PIXEL_FORMAT_CODES@[j]) == j);
        assert(position_of_code(PIXEL_FORMAT_CODES@[i as int]) == i);
    }
    lemma_code_index_is(PIXEL_FORMAT_CODES@, c, i as int);
}

/// **The pixel-format parse is idempotent through the text form**, for every input.
#[verifier::rlimit(100)]
pub proof fn law_pixel_format_parse_is_idempotent(text: Seq<char>)
    ensures
        parse_spelled(PIXEL_FORMAT_SPELLINGS@, term_text(pixel_format_slugs(), parse_spelled(PIXEL_FORMAT_SPELLINGS@, text)))
            == parse_spelled(PIXEL_FORMAT_SPELLINGS@, text),
{
    lemma_pixel_format_slugs_well_formed();
    lemma_pixel_format_spellings_open_with_slugs();
    lemma_pixel_format_spellings_in_range();
    lemma_spelled_idempotent(PIXEL_FORMAT_SPELLINGS@, pixel_format_slugs(), text);
}

/// **`canonical` is idempotent**: a canonical form is its own canonical form and pins no range.
pub proof fn law_pixel_format_canonical_is_idempotent(t: Term)
    ensures
        pixel_format_canonical(pixel_format_canonical(t).0) == (pixel_format_canonical(t).0, false),
{
}

/// **FFmpeg's differing names parse onto the format spelled by the canonical slug**, and no
/// synonym is itself a slug.
pub proof fn law_pixel_format_synonyms()
    ensures
        parse_spelled(PIXEL_FORMAT_SPELLINGS@, "gray"@) == Term::Named(220),
        parse_spelled(PIXEL_FORMAT_SPELLINGS@, "monob"@) == Term::Named(247),
        parse_spelled(PIXEL_FORMAT_SPELLINGS@, "monow"@) == Term::Named(246),
{
    lemma_pixel_format_slug_keys();
    reveal_strlit("gray");
    reveal_strlit("monob");
    reveal_strlit("monow");
    crate::parse::lemma_lower_idempotent("gray"@);
    assert(lower("gray"@) =~= "gray"@);
    assert(lower("monob"@) =~= "monob"@);
    assert(lower("monow"@) =~= "monow"@);
    let sp = PIXEL_FORMAT_SPELLINGS@;
    crate::parse::lemma_spelling_index(sp, "gray"@);
    crate::parse::lemma_spelling_index(sp, "monob"@);
    crate::parse::lemma_spelling_index(sp, "monow"@);
    assert forall|k: int| 0 <= k < 285 implies (#[trigger] sp[k]).0@ != "gray"@ && sp[k].0@ != "monob"@ && sp[k].0@ != "monow"@ by {
        assert(sp[k].0@ == pixel_format_slugs()[k]);
        assert(slug_of_key(text_key(pixel_format_slugs()[k])) == k);
        assert(text_key("gray"@) == 2053272424);
        assert(text_key("monob"@) == 427088113774);
        assert(text_key("monow"@) == 517282426990);
    }
    assert(sp[285].0@ == "gray"@);
    assert(sp[286].0@ == "monob"@);
    assert(sp[287].0@ == "monow"@);
}

proof fn lemma_pixel_format_bayer_slugs_0()
    ensures
        forall|i: int| 0 <= i < 60 ==> (begins_with(#[trigger] pixel_format_slugs()[i], "bayer_"@) <==> 249 <= i),
{
    reveal_strlit("bayer_");
    reveal_strlit("none");
    reveal_strlit("yuv420p");
    reveal_strlit("yuv422p");
    reveal_strlit("yuv440p");
    reveal_strlit("yuv444p");
    reveal_strlit("yuv411p");
    reveal_strlit("yuv410p");
    reveal_strlit("yuvj411p");
    reveal_strlit("yuvj420p");
    reveal_strlit("yuvj422p");
    reveal_strlit("yuvj440p");
    reveal_strlit("yuvj444p");
    reveal_strlit("yuv420p9le");
    reveal_strlit("yuv420p9be");
    reveal_strlit("yuv420p10le");
    reveal_strlit("yuv420p10be");
    reveal_strlit("yuv420p12le");
    reveal_strlit("yuv420p12be");
    reveal_strlit("yuv420p14le");
    reveal_strlit("yuv420p14be");
    reveal_strlit("yuv420p16le");
    reveal_strlit("yuv420p16be");
    reveal_strlit("yuv422p9le");
    reveal_strlit("yuv422p9be");
    reveal_strlit("yuv422p10le");
    reveal_strlit("yuv422p10be");
    reveal_strlit("yuv422p12le");
    reveal_strlit("yuv422p12be");
    reveal_strlit("yuv422p14le");
    reveal_strlit("yuv422p14be");
    reveal_strlit("yuv422p16le");
    reveal_strlit("yuv422p16be");
    reveal_strlit("yuv440p10le");
    reveal_strlit("yuv440p10be");
    reveal_strlit("yuv440p12le");
    reveal_strlit("yuv440p12be");
    reveal_strlit("yuv444p9le");
    reveal_strlit("yuv444p9be");
    reveal_strlit("yuv444p10le");
    reveal_strlit("yuv444p10be");
    reveal_strlit("yuv444p12le");
    reveal_strlit("yuv444p12be");
    reveal_strlit("yuv444p14le");
    reveal_strlit("yuv444p14be");
    reveal_strlit("yuv444p16le");
    reveal_strlit("yuv444p16be");
    reveal_strlit("yuv444p10msble");
    reveal_strlit("yuv444p10msbbe");
    reveal_strlit("yuv444p12msble");
    reveal_strlit("yuv444p12msbbe");
    reveal_strlit("yuva420p");
    reveal_strlit("yuva422p");
    reveal_strlit("yuva444p");
    reveal_strlit("yuva420p9le");
    reveal_strlit("yuva420p9be");
    reveal_strlit("yuva422p9le");
    reveal_strlit("yuva422p9be");
    reveal_strlit("yuva444p9le");
    reveal_strlit("yuva444p9be");
    reveal_strlit("yuva420p10le");
    let s = pixel_format_slugs();
    assert(s.len() == 285);
    assert forall|i: int| 0 <= i < 60 implies (begins_with(#[trigger] s[i], "bayer_"@) <==> 249 <= i) by {
        if i == 0 {
            assert(s[0].len() == 4);
        } else if i == 1 {
            assert(s[1][0] == 'y');
            assert(s[1].subrange(0, 6)[0] == s[1][0]);
        } else if i == 2 {
            assert(s[2][0] == 'y');
            assert(s[2].subrange(0, 6)[0] == s[2][0]);
        } else if i == 3 {
            assert(s[3][0] == 'y');
            assert(s[3].subrange(0, 6)[0] == s[3][0]);
        } else if i == 4 {
            assert(s[4][0] == 'y');
            assert(s[4].subrange(0, 6)[0] == s[4][0]);
        } else if i == 5 {
            assert(s[5][0] == 'y');
            assert(s[5].subrange(0, 6)[0] == s[5][0]);
        } else if i == 6 {
            assert(s[6][0] == 'y');
            assert(s[6].subrange(0, 6)[0] == s[6][0]);
        } else if i == 7 {
            assert(s[7][0] == 'y');
            assert(s[7].subrange(0, 6)[0] == s[7][0]);
        } else if i == 8 {
            assert(s[8][0] == 'y');
            assert(s[8].subrange(0, 6)[0] == s[8][0]);
        } else if i == 9 {
            assert(s[9][0] == 'y');
            assert(s[9].subrange(0, 6)[0] == s[9][0]);
        } else if i == 10 {
            assert(s[10][0] == 'y');
            assert(s[10].subrange(0, 6)[0] == s[10][0]);
        } else if i == 11 {
            assert(s[11][0] == 'y');
            assert(s[11].subrange(0, 6)[0] == s[11][0]);
        } else if i == 12 {
            assert(s[12][0] == 'y');
            assert(s[12].subrange(0, 6)[0] == s[12][0]);
        } else if i == 13 {
            assert(s[13][0] == 'y');
            assert(s[13].subrange(0, 6)[0] == s[13][0]);
        } else if i == 14 {
            assert(s[14][0] == 'y');
            assert(s[14].subrange(0, 6)[0] == s[14][0]);
        } else if i == 15 {
            assert(s[15][0] == 'y');
            assert(s[15].subrange(0, 6)[0] == s[15][0]);
        } else if i == 16 {
            assert(s[16][0] == 'y');
            assert(s[16].subrange(0, 6)[0] == s[16][0]);
        } else if i == 17 {
            assert(s[17][0] == 'y');
            assert(s[17].subrange(0, 6)[0] == s[17][0]);
        } else if i == 18 {
            assert(s[18][0] == 'y');
            assert(s[18].subrange(0, 6)[0] == s[18][0]);
        } else if i == 19 {
            assert(s[19][0] == 'y');
            assert(s[19].subrange(0, 6)[0] == s[19][0]);
        } else if i == 20 {
            assert(s[20][0] == 'y');
            assert(s[20].subrange(0, 6)[0] == s[20][0]);
        } else if i == 21 {
            assert(s[21][0] == 'y');
            assert(s[21].subrange(0, 6)[0] == s[21][0]);
        } else if i == 22 {
            assert(s[22][0] == 'y');
            assert(s[22].subrange(0, 6)[0] == s[22][0]);
        } else if i == 23 {
            assert(s[23][0] == 'y');
            assert(s[23].subrange(0, 6)[0] == s[23][0]);
        } else if i == 24 {
            assert(s[24][0] == 'y');
            assert(s[24].subrange(0, 6)[0] == s[24][0]);
        } else if i == 25 {
            assert(s[25][0] == 'y');
            assert(s[25].subrange(0, 6)[0] == s[25][0]);
        } else if i == 26 {
            assert(s[26][0] == 'y');
            assert(s[26].subrange(0, 6)[0] == s[26][0]);
        } else if i == 27 {
            assert(s[27][0] == 'y');
            assert(s[27].subrange(0, 6)[0] == s[27][0]);
        } else if i == 28 {
            assert(s[28][0] == 'y');
            assert(s[28].subrange(0, 6)[0] == s[28][0]);
        } else if i == 29 {
            assert(s[29][0] == 'y');
            assert(s[29].subrange(0, 6)[0] == s[29][0]);
        } else if i == 30 {
            assert(s[30][0] == 'y');
            assert(s[30].subrange(0, 6)[0] == s[30][0]);
        } else if i == 31 {
            assert(s[31][0] == 'y');
            assert(s[31].subrange(0, 6)[0] == s[31][0]);
        } else if i == 32 {
            assert(s[32][0] == 'y');
            assert(s[32].subrange(0, 6)[0] == s[32][0]);
        } else if i == 33 {
            assert(s[33][0] == 'y');
            assert(s[33].subrange(0, 6)[0] == s[33][0]);
        } else if i == 34 {
            assert(s[34][0] == 'y');
            assert(s[34].subrange(0, 6)[0] == s[34][0]);
        } else if i == 35 {
            assert(s[35][0] == 'y');
            assert(s[35].subrange(0, 6)[0] == s[35][0]);
        } else if i == 36 {
            assert(s[36][0] == 'y');
            assert(s[36].subrange(0, 6)[0] == s[36][0]);
        } else if i == 37 {
            assert(s[37][0] == 'y');
            assert(s[37].subrange(0, 6)[0] == s[37][0]);
        } else if i == 38 {
            assert(s[38][0] == 'y');
            assert(s[38].subrange(0, 6)[0] == s[38][0]);
        } else if i == 39 {
            assert(s[39][0] == 'y');
            assert(s[39].subrange(0, 6)[0] == s[39][0]);
        } else if i == 40 {
            assert(s[40][0] == 'y');
            assert(s[40].subrange(0, 6)[0] == s[40][0]);
        } else if i == 41 {
            assert(s[41][0] == 'y');
            assert(s[41].subrange(0, 6)[0] == s[41][0]);
        } else if i == 42 {
            assert(s[42][0] == 'y');
            assert(s[42].subrange(0, 6)[0] == s[42][0]);
        } else if i == 43 {
            assert(s[43][0] == 'y');
            assert(s[43].subrange(0, 6)[0] == s[43][0]);
        } else if i == 44 {
            assert(s[44][0] == 'y');
            assert(s[44].subrange(0, 6)[0] == s[44][0]);
        } else if i == 45 {
            assert(s[45][0] == 'y');
            assert(s[45].subrange(0, 6)[0] == s[45][0]);
        } else if i == 46 {
            assert(s[46][0] == 'y');
            assert(s[46].subrange(0, 6)[0] == s[46][0]);
        } else if i == 47 {
            assert(s[47][0] == 'y');
            assert(s[47].subrange(0, 6)[0] == s[47][0]);
        } else if i == 48 {
            assert(s[48][0] == 'y');
            assert(s[48].subrange(0, 6)[0] == s[48][0]);
        } else if i == 49 {
            assert(s[49][0] == 'y');
            assert(s[49].subrange(0, 6)[0] == s[49][0]);
        } else if i == 50 {
            assert(s[50][0] == 'y');
            assert(s[50].subrange(0, 6)[0] == s[50][0]);
        } else if i == 51 {
            assert(s[51][0] == 'y');
            assert(s[51].subrange(0, 6)[0] == s[51][0]);
        } else if i == 52 {
            assert(s[52][0] == 'y');
            assert(s[52].subrange(0, 6)[0] == s[52][0]);
        } else if i == 53 {
            assert(s[53][0] == 'y');
            assert(s[53].subrange(0, 6)[0] == s[53][0]);
        } else if i == 54 {
            assert(s[54][0] == 'y');
            assert(s[54].subrange(0, 6)[0] == s[54][0]);
        } else if i == 55 {
            assert(s[55][0] == 'y');
            assert(s[55].subrange(0, 6)[0] == s[55][0]);
        } else if i == 56 {
            assert(s[56][0] == 'y');
            assert(s[56].subrange(0, 6)[0] == s[56][0]);
        } else if i == 57 {
            assert(s[57][0] == 'y');
            assert(s[57].subrange(0, 6)[0] == s[57][0]);
        } else if i == 58 {
            assert(s[58][0] == 'y');
            assert(s[58].subrange(0, 6)[0] == s[58][0]);
        } else if i == 59 {
            assert(s[59][0] == 'y');
            assert(s[59].subrange(0, 6)[0] == s[59][0]);
        }
    }
}

proof fn lemma_pixel_format_bayer_slugs_1()
    ensures
        forall|i: int| 60 <= i < 120 ==> (begins_with(#[trigger] pixel_format_slugs()[i], "bayer_"@) <==> 249 <= i),
{
    reveal_strlit("bayer_");
    reveal_strlit("yuva420p10be");
    reveal_strlit("yuva422p10le");
    reveal_strlit("yuva422p10be");
    reveal_strlit("yuva444p10le");
    reveal_strlit("yuva444p10be");
    reveal_strlit("yuva420p12le");
    reveal_strlit("yuva420p12be");
    reveal_strlit("yuva422p12le");
    reveal_strlit("yuva422p12be");
    reveal_strlit("yuva444p12le");
    reveal_strlit("yuva444p12be");
    reveal_strlit("yuva444p14le");
    reveal_strlit("yuva420p16le");
    reveal_strlit("yuva420p16be");
    reveal_strlit("yuva422p16le");
    reveal_strlit("yuva422p16be");
    reveal_strlit("yuva444p16le");
    reveal_strlit("yuva444p16be");
    reveal_strlit("nv12");
    reveal_strlit("nv21");
    reveal_strlit("nv16");
    reveal_strlit("nv24");
    reveal_strlit("nv42");
    reveal_strlit("nv20le");
    reveal_strlit("nv20be");
    reveal_strlit("p010le");
    reveal_strlit("p010be");
    reveal_strlit("p012le");
    reveal_strlit("p012be");
    reveal_strlit("p016le");
    reveal_strlit("p016be");
    reveal_strlit("p210le");
    reveal_strlit("p210be");
    reveal_strlit("p212le");
    reveal_strlit("p212be");
    reveal_strlit("p216le");
    reveal_strlit("p216be");
    reveal_strlit("p410le");
    reveal_strlit("p410be");
    reveal_strlit("p412le");
    reveal_strlit("p412be");
    reveal_strlit("p416le");
    reveal_strlit("p416be");
    reveal_strlit("yuyv422");
    reveal_strlit("uyvy422");
    reveal_strlit("yvyu422");
    reveal_strlit("uyyvyy411");
    reveal_strlit("y210le");
    reveal_strlit("y210be");
    reveal_strlit("y212le");
    reveal_strlit("y212be");
    reveal_strlit("y216le");
    reveal_strlit("y216be");
    reveal_strlit("v210");
    reveal_strlit("v410le");
    reveal_strlit("v410be");
    reveal_strlit("xv30le");
    reveal_strlit("xv30be");
    reveal_strlit("v30xle");
    reveal_strlit("v30xbe");
    let s = pixel_format_slugs();
    assert(s.len() == 285);
    assert forall|i: int| 60 <= i < 120 implies (begins_with(#[trigger] s[i], "bayer_"@) <==> 249 <= i) by {
        if i == 60 {
            assert(s[60][0] == 'y');
            assert(s[60].subrange(0, 6)[0] == s[60][0]);
        } else if i == 61 {
            assert(s[61][0] == 'y');
            assert(s[61].subrange(0, 6)[0] == s[61][0]);
        } else if i == 62 {
            assert(s[62][0] == 'y');
            assert(s[62].subrange(0, 6)[0] == s[62][0]);
        } else if i == 63 {
            assert(s[63][0] == 'y');
            assert(s[63].subrange(0, 6)[0] == s[63][0]);
        } else if i == 64 {
            assert(s[64][0] == 'y');
            assert(s[64].subrange(0, 6)[0] == s[64][0]);
        } else if i == 65 {
            assert(s[65][0] == 'y');
            assert(s[65].subrange(0, 6)[0] == s[65][0]);
        } else if i == 66 {
            assert(s[66][0] == 'y');
            assert(s[66].subrange(0, 6)[0] == s[66][0]);
        } else if i == 67 {
            assert(s[67][0] == 'y');
            assert(s[67].subrange(0, 6)[0] == s[67][0]);
        } else if i == 68 {
            assert(s[68][0] == 'y');
            assert(s[68].subrange(0, 6)[0] == s[68][0]);
        } else if i == 69 {
            assert(s[69][0] == 'y');
            assert(s[69].subrange(0, 6)[0] == s[69][0]);
        } else if i == 70 {
            assert(s[70][0] == 'y');
            assert(s[70].subrange(0, 6)[0] == s[70][0]);
        } else if i == 71 {
            assert(s[71][0] == 'y');
            assert(s[71].subrange(0, 6)[0] == s[71][0]);
        } else if i == 72 {
            assert(s[72][0] == 'y');
            assert(s[72].subrange(0, 6)[0] == s[72][0]);
        } else if i == 73 {
            assert(s[73][0] == 'y');
            assert(s[73].subrange(0, 6)[0] == s[73][0]);
        } else if i == 74 {
            assert(s[74][0] == 'y');
            assert(s[74].subrange(0, 6)[0] == s[74][0]);
        } else if i == 75 {
            assert(s[75][0] == 'y');
            assert(s[75].subrange(0, 6)[0] == s[75][0]);
        } else if i == 76 {
            assert(s[76][0] == 'y');
            assert(s[76].subrange(0, 6)[0] == s[76][0]);
        } else if i == 77 {
            assert(s[77][0] == 'y');
            assert(s[77].subrange(0, 6)[0] == s[77][0]);
        } else if i == 78 {
            assert(s[78].len() == 4);
        } else if i == 79 {
            assert(s[79].len() == 4);
        } else if i == 80 {
            assert(s[80].len() == 4);
        } else if i == 81 {
            assert(s[81].len() == 4);
        } else if i == 82 {
            assert(s[82].len() == 4);
        } else if i == 83 {
            assert(s[83][0] == 'n');
            assert(s[83].subrange(0, 6)[0] == s[83][0]);
        } else if i == 84 {
            assert(s[84][0] == 'n');
            assert(s[84].subrange(0, 6)[0] == s[84][0]);
        } else if i == 85 {
            assert(s[85][0] == 'p');
            assert(s[85].subrange(0, 6)[0] == s[85][0]);
        } else if i == 86 {
            assert(s[86][0] == 'p');
            assert(s[86].subrange(0, 6)[0] == s[86][0]);
        } else if i == 87 {
            assert(s[87][0] == 'p');
            assert(s[87].subrange(0, 6)[0] == s[87][0]);
        } else if i == 88 {
            assert(s[88][0] == 'p');
            assert(s[88].subrange(0, 6)[0] == s[88][0]);
        } else if i == 89 {
            assert(s[89][0] == 'p');
            assert(s[89].subrange(0, 6)[0] == s[89][0]);
        } else if i == 90 {
            assert(s[90][0] == 'p');
            assert(s[90].subrange(0, 6)[0] == s[90][0]);
        } else if i == 91 {
            assert(s[91][0] == 'p');
            assert(s[91].subrange(0, 6)[0] == s[91][0]);
        } else if i == 92 {
            assert(s[92][0] == 'p');
            assert(s[92].subrange(0, 6)[0] == s[92][0]);
        } else if i == 93 {
            assert(s[93][0] == 'p');
            assert(s[93].subrange(0, 6)[0] == s[93][0]);
        } else if i == 94 {
            assert(s[94][0] == 'p');
            assert(s[94].subrange(0, 6)[0] == s[94][0]);
        } else if i == 95 {
            assert(s[95][0] == 'p');
            assert(s[95].subrange(0, 6)[0] == s[95][0]);
        } else if i == 96 {
            assert(s[96][0] == 'p');
            assert(s[96].subrange(0, 6)[0] == s[96][0]);
        } else if i == 97 {
            assert(s[97][0] == 'p');
            assert(s[97].subrange(0, 6)[0] == s[97][0]);
        } else if i == 98 {
            assert(s[98][0] == 'p');
            assert(s[98].subrange(0, 6)[0] == s[98][0]);
        } else if i == 99 {
            assert(s[99][0] == 'p');
            assert(s[99].subrange(0, 6)[0] == s[99][0]);
        } else if i == 100 {
            assert(s[100][0] == 'p');
            assert(s[100].subrange(0, 6)[0] == s[100][0]);
        } else if i == 101 {
            assert(s[101][0] == 'p');
            assert(s[101].subrange(0, 6)[0] == s[101][0]);
        } else if i == 102 {
            assert(s[102][0] == 'p');
            assert(s[102].subrange(0, 6)[0] == s[102][0]);
        } else if i == 103 {
            assert(s[103][0] == 'y');
            assert(s[103].subrange(0, 6)[0] == s[103][0]);
        } else if i == 104 {
            assert(s[104][0] == 'u');
            assert(s[104].subrange(0, 6)[0] == s[104][0]);
        } else if i == 105 {
            assert(s[105][0] == 'y');
            assert(s[105].subrange(0, 6)[0] == s[105][0]);
        } else if i == 106 {
            assert(s[106][0] == 'u');
            assert(s[106].subrange(0, 6)[0] == s[106][0]);
        } else if i == 107 {
            assert(s[107][0] == 'y');
            assert(s[107].subrange(0, 6)[0] == s[107][0]);
        } else if i == 108 {
            assert(s[108][0] == 'y');
            assert(s[108].subrange(0, 6)[0] == s[108][0]);
        } else if i == 109 {
            assert(s[109][0] == 'y');
            assert(s[109].subrange(0, 6)[0] == s[109][0]);
        } else if i == 110 {
            assert(s[110][0] == 'y');
            assert(s[110].subrange(0, 6)[0] == s[110][0]);
        } else if i == 111 {
            assert(s[111][0] == 'y');
            assert(s[111].subrange(0, 6)[0] == s[111][0]);
        } else if i == 112 {
            assert(s[112][0] == 'y');
            assert(s[112].subrange(0, 6)[0] == s[112][0]);
        } else if i == 113 {
            assert(s[113].len() == 4);
        } else if i == 114 {
            assert(s[114][0] == 'v');
            assert(s[114].subrange(0, 6)[0] == s[114][0]);
        } else if i == 115 {
            assert(s[115][0] == 'v');
            assert(s[115].subrange(0, 6)[0] == s[115][0]);
        } else if i == 116 {
            assert(s[116][0] == 'x');
            assert(s[116].subrange(0, 6)[0] == s[116][0]);
        } else if i == 117 {
            assert(s[117][0] == 'x');
            assert(s[117].subrange(0, 6)[0] == s[117][0]);
        } else if i == 118 {
            assert(s[118][0] == 'v');
            assert(s[118].subrange(0, 6)[0] == s[118][0]);
        } else if i == 119 {
            assert(s[119][0] == 'v');
            assert(s[119].subrange(0, 6)[0] == s[119][0]);
        }
    }
}

proof fn lemma_pixel_format_bayer_slugs_2()
    ensures
        forall|i: int| 120 <= i < 180 ==> (begins_with(#[trigger] pixel_format_slugs()[i], "bayer_"@) <==> 249 <= i),
{
    reveal_strlit("bayer_");
    reveal_strlit("xv36le");
    reveal_strlit("xv36be");
    reveal_strlit("xv48le");
    reveal_strlit("xv48be");
    reveal_strlit("vuya");
    reveal_strlit("vuyx");
    reveal_strlit("ayuv");
    reveal_strlit("ayuv64le");
    reveal_strlit("ayuv64be");
    reveal_strlit("uyva");
    reveal_strlit("vyu444");
    reveal_strlit("xyz12le");
    reveal_strlit("xyz12be");
    reveal_strlit("rgb24");
    reveal_strlit("bgr24");
    reveal_strlit("rgba");
    reveal_strlit("bgra");
    reveal_strlit("argb");
    reveal_strlit("abgr");
    reveal_strlit("rgb0");
    reveal_strlit("bgr0");
    reveal_strlit("0rgb");
    reveal_strlit("0bgr");
    reveal_strlit("x2rgb10le");
    reveal_strlit("x2rgb10be");
    reveal_strlit("x2bgr10le");
    reveal_strlit("x2bgr10be");
    reveal_strlit("gbr24p");
    reveal_strlit("rgb4");
    reveal_strlit("rgb4_byte");
    reveal_strlit("rgb8");
    reveal_strlit("bgr4");
    reveal_strlit("bgr4_byte");
    reveal_strlit("bgr8");
    reveal_strlit("rgb444le");
    reveal_strlit("rgb444be");
    reveal_strlit("bgr444le");
    reveal_strlit("bgr444be");
    reveal_strlit("rgb555le");
    reveal_strlit("rgb555be");
    reveal_strlit("bgr555le");
    reveal_strlit("bgr555be");
    reveal_strlit("rgb565le");
    reveal_strlit("rgb565be");
    reveal_strlit("bgr565le");
    reveal_strlit("bgr565be");
    reveal_strlit("rgb48le");
    reveal_strlit("rgb48be");
    reveal_strlit("bgr48le");
    reveal_strlit("bgr48be");
    reveal_strlit("rgba64le");
    reveal_strlit("rgba64be");
    reveal_strlit("bgra64le");
    reveal_strlit("bgra64be");
    reveal_strlit("rgb96le");
    reveal_strlit("rgb96be");
    reveal_strlit("rgba128le");
    reveal_strlit("rgba128be");
    reveal_strlit("rgbf16le");
    reveal_strlit("rgbf16be");
    let s = pixel_format_slugs();
    assert(s.len() == 285);
    assert forall|i: int| 120 <= i < 180 implies (begins_with(#[trigger] s[i], "bayer_"@) <==> 249 <= i) by {
        if i == 120 {
            assert(s[120][0] == 'x');
            assert(s[120].subrange(0, 6)[0] == s[120][0]);
        } else if i == 121 {
            assert(s[121][0] == 'x');
            assert(s[121].subrange(0, 6)[0] == s[121][0]);
        } else if i == 122 {
            assert(s[122][0] == 'x');
            assert(s[122].subrange(0, 6)[0] == s[122][0]);
        } else if i == 123 {
            assert(s[123][0] == 'x');
            assert(s[123].subrange(0, 6)[0] == s[123][0]);
        } else if i == 124 {
            assert(s[124].len() == 4);
        } else if i == 125 {
            assert(s[125].len() == 4);
        } else if i == 126 {
            assert(s[126].len() == 4);
        } else if i == 127 {
            assert(s[127][0] == 'a');
            assert(s[127].subrange(0, 6)[0] == s[127][0]);
        } else if i == 128 {
            assert(s[128][0] == 'a');
            assert(s[128].subrange(0, 6)[0] == s[128][0]);
        } else if i == 129 {
            assert(s[129].len() == 4);
        } else if i == 130 {
            assert(s[130][0] == 'v');
            assert(s[130].subrange(0, 6)[0] == s[130][0]);
        } else if i == 131 {
            assert(s[131][0] == 'x');
            assert(s[131].subrange(0, 6)[0] == s[131][0]);
        } else if i == 132 {
            assert(s[132][0] == 'x');
            assert(s[132].subrange(0, 6)[0] == s[132][0]);
        } else if i == 133 {
            assert(s[133].len() == 5);
        } else if i == 134 {
            assert(s[134].len() == 5);
        } else if i == 135 {
            assert(s[135].len() == 4);
        } else if i == 136 {
            assert(s[136].len() == 4);
        } else if i == 137 {
            assert(s[137].len() == 4);
        } else if i == 138 {
            assert(s[138].len() == 4);
        } else if i == 139 {
            assert(s[139].len() == 4);
        } else if i == 140 {
            assert(s[140].len() == 4);
        } else if i == 141 {
            assert(s[141].len() == 4);
        } else if i == 142 {
            assert(s[142].len() == 4);
        } else if i == 143 {
            assert(s[143][0] == 'x');
            assert(s[143].subrange(0, 6)[0] == s[143][0]);
        } else if i == 144 {
            assert(s[144][0] == 'x');
            assert(s[144].subrange(0, 6)[0] == s[144][0]);
        } else if i == 145 {
            assert(s[145][0] == 'x');
            assert(s[145].subrange(0, 6)[0] == s[145][0]);
        } else if i == 146 {
            assert(s[146][0] == 'x');
            assert(s[146].subrange(0, 6)[0] == s[146][0]);
        } else if i == 147 {
            assert(s[147][0] == 'g');
            assert(s[147].subrange(0, 6)[0] == s[147][0]);
        } else if i == 148 {
            assert(s[148].len() == 4);
        } else if i == 149 {
            assert(s[149][0] == 'r');
            assert(s[149].subrange(0, 6)[0] == s[149][0]);
        } else if i == 150 {
            assert(s[150].len() == 4);
        } else if i == 151 {
            assert(s[151].len() == 4);
        } else if i == 152 {
            assert(s[152][1] == 'g');
            assert(s[152].subrange(0, 6)[1] == s[152][1]);
        } else if i == 153 {
            assert(s[153].len() == 4);
        } else if i == 154 {
            assert(s[154][0] == 'r');
            assert(s[154].subrange(0, 6)[0] == s[154][0]);
        } else if i == 155 {
            assert(s[155][0] == 'r');
            assert(s[155].subrange(0, 6)[0] == s[155][0]);
        } else if i == 156 {
            assert(s[156][1] == 'g');
            assert(s[156].subrange(0, 6)[1] == s[156][1]);
        } else if i == 157 {
            assert(s[157][1] == 'g');
            assert(s[157].subrange(0, 6)[1] == s[157][1]);
        } else if i == 158 {
            assert(s[158][0] == 'r');
            assert(s[158].subrange(0, 6)[0] == s[158][0]);
        } else if i == 159 {
            assert(s[159][0] == 'r');
            assert(s[159].subrange(0, 6)[0] == s[159][0]);
        } else if i == 160 {
            assert(s[160][1] == 'g');
            assert(s[160].subrange(0, 6)[1] == s[160][1]);
        } else if i == 161 {
            assert(s[161][1] == 'g');
            assert(s[161].subrange(0, 6)[1] == s[161][1]);
        } else if i == 162 {
            assert(s[162][0] == 'r');
            assert(s[162].subrange(0, 6)[0] == s[162][0]);
        } else if i == 163 {
            assert(s[163][0] == 'r');
            assert(s[163].subrange(0, 6)[0] == s[163][0]);
        } else if i == 164 {
            assert(s[164][1] == 'g');
            assert(s[164].subrange(0, 6)[1] == s[164][1]);
        } else if i == 165 {
            assert(s[165][1] == 'g');
            assert(s[165].subrange(0, 6)[1] == s[165][1]);
        } else if i == 166 {
            assert(s[166][0] == 'r');
            assert(s[166].subrange(0, 6)[0] == s[166][0]);
        } else if i == 167 {
            assert(s[167][0] == 'r');
            assert(s[167].subrange(0, 6)[0] == s[167][0]);
        } else if i == 168 {
            assert(s[168][1] == 'g');
            assert(s[168].subrange(0, 6)[1] == s[168][1]);
        } else if i == 169 {
            assert(s[169][1] == 'g');
            assert(s[169].subrange(0, 6)[1] == s[169][1]);
        } else if i == 170 {
            assert(s[170][0] == 'r');
            assert(s[170].subrange(0, 6)[0] == s[170][0]);
        } else if i == 171 {
            assert(s[171][0] == 'r');
            assert(s[171].subrange(0, 6)[0] == s[171][0]);
        } else if i == 172 {
            assert(s[172][1] == 'g');
            assert(s[172].subrange(0, 6)[1] == s[172][1]);
        } else if i == 173 {
            assert(s[173][1] == 'g');
            assert(s[173].subrange(0, 6)[1] == s[173][1]);
        } else if i == 174 {
            assert(s[174][0] == 'r');
            assert(s[174].subrange(0, 6)[0] == s[174][0]);
        } else if i == 175 {
            assert(s[175][0] == 'r');
            assert(s[175].subrange(0, 6)[0] == s[175][0]);
        } else if i == 176 {
            assert(s[176][0] == 'r');
            assert(s[176].subrange(0, 6)[0] == s[176][0]);
        } else if i == 177 {
            assert(s[177][0] == 'r');
            assert(s[177].subrange(0, 6)[0] == s[177][0]);
        } else if i == 178 {
            assert(s[178][0] == 'r');
            assert(s[178].subrange(0, 6)[0] == s[178][0]);
        } else if i == 179 {
            assert(s[179][0] == 'r');
            assert(s[179].subrange(0, 6)[0] == s[179][0]);
        }
    }
}

proof fn lemma_pixel_format_bayer_slugs_3()
    ensures
        forall|i: int| 180 <= i < 240 ==> (begins_with(#[trigger] pixel_format_slugs()[i], "bayer_"@) <==> 249 <= i),
{
    reveal_strlit("bayer_");
    reveal_strlit("rgbf32le");
    reveal_strlit("rgbf32be");
    reveal_strlit("rgbaf16le");
    reveal_strlit("rgbaf16be");
    reveal_strlit("rgbaf32le");
    reveal_strlit("rgbaf32be");
    reveal_strlit("gbrp");
    reveal_strlit("gbrp9le");
    reveal_strlit("gbrp9be");
    reveal_strlit("gbrp10le");
    reveal_strlit("gbrp10be");
    reveal_strlit("gbrp10msble");
    reveal_strlit("gbrp10msbbe");
    reveal_strlit("gbrp12le");
    reveal_strlit("gbrp12be");
    reveal_strlit("gbrp12msble");
    reveal_strlit("gbrp12msbbe");
    reveal_strlit("gbrp14le");
    reveal_strlit("gbrp14be");
    reveal_strlit("gbrp16le");
    reveal_strlit("gbrp16be");
    reveal_strlit("gbrpf16le");
    reveal_strlit("gbrpf16be");
    reveal_strlit("gbrpf32le");
    reveal_strlit("gbrpf32be");
    reveal_strlit("gbrap");
    reveal_strlit("gbrap10le");
    reveal_strlit("gbrap10be");
    reveal_strlit("gbrap12le");
    reveal_strlit("gbrap12be");
    reveal_strlit("gbrap14le");
    reveal_strlit("gbrap14be");
    reveal_strlit("gbrap16le");
    reveal_strlit("gbrap16be");
    reveal_strlit("gbrap32le");
    reveal_strlit("gbrap32be");
    reveal_strlit("gbrapf16le");
    reveal_strlit("gbrapf16be");
    reveal_strlit("gbrapf32le");
    reveal_strlit("gbrapf32be");
    reveal_strlit("gray8");
    reveal_strlit("gray8a");
    reveal_strlit("gray9le");
    reveal_strlit("gray9be");
    reveal_strlit("gray10le");
    reveal_strlit("gray10be");
    reveal_strlit("gray12le");
    reveal_strlit("gray12be");
    reveal_strlit("gray14le");
    reveal_strlit("gray14be");
    reveal_strlit("gray16le");
    reveal_strlit("gray16be");
    reveal_strlit("gray32le");
    reveal_strlit("gray32be");
    reveal_strlit("grayf32le");
    reveal_strlit("grayf32be");
    reveal_strlit("grayf16le");
    reveal_strlit("grayf16be");
    reveal_strlit("ya8");
    reveal_strlit("y400a");
    let s = pixel_format_slugs();
    assert(s.len() == 285);
    assert forall|i: int| 180 <= i < 240 implies (begins_with(#[trigger] s[i], "bayer_"@) <==> 249 <= i) by {
        if i == 180 {
            assert(s[180][0] == 'r');
            assert(s[180].subrange(0, 6)[0] == s[180][0]);
        } else if i == 181 {
            assert(s[181][0] == 'r');
            assert(s[181].subrange(0, 6)[0] == s[181][0]);
        } else if i == 182 {
            assert(s[182][0] == 'r');
            assert(s[182].subrange(0, 6)[0] == s[182][0]);
        } else if i == 183 {
            assert(s[183][0] == 'r');
            assert(s[183].subrange(0, 6)[0] == s[183][0]);
        } else if i == 184 {
            assert(s[184][0] == 'r');
            assert(s[184].subrange(0, 6)[0] == s[184][0]);
        } else if i == 185 {
            assert(s[185][0] == 'r');
            assert(s[185].subrange(0, 6)[0] == s[185][0]);
        } else if i == 186 {
            assert(s[186].len() == 4);
        } else if i == 187 {
            assert(s[187][0] == 'g');
            assert(s[187].subrange(0, 6)[0] == s[187][0]);
        } else if i == 188 {
            assert(s[188][0] == 'g');
            assert(s[188].subrange(0, 6)[0] == s[188][0]);
        } else if i == 189 {
            assert(s[189][0] == 'g');
            assert(s[189].subrange(0, 6)[0] == s[189][0]);
        } else if i == 190 {
            assert(s[190][0] == 'g');
            assert(s[190].subrange(0, 6)[0] == s[190][0]);
        } else if i == 191 {
            assert(s[191][0] == 'g');
            assert(s[191].subrange(0, 6)[0] == s[191][0]);
        } else if i == 192 {
            assert(s[192][0] == 'g');
            assert(s[192].subrange(0, 6)[0] == s[192][0]);
        } else if i == 193 {
            assert(s[193][0] == 'g');
            assert(s[193].subrange(0, 6)[0] == s[193][0]);
        } else if i == 194 {
            assert(s[194][0] == 'g');
            assert(s[194].subrange(0, 6)[0] == s[194][0]);
        } else if i == 195 {
            assert(s[195][0] == 'g');
            assert(s[195].subrange(0, 6)[0] == s[195][0]);
        } else if i == 196 {
            assert(s[196][0] == 'g');
            assert(s[196].subrange(0, 6)[0] == s[196][0]);
        } else if i == 197 {
            assert(s[197][0] == 'g');
            assert(s[197].subrange(0, 6)[0] == s[197][0]);
        } else if i == 198 {
            assert(s[198][0] == 'g');
            assert(s[198].subrange(0, 6)[0] == s[198][0]);
        } else if i == 199 {
            assert(s[199][0] == 'g');
            assert(s[199].subrange(0, 6)[0] == s[199][0]);
        } else if i == 200 {
            assert(s[200][0] == 'g');
            assert(s[200].subrange(0, 6)[0] == s[200][0]);
        } else if i == 201 {
            assert(s[201][0] == 'g');
            assert(s[201].subrange(0, 6)[0] == s[201][0]);
        } else if i == 202 {
            assert(s[202][0] == 'g');
            assert(s[202].subrange(0, 6)[0] == s[202][0]);
        } else if i == 203 {
            assert(s[203][0] == 'g');
            assert(s[203].subrange(0, 6)[0] == s[203][0]);
        } else if i == 204 {
            assert(s[204][0] == 'g');
            assert(s[204].subrange(0, 6)[0] == s[204][0]);
        } else if i == 205 {
            assert(s[205].len() == 5);
        } else if i == 206 {
            assert(s[206][0] == 'g');
            assert(s[206].subrange(0, 6)[0] == s[206][0]);
        } else if i == 207 {
            assert(s[207][0] == 'g');
            assert(s[207].subrange(0, 6)[0] == s[207][0]);
        } else if i == 208 {
            assert(s[208][0] == 'g');
            assert(s[208].subrange(0, 6)[0] == s[208][0]);
        } else if i == 209 {
            assert(s[209][0] == 'g');
            assert(s[209].subrange(0, 6)[0] == s[209][0]);
        } else if i == 210 {
            assert(s[210][0] == 'g');
            assert(s[210].subrange(0, 6)[0] == s[210][0]);
        } else if i == 211 {
            assert(s[211][0] == 'g');
            assert(s[211].subrange(0, 6)[0] == s[211][0]);
        } else if i == 212 {
            assert(s[212][0] == 'g');
            assert(s[212].subrange(0, 6)[0] == s[212][0]);
        } else if i == 213 {
            assert(s[213][0] == 'g');
            assert(s[213].subrange(0, 6)[0] == s[213][0]);
        } else if i == 214 {
            assert(s[214][0] == 'g');
            assert(s[214].subrange(0, 6)[0] == s[214][0]);
        } else if i == 215 {
            assert(s[215][0] == 'g');
            assert(s[215].subrange(0, 6)[0] == s[215][0]);
        } else if i == 216 {
            assert(s[216][0] == 'g');
            assert(s[216].subrange(0, 6)[0] == s[216][0]);
        } else if i == 217 {
            assert(s[217][0] == 'g');
            assert(s[217].subrange(0, 6)[0] == s[217][0]);
        } else if i == 218 {
            assert(s[218][0] == 'g');
            assert(s[218].subrange(0, 6)[0] == s[218][0]);
        } else if i == 219 {
            assert(s[219][0] == 'g');
            assert(s[219].subrange(0, 6)[0] == s[219][0]);
        } else if i == 220 {
            assert(s[220].len() == 5);
        } else if i == 221 {
            assert(s[221][0] == 'g');
            assert(s[221].subrange(0, 6)[0] == s[221][0]);
        } else if i == 222 {
            assert(s[222][0] == 'g');
            assert(s[222].subrange(0, 6)[0] == s[222][0]);
        } else if i == 223 {
            assert(s[223][0] == 'g');
            assert(s[223].subrange(0, 6)[0] == s[223][0]);
        } else if i == 224 {
            assert(s[224][0] == 'g');
            assert(s[224].subrange(0, 6)[0] == s[224][0]);
        } else if i == 225 {
            assert(s[225][0] == 'g');
            assert(s[225].subrange(0, 6)[0] == s[225][0]);
        } else if i == 226 {
            assert(s[226][0] == 'g');
            assert(s[226].subrange(0, 6)[0] == s[226][0]);
        } else if i == 227 {
            assert(s[227][0] == 'g');
            assert(s[227].subrange(0, 6)[0] == s[227][0]);
        } else if i == 228 {
            assert(s[228][0] == 'g');
            assert(s[228].subrange(0, 6)[0] == s[228][0]);
        } else if i == 229 {
            assert(s[229][0] == 'g');
            assert(s[229].subrange(0, 6)[0] == s[229][0]);
        } else if i == 230 {
            assert(s[230][0] == 'g');
            assert(s[230].subrange(0, 6)[0] == s[230][0]);
        } else if i == 231 {
            assert(s[231][0] == 'g');
            assert(s[231].subrange(0, 6)[0] == s[231][0]);
        } else if i == 232 {
            assert(s[232][0] == 'g');
            assert(s[232].subrange(0, 6)[0] == s[232][0]);
        } else if i == 233 {
            assert(s[233][0] == 'g');
            assert(s[233].subrange(0, 6)[0] == s[233][0]);
        } else if i == 234 {
            assert(s[234][0] == 'g');
            assert(s[234].subrange(0, 6)[0] == s[234][0]);
        } else if i == 235 {
            assert(s[235][0] == 'g');
            assert(s[235].subrange(0, 6)[0] == s[235][0]);
        } else if i == 236 {
            assert(s[236][0] == 'g');
            assert(s[236].subrange(0, 6)[0] == s[236][0]);
        } else if i == 237 {
            assert(s[237][0] == 'g');
            assert(s[237].subrange(0, 6)[0] == s[237][0]);
        } else if i == 238 {
            assert(s[238].len() == 3);
        } else if i == 239 {
            assert(s[239].len() == 5);
        }
    }
}

proof fn lemma_pixel_format_bayer_slugs_4()
    ensures
        forall|i: int| 240 <= i < 285 ==> (begins_with(#[trigger] pixel_format_slugs()[i], "bayer_"@) <==> 249 <= i),
{
    reveal_strlit("bayer_");
    reveal_strlit("ya16le");
    reveal_strlit("ya16be");
    reveal_strlit("yaf16le");
    reveal_strlit("yaf16be");
    reveal_strlit("yaf32le");
    reveal_strlit("yaf32be");
    reveal_strlit("monowhite");
    reveal_strlit("monoblack");
    reveal_strlit("pal8");
    reveal_strlit("bayer_bggr8");
    reveal_strlit("bayer_rggb8");
    reveal_strlit("bayer_gbrg8");
    reveal_strlit("bayer_grbg8");
    reveal_strlit("bayer_bggr10le");
    reveal_strlit("bayer_bggr10be");
    reveal_strlit("bayer_rggb10le");
    reveal_strlit("bayer_rggb10be");
    reveal_strlit("bayer_gbrg10le");
    reveal_strlit("bayer_gbrg10be");
    reveal_strlit("bayer_grbg10le");
    reveal_strlit("bayer_grbg10be");
    reveal_strlit("bayer_bggr12le");
    reveal_strlit("bayer_bggr12be");
    reveal_strlit("bayer_rggb12le");
    reveal_strlit("bayer_rggb12be");
    reveal_strlit("bayer_gbrg12le");
    reveal_strlit("bayer_gbrg12be");
    reveal_strlit("bayer_grbg12le");
    reveal_strlit("bayer_grbg12be");
    reveal_strlit("bayer_bggr14le");
    reveal_strlit("bayer_bggr14be");
    reveal_strlit("bayer_rggb14le");
    reveal_strlit("bayer_rggb14be");
    reveal_strlit("bayer_gbrg14le");
    reveal_strlit("bayer_gbrg14be");
    reveal_strlit("bayer_grbg14le");
    reveal_strlit("bayer_grbg14be");
    reveal_strlit("bayer_bggr16le");
    reveal_strlit("bayer_bggr16be");
    reveal_strlit("bayer_rggb16le");
    reveal_strlit("bayer_rggb16be");
    reveal_strlit("bayer_gbrg16le");
    reveal_strlit("bayer_gbrg16be");
    reveal_strlit("bayer_grbg16le");
    reveal_strlit("bayer_grbg16be");
    let s = pixel_format_slugs();
    assert(s.len() == 285);
    assert forall|i: int| 240 <= i < 285 implies (begins_with(#[trigger] s[i], "bayer_"@) <==> 249 <= i) by {
        if i == 240 {
            assert(s[240][0] == 'y');
            assert(s[240].subrange(0, 6)[0] == s[240][0]);
        } else if i == 241 {
            assert(s[241][0] == 'y');
            assert(s[241].subrange(0, 6)[0] == s[241][0]);
        } else if i == 242 {
            assert(s[242][0] == 'y');
            assert(s[242].subrange(0, 6)[0] == s[242][0]);
        } else if i == 243 {
            assert(s[243][0] == 'y');
            assert(s[243].subrange(0, 6)[0] == s[243][0]);
        } else if i == 244 {
            assert(s[244][0] == 'y');
            assert(s[244].subrange(0, 6)[0] == s[244][0]);
        } else if i == 245 {
            assert(s[245][0] == 'y');
            assert(s[245].subrange(0, 6)[0] == s[245][0]);
        } else if i == 246 {
            assert(s[246][0] == 'm');
            assert(s[246].subrange(0, 6)[0] == s[246][0]);
        } else if i == 247 {
            assert(s[247][0] == 'm');
            assert(s[247].subrange(0, 6)[0] == s[247][0]);
        } else if i == 248 {
            assert(s[248].len() == 4);
        } else if i == 249 {
            assert(s[249].subrange(0, 6) =~= "bayer_"@);
        } else if i == 250 {
            assert(s[250].subrange(0, 6) =~= "bayer_"@);
        } else if i == 251 {
            assert(s[251].subrange(0, 6) =~= "bayer_"@);
        } else if i == 252 {
            assert(s[252].subrange(0, 6) =~= "bayer_"@);
        } else if i == 253 {
            assert(s[253].subrange(0, 6) =~= "bayer_"@);
        } else if i == 254 {
            assert(s[254].subrange(0, 6) =~= "bayer_"@);
        } else if i == 255 {
            assert(s[255].subrange(0, 6) =~= "bayer_"@);
        } else if i == 256 {
            assert(s[256].subrange(0, 6) =~= "bayer_"@);
        } else if i == 257 {
            assert(s[257].subrange(0, 6) =~= "bayer_"@);
        } else if i == 258 {
            assert(s[258].subrange(0, 6) =~= "bayer_"@);
        } else if i == 259 {
            assert(s[259].subrange(0, 6) =~= "bayer_"@);
        } else if i == 260 {
            assert(s[260].subrange(0, 6) =~= "bayer_"@);
        } else if i == 261 {
            assert(s[261].subrange(0, 6) =~= "bayer_"@);
        } else if i == 262 {
            assert(s[262].subrange(0, 6) =~= "bayer_"@);
        } else if i == 263 {
            assert(s[263].subrange(0, 6) =~= "bayer_"@);
        } else if i == 264 {
            assert(s[264].subrange(0, 6) =~= "bayer_"@);
        } else if i == 265 {
            assert(s[265].subrange(0, 6) =~= "bayer_"@);
        } else if i == 266 {
            assert(s[266].subrange(0, 6) =~= "bayer_"@);
        } else if i == 267 {
            assert(s[267].subrange(0, 6) =~= "bayer_"@);
        } else if i == 268 {
            assert(s[268].subrange(0, 6) =~= "bayer_"@);
        } else if i == 269 {
            assert(s[269].subrange(0, 6) =~= "bayer_"@);
        } else if i == 270 {
            assert(s[270].subrange(0, 6) =~= "bayer_"@);
        } else if i == 271 {
            assert(s[271].subrange(0, 6) =~= "bayer_"@);
        } else if i == 272 {
            assert(s[272].subrange(0, 6) =~= "bayer_"@);
        } else if i == 273 {
            assert(s[273].subrange(0, 6) =~= "bayer_"@);
        } else if i == 274 {
            assert(s[274].subrange(0, 6) =~= "bayer_"@);
        } else if i == 275 {
            assert(s[275].subrange(0, 6) =~= "bayer_"@);
        } else if i == 276 {
            assert(s[276].subrange(0, 6) =~= "bayer_"@);
        } else if i == 277 {
            assert(s[277].subrange(0, 6) =~= "bayer_"@);
        } else if i == 278 {
            assert(s[278].subrange(0, 6) =~= "bayer_"@);
        } else if i == 279 {
            assert(s[279].subrange(0, 6) =~= "bayer_"@);
        } else if i == 280 {
            assert(s[280].subrange(0, 6) =~= "bayer_"@);
        } else if i == 281 {
            assert(s[281].subrange(0, 6) =~= "bayer_"@);
        } else if i == 282 {
            assert(s[282].subrange(0, 6) =~= "bayer_"@);
        } else if i == 283 {
            assert(s[283].subrange(0, 6) =~= "bayer_"@);
        } else if i == 284 {
            assert(s[284].subrange(0, 6) =~= "bayer_"@);
        }
    }
}

/// Which roster slugs open with `bayer_`: exactly the last thirty-six.
proof fn lemma_pixel_format_bayer_slugs()
    ensures
        forall|i: int| 0 <= i < 285 ==> (begins_with(#[trigger] pixel_format_slugs()[i], "bayer_"@) <==> 249 <= i),
{
    lemma_pixel_format_bayer_slugs_0();
    lemma_pixel_format_bayer_slugs_1();
    lemma_pixel_format_bayer_slugs_2();
    lemma_pixel_format_bayer_slugs_3();
    lemma_pixel_format_bayer_slugs_4();
}

/// **A pixel format is a Bayer layout exactly when its slug opens with `bayer_`**: all thirty-six
/// colour-filter-array layouts, and nothing else — an unnamed format included.
pub proof fn law_pixel_format_bayer_is_the_bayer_prefix(t: Term)
    requires
        t matches Term::Named(i) ==> i < 285,
    ensures
        pixel_format_is_bayer(t) <==> (t is Named && begins_with(term_text(pixel_format_slugs(), t), "bayer_"@)),
{
    lemma_pixel_format_bayer_slugs();
    if let Term::Named(i) = t {
        assert(begins_with(pixel_format_slugs()[i as int], "bayer_"@) <==> 249 <= i);
    }
}

/// The nine aliases FFmpeg deprecated in favour of another name for the same bytes.
pub open spec fn pixel_format_alias(s: Seq<char>) -> bool {
    s == "yuvj411p"@ || s == "yuvj420p"@ || s == "yuvj422p"@ || s == "yuvj440p"@ || s == "yuvj444p"@ || s == "gray8a"@ || s == "y400a"@ || s == "xv30le"@ || s == "xv30be"@
}

/// The slug each alias resolves onto; every other slug maps to itself.
pub open spec fn pixel_format_alias_target(s: Seq<char>) -> Seq<char> {
    if false {
        s
    } else if s == "yuvj411p"@ {
        "yuv411p"@
    } else if s == "yuvj420p"@ {
        "yuv420p"@
    } else if s == "yuvj422p"@ {
        "yuv422p"@
    } else if s == "yuvj440p"@ {
        "yuv440p"@
    } else if s == "yuvj444p"@ {
        "yuv444p"@
    } else if s == "gray8a"@ {
        "ya8"@
    } else if s == "y400a"@ {
        "ya8"@
    } else if s == "xv30le"@ {
        "v410le"@
    } else if s == "xv30be"@ {
        "v410be"@
    } else {
        s
    }
}

/// The alias slugs stand at their roster positions, and nowhere else.
proof fn lemma_pixel_format_alias_positions(i: int)
    requires
        0 <= i < 285,
    ensures
        pixel_format_alias(pixel_format_slugs()[i]) <==> (7 <= i <= 11 || i == 221 || i == 239 || i == 116 || i == 117),
{
    reveal_strlit("yuvj411p");
    reveal_strlit("yuvj420p");
    reveal_strlit("yuvj422p");
    reveal_strlit("yuvj440p");
    reveal_strlit("yuvj444p");
    reveal_strlit("gray8a");
    reveal_strlit("y400a");
    reveal_strlit("xv30le");
    reveal_strlit("xv30be");
    reveal_strlit("v410be");
    reveal_strlit("v410le");
    reveal_strlit("ya8");
    reveal_strlit("yuv411p");
    reveal_strlit("yuv420p");
    reveal_strlit("yuv422p");
    reveal_strlit("yuv440p");
    reveal_strlit("yuv444p");
    lemma_pixel_format_slug_keys();
    let s = pixel_format_slugs();
    assert(text_key("yuvj411p"@) == 8156637080139036282);
    assert(text_key("yuvj420p"@) == 8156356704673953402);
    assert(text_key("yuvj422p"@) == 8156919654627374714);
    assert(text_key("yuvj440p"@) == 8156358903697208954);
    assert(text_key("yuvj444p"@) == 8157484803604051578);
    assert(text_key("gray8a"@) == 107999005930344);
    assert(text_key("y400a"@) == 421732103546);
    assert(text_key("xv30le"@) == 112619162990457);
    assert(text_key("xv30be"@) == 112576213317497);
    assert(slug_of_key(text_key(s[i])) == i);
    assert(s[7] == "yuvj411p"@);
    assert(s[8] == "yuvj420p"@);
    assert(s[9] == "yuvj422p"@);
    assert(s[10] == "yuvj440p"@);
    assert(s[11] == "yuvj444p"@);
    assert(s[221] == "gray8a"@);
    assert(s[239] == "y400a"@);
    assert(s[116] == "xv30le"@);
    assert(s[117] == "xv30be"@);
}

/// Where each alias resolves, by slug.
proof fn lemma_pixel_format_alias_targets()
    ensures
        pixel_format_alias_target("yuvj411p"@) == "yuv411p"@,
        pixel_format_alias_target("yuvj420p"@) == "yuv420p"@,
        pixel_format_alias_target("yuvj422p"@) == "yuv422p"@,
        pixel_format_alias_target("yuvj440p"@) == "yuv440p"@,
        pixel_format_alias_target("yuvj444p"@) == "yuv444p"@,
        pixel_format_alias_target("gray8a"@) == "ya8"@,
        pixel_format_alias_target("y400a"@) == "ya8"@,
        pixel_format_alias_target("xv30le"@) == "v410le"@,
        pixel_format_alias_target("xv30be"@) == "v410be"@,
{
    reveal_strlit("yuvj411p");
    reveal_strlit("yuvj420p");
    reveal_strlit("yuvj422p");
    reveal_strlit("yuvj440p");
    reveal_strlit("yuvj444p");
    reveal_strlit("gray8a");
    reveal_strlit("y400a");
    reveal_strlit("xv30le");
    reveal_strlit("xv30be");
    reveal_strlit("v410be");
    reveal_strlit("v410le");
    reveal_strlit("ya8");
    reveal_strlit("yuv411p");
    reveal_strlit("yuv420p");
    reveal_strlit("yuv422p");
    reveal_strlit("yuv440p");
    reveal_strlit("yuv444p");
    assert(pixel_format_alias_target("yuvj411p"@) == "yuv411p"@);
    assert("yuvj420p"@[5] != "yuvj411p"@[5]);
    assert(pixel_format_alias_target("yuvj420p"@) == "yuv420p"@);
    assert("yuvj422p"@[5] != "yuvj411p"@[5]);
    assert("yuvj422p"@[6] != "yuvj420p"@[6]);
    assert(pixel_format_alias_target("yuvj422p"@) == "yuv422p"@);
    assert("yuvj440p"@[5] != "yuvj411p"@[5]);
    assert("yuvj440p"@[5] != "yuvj420p"@[5]);
    assert("yuvj440p"@[5] != "yuvj422p"@[5]);
    assert(pixel_format_alias_target("yuvj440p"@) == "yuv440p"@);
    assert("yuvj444p"@[5] != "yuvj411p"@[5]);
    assert("yuvj444p"@[5] != "yuvj420p"@[5]);
    assert("yuvj444p"@[5] != "yuvj422p"@[5]);
    assert("yuvj444p"@[6] != "yuvj440p"@[6]);
    assert(pixel_format_alias_target("yuvj444p"@) == "yuv444p"@);
    assert("gray8a"@.len() != "yuvj411p"@.len());
    assert("gray8a"@.len() != "yuvj420p"@.len());
    assert("gray8a"@.len() != "yuvj422p"@.len());
    assert("gray8a"@.len() != "yuvj440p"@.len());
    assert("gray8a"@.len() != "yuvj444p"@.len());
    assert(pixel_format_alias_target("gray8a"@) == "ya8"@);
    assert("y400a"@.len() != "yuvj411p"@.len());
    assert("y400a"@.len() != "yuvj420p"@.len());
    assert("y400a"@.len() != "yuvj422p"@.len());
    assert("y400a"@.len() != "yuvj440p"@.len());
    assert("y400a"@.len() != "yuvj444p"@.len());
    assert("y400a"@.len() != "gray8a"@.len());
    assert(pixel_format_alias_target("y400a"@) == "ya8"@);
    assert("xv30le"@.len() != "yuvj411p"@.len());
    assert("xv30le"@.len() != "yuvj420p"@.len());
    assert("xv30le"@.len() != "yuvj422p"@.len());
    assert("xv30le"@.len() != "yuvj440p"@.len());
    assert("xv30le"@.len() != "yuvj444p"@.len());
    assert("xv30le"@[0] != "gray8a"@[0]);
    assert("xv30le"@.len() != "y400a"@.len());
    assert(pixel_format_alias_target("xv30le"@) == "v410le"@);
    assert("xv30be"@.len() != "yuvj411p"@.len());
    assert("xv30be"@.len() != "yuvj420p"@.len());
    assert("xv30be"@.len() != "yuvj422p"@.len());
    assert("xv30be"@.len() != "yuvj440p"@.len());
    assert("xv30be"@.len() != "yuvj444p"@.len());
    assert("xv30be"@[0] != "gray8a"@[0]);
    assert("xv30be"@.len() != "y400a"@.len());
    assert("xv30be"@[4] != "xv30le"@[4]);
    assert(pixel_format_alias_target("xv30be"@) == "v410be"@);
}

/// **`canonical` moves only the nine aliases**, each onto the format named for the same bytes, and
/// pins full range exactly for the `yuvj` ones; every other format — unnamed ones included — is
/// its own canonical form, with no range pinned.
pub proof fn law_pixel_format_canonical_moves_only_aliases(t: Term)
    requires
        t matches Term::Named(i) ==> i < 285,
    ensures
        !(t is Named && pixel_format_alias(term_text(pixel_format_slugs(), t))) ==> pixel_format_canonical(t) == (t, false),
        t is Named && pixel_format_alias(term_text(pixel_format_slugs(), t)) ==> {
            let c = pixel_format_canonical(t);
            &&& c.0 is Named
            &&& term_text(pixel_format_slugs(), c.0) == pixel_format_alias_target(term_text(pixel_format_slugs(), t))
            &&& c.1 == begins_with(term_text(pixel_format_slugs(), t), "yuvj"@)
        },
{
    if let Term::Named(i) = t {
        lemma_pixel_format_alias_positions(i as int);
        let s = pixel_format_slugs();
        reveal_strlit("yuvj");
    reveal_strlit("yuvj411p");
    reveal_strlit("yuvj420p");
    reveal_strlit("yuvj422p");
    reveal_strlit("yuvj440p");
    reveal_strlit("yuvj444p");
    reveal_strlit("gray8a");
    reveal_strlit("y400a");
    reveal_strlit("xv30le");
    reveal_strlit("xv30be");
    reveal_strlit("v410be");
    reveal_strlit("v410le");
    reveal_strlit("ya8");
    reveal_strlit("yuv411p");
    reveal_strlit("yuv420p");
    reveal_strlit("yuv422p");
    reveal_strlit("yuv440p");
    reveal_strlit("yuv444p");
        if 7 <= i <= 11 || i == 221 || i == 239 || i == 116 || i == 117 {
            lemma_pixel_format_alias_targets();
            assert(s[7] == "yuvj411p"@);
            assert(s[8] == "yuvj420p"@);
            assert(s[9] == "yuvj422p"@);
            assert(s[10] == "yuvj440p"@);
            assert(s[11] == "yuvj444p"@);
            assert(s[221] == "gray8a"@);
            assert(s[239] == "y400a"@);
            assert(s[116] == "xv30le"@);
            assert(s[117] == "xv30be"@);
            assert(s[5] == "yuv411p"@);
            assert(s[1] == "yuv420p"@);
            assert(s[2] == "yuv422p"@);
            assert(s[3] == "yuv440p"@);
            assert(s[4] == "yuv444p"@);
            assert(s[238] == "ya8"@);
            assert(s[114] == "v410le"@);
            assert(s[115] == "v410be"@);
            if 7 <= i <= 11 {
                assert(s[i as int].subrange(0, 4) =~= "yuvj"@);
            } else {
                assert(s[i as int].subrange(0, 4) != "yuvj"@) by {
                    if i == 221 || i == 239 {
                        assert(s[i as int].subrange(0, 4)[1] != "yuvj"@[1]);
                    } else {
                        assert(s[i as int].subrange(0, 4)[0] != "yuvj"@[0]);
                    }
                }
            }
        }
    }
}

} // verus!
