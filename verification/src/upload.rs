//! The raw-buffer texture upload path: map a decoded frame's pixel-format
//! descriptor onto the normalized source-image description the GPU-side
//! format converter accepts, padding packed 8-bit RGB to four channels on the
//! way, and refuse frames whose pixel data does not match their descriptor.

use vstd::prelude::*;

use crate::error::{TextureCopyError, VideoPlayerError};
use crate::frame::{FrameContent, PixelFormat};

verus! {

/// A GPU texture format the upload can write directly, with no colorspace
/// conversion. The raw-buffer path only ever emits four-channel packed RGBA.
#[derive(Clone, Copy, PartialEq, Eq, Structural, Debug)]
pub enum TextureFormat {
    Rgba8Unorm,
}

/// Plane layout as the downstream format converter names it.
#[derive(Clone, Copy, PartialEq, Eq, Structural, Debug)]
#[allow(non_camel_case_types)]
pub enum YuvPixelLayout {
    Y_U_V444,
    Y_U_V422,
    Y_U_V420,
    Y400,
}

/// Sample range as the downstream format converter names it.
#[derive(Clone, Copy, PartialEq, Eq, Structural, Debug)]
pub enum YuvRange {
    Limited,
    Full,
}

/// Conversion matrix as the downstream format converter names it.
#[derive(Clone, Copy, PartialEq, Eq, Structural, Debug)]
pub enum YuvMatrixCoefficients {
    Identity,
    Bt601,
    Bt709,
}

/// The normalized source-format descriptor the upload actually used: either
/// data a GPU texture accepts as it is, or planar YUV for the downstream
/// converter.
#[derive(Clone, Copy, PartialEq, Eq, Structural, Debug)]
pub enum SourceImageDataFormat {
    WgpuCompatible(TextureFormat),
    Yuv {
        layout: YuvPixelLayout,
        coefficients: YuvMatrixCoefficients,
        range: YuvRange,
    },
}

/// The decoder-side plane layout carried over unchanged.
pub open spec fn spec_map_yuv_layout(layout: crate::frame::YuvPixelLayout) -> YuvPixelLayout {
    match layout {
        crate::frame::YuvPixelLayout::Y_U_V444 => YuvPixelLayout::Y_U_V444,
        crate::frame::YuvPixelLayout::Y_U_V422 => YuvPixelLayout::Y_U_V422,
        crate::frame::YuvPixelLayout::Y_U_V420 => YuvPixelLayout::Y_U_V420,
        crate::frame::YuvPixelLayout::Y400 => YuvPixelLayout::Y400,
    }
}

/// The decoder-side sample range carried over unchanged.
pub open spec fn spec_map_yuv_range(range: crate::frame::YuvRange) -> YuvRange {
    match range {
        crate::frame::YuvRange::Limited => YuvRange::Limited,
        crate::frame::YuvRange::Full => YuvRange::Full,
    }
}

/// The decoder-side conversion matrix carried over unchanged.
pub open spec fn spec_map_yuv_coefficients(
    coefficients: crate::frame::YuvMatrixCoefficients,
) -> YuvMatrixCoefficients {
    match coefficients {
        crate::frame::YuvMatrixCoefficients::Identity => YuvMatrixCoefficients::Identity,
        crate::frame::YuvMatrixCoefficients::Bt601 => YuvMatrixCoefficients::Bt601,
        crate::frame::YuvMatrixCoefficients::Bt709 => YuvMatrixCoefficients::Bt709,
    }
}

/// How many bytes of pixel data a frame of this format and size must carry.
/// Chroma planes of subsampled layouts round their dimensions up.
pub open spec fn spec_expected_data_len(format: PixelFormat, width: u32, height: u32) -> int {
    let w = width as int;
    let h = height as int;
    match format {
        PixelFormat::Rgb8Unorm => 3 * (w * h),
        PixelFormat::Rgba8Unorm => 4 * (w * h),
        PixelFormat::Yuv { layout, .. } => match layout {
            crate::frame::YuvPixelLayout::Y_U_V444 => 3 * (w * h),
            crate::frame::YuvPixelLayout::Y_U_V422 => w * h + 2 * (((w + 1) / 2) * h),
            crate::frame::YuvPixelLayout::Y_U_V420 => w * h + 2 * (((w + 1) / 2) * ((h + 1)
                / 2)),
            crate::frame::YuvPixelLayout::Y400 => w * h,
        },
    }
}

/// Packed RGB padded to packed RGBA: every pixel keeps its three channels and
/// gains `pad` as the fourth.
pub open spec fn spec_pad_rgb_to_rgba(s: Seq<u8>, pad: u8) -> Seq<u8> {
    Seq::new(
        s.len() / 3 * 4,
        |i: int| if i % 4 == 3 {
            pad
        } else {
            s[i / 4 * 3 + i % 4]
        },
    )
}

/// Pad packed 8-bit RGB data to packed 8-bit RGBA, writing `pad` as every
/// pixel's fourth channel.
pub fn pad_rgb_to_rgba(rgb: &Vec<u8>, pad: u8) -> (rgba: Vec<u8>)
    requires
        rgb@.len() % 3 == 0,
    ensures
        rgba@ == spec_pad_rgb_to_rgba(rgb@, pad),
{
    let len = rgb.len();
    let n = len / 3;
    let mut rgba: Vec<u8> = Vec::new();
    let mut p: usize = 0;
    while p < n
        invariant
            n == rgb@.len() / 3,
            rgb@.len() % 3 == 0,
            rgb@.len() == 3 * n,
            rgb@.len() <= usize::MAX,
            p <= n,
            rgba@.len() == 4 * p,
            forall|k: int|
                0 <= k < 4 * p ==> rgba@[k] == (if k % 4 == 3 {
                    pad
                } else {
                    rgb@[k / 4 * 3 + k % 4]
                }),
        decreases n - p,
    {
        rgba.push(rgb[3 * p]);
        rgba.push(rgb[3 * p + 1]);
        rgba.push(rgb[3 * p + 2]);
        rgba.push(pad);
        p += 1;
    }
    proof {
        assert(rgba@ =~= spec_pad_rgb_to_rgba(rgb@, pad));
    }
    rgba
}

/// What the raw-buffer upload ships to the GPU: the (possibly padded) pixel
/// bytes, the normalized format descriptor, and the frame's dimensions.
#[derive(Debug)]
pub struct TextureUpload {
    pub data: Vec<u8>,
    pub format: SourceImageDataFormat,
    pub width: u32,
    pub height: u32,
}

/// The normalized descriptor each decoder-side format maps to: packed RGB is
/// padded to four channels, packed RGBA passes through, and planar YUV keeps
/// its layout, range and coefficients.
pub open spec fn spec_upload_format(format: PixelFormat) -> SourceImageDataFormat {
    match format {
        PixelFormat::Rgb8Unorm => SourceImageDataFormat::WgpuCompatible(TextureFormat::Rgba8Unorm),
        PixelFormat::Rgba8Unorm => SourceImageDataFormat::WgpuCompatible(
            TextureFormat::Rgba8Unorm,
        ),
        PixelFormat::Yuv { layout, range, coefficients } => (SourceImageDataFormat::Yuv {
            layout: spec_map_yuv_layout(layout),
            coefficients: spec_map_yuv_coefficients(coefficients),
            range: spec_map_yuv_range(range),
        }),
    }
}

/// The bytes the upload ships: padded for packed RGB, unchanged otherwise.
pub open spec fn spec_upload_data(format: PixelFormat, data: Seq<u8>) -> Seq<u8> {
    match format {
        PixelFormat::Rgb8Unorm => spec_pad_rgb_to_rgba(data, 255),
        _ => data,
    }
}

proof fn lemma_dimension_products(w: int, h: int)
    requires
        0 <= w <= 0xffff_ffff,
        0 <= h <= 0xffff_ffff,
    ensures
        0 <= w * h <= 0xffff_ffff * 0xffff_ffff,
        0 <= ((w + 1) / 2) * h <= 0x8000_0000 * 0xffff_ffff,
        0 <= ((w + 1) / 2) * ((h + 1) / 2) <= 0x8000_0000 * 0x8000_0000,
{
    vstd::arithmetic::mul::lemma_mul_upper_bound(w, 0xffff_ffff, h, 0xffff_ffff);
    vstd::arithmetic::mul::lemma_mul_upper_bound((w + 1) / 2, 0x8000_0000, h, 0xffff_ffff);
    vstd::arithmetic::mul::lemma_mul_upper_bound(
        (w + 1) / 2,
        0x8000_0000,
        (h + 1) / 2,
        0x8000_0000,
    );
    vstd::arithmetic::mul::lemma_mul_nonnegative(w, h);
    vstd::arithmetic::mul::lemma_mul_nonnegative((w + 1) / 2, h);
    vstd::arithmetic::mul::lemma_mul_nonnegative((w + 1) / 2, (h + 1) / 2);
}

/// How many bytes of pixel data a frame of this format and size must carry.
pub fn expected_data_len(format: PixelFormat, width: u32, height: u32) -> (r: u128)
    ensures
        r as int == spec_expected_data_len(format, width, height),
{
    proof {
        lemma_dimension_products(width as int, height as int);
    }
    let w = width as u128;
    let h = height as u128;
    match format {
        PixelFormat::Rgb8Unorm => 3 * (w * h),
        PixelFormat::Rgba8Unorm => 4 * (w * h),
        PixelFormat::Yuv { layout, .. } => match layout {
            crate::frame::YuvPixelLayout::Y_U_V444 => 3 * (w * h),
            crate::frame::YuvPixelLayout::Y_U_V422 => w * h + 2 * (((w + 1) / 2) * h),
            crate::frame::YuvPixelLayout::Y_U_V420 => w * h + 2 * (((w + 1) / 2) * ((h + 1)
                / 2)),
            crate::frame::YuvPixelLayout::Y400 => w * h,
        },
    }
}

/// Map a decoded frame's pixel content onto the upload the GPU path accepts:
/// packed 8-bit RGB is padded to four channels, packed RGBA passes through,
/// planar YUV forwards layout, range and coefficients unchanged. A frame
/// whose data length does not match its descriptor is refused with a
/// texture-copy error.
pub fn build_texture_upload(content: &FrameContent) -> (r: Result<TextureUpload, VideoPlayerError>)
    ensures
        content.data@.len() == spec_expected_data_len(content.format, content.width, content.height)
            ==> (match r {
            Ok(up) => up.data@ == spec_upload_data(content.format, content.data@) && up.format
                == spec_upload_format(content.format) && up.width == content.width && up.height
                == content.height,
            Err(_) => false,
        }),
        content.data@.len() != spec_expected_data_len(content.format, content.width, content.height)
            ==> (match r {
            Ok(_) => false,
            Err(e) => e matches VideoPlayerError::TextureCopy(tce) && tce.format == content.format
                && tce.width == content.width && tce.height == content.height
                && tce.actual_data_len == content.data@.len(),
        }),
{
    let expected = expected_data_len(content.format, content.width, content.height);
    if content.data.len() as u128 != expected {
        return Err(
            VideoPlayerError::TextureCopy(
                TextureCopyError {
                    format: content.format,
                    width: content.width,
                    height: content.height,
                    actual_data_len: content.data.len() as u64,
                },
            ),
        );
    }
    match content.format {
        PixelFormat::Rgb8Unorm => {
            proof {
                vstd::arithmetic::div_mod::lemma_mod_multiples_basic(
                    (content.width as int) * (content.height as int),
                    3,
                );
                assert(3 * (content.width as int) * (content.height as int) == (content.width
                    as int) * (content.height as int) * 3) by (nonlinear_arith);
            }
            let data = pad_rgb_to_rgba(&content.data, 255);
            Ok(
                TextureUpload {
                    data,
                    format: SourceImageDataFormat::WgpuCompatible(TextureFormat::Rgba8Unorm),
                    width: content.width,
                    height: content.height,
                },
            )
        },
        PixelFormat::Rgba8Unorm => {
            let data = clone_bytes(&content.data);
            Ok(
                TextureUpload {
                    data,
                    format: SourceImageDataFormat::WgpuCompatible(TextureFormat::Rgba8Unorm),
                    width: content.width,
                    height: content.height,
                },
            )
        },
        PixelFormat::Yuv { layout, range, coefficients } => {
            let data = clone_bytes(&content.data);
            Ok(
                TextureUpload {
                    data,
                    format: SourceImageDataFormat::Yuv {
                        layout: match layout {
                            crate::frame::YuvPixelLayout::Y_U_V444 => YuvPixelLayout::Y_U_V444,
                            crate::frame::YuvPixelLayout::Y_U_V422 => YuvPixelLayout::Y_U_V422,
                            crate::frame::YuvPixelLayout::Y_U_V420 => YuvPixelLayout::Y_U_V420,
                            crate::frame::YuvPixelLayout::Y400 => YuvPixelLayout::Y400,
                        },
                        coefficients: match coefficients {
                            crate::frame::YuvMatrixCoefficients::Identity => (
                            YuvMatrixCoefficients::Identity),
                            crate::frame::YuvMatrixCoefficients::Bt601 => (
                            YuvMatrixCoefficients::Bt601),
                            crate::frame::YuvMatrixCoefficients::Bt709 => (
                            YuvMatrixCoefficients::Bt709),
                        },
                        range: match range {
                            crate::frame::YuvRange::Limited => YuvRange::Limited,
                            crate::frame::YuvRange::Full => YuvRange::Full,
                        },
                    },
                    width: content.width,
                    height: content.height,
                },
            )
        },
    }
}

/// An owned copy of the pixel bytes, made without touching their values.
fn clone_bytes(src: &Vec<u8>) -> (r: Vec<u8>)
    ensures
        r@ == src@,
{
    let r = src.clone();
    proof {
        assert forall|i: int| 0 <= i < r@.len() implies r@[i] == src@[i] by {
            assert(cloned::<u8>(src@[i], r@[i]));
        }
        assert(r@ =~= src@);
    }
    r
}

} // verus!
