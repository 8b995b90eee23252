use video_chunk_decoder::decoder::{AsyncDecoder, VideoChunkDecoder, VideoTexture};
use video_chunk_decoder::error::{DecodingError, VideoPlayerError};
use video_chunk_decoder::frame::{Chunk, Frame, FrameContent, FrameInfo, PixelFormat};
use video_chunk_decoder::upload;
use video_chunk_decoder::upload::{
    build_texture_upload, expected_data_len, pad_rgb_to_rgba, SourceImageDataFormat,
    TextureFormat,
};

struct IdleDecoder;

impl AsyncDecoder for IdleDecoder {
    fn submit_chunk(&mut self, _chunk: Chunk) -> Result<(), DecodingError> {
        Ok(())
    }
    fn end_of_video(&mut self) -> Result<(), DecodingError> {
        Ok(())
    }
    fn reset(&mut self) -> Result<(), DecodingError> {
        Ok(())
    }
}

#[test]
fn pad_rgb_exact_values() {
    let rgb = vec![9, 8, 7];
    assert_eq!(pad_rgb_to_rgba(&rgb, 255), vec![9, 8, 7, 255]);
    let rgb = vec![1, 2, 3, 4, 5, 6];
    assert_eq!(pad_rgb_to_rgba(&rgb, 0), vec![1, 2, 3, 0, 4, 5, 6, 0]);
    let empty: Vec<u8> = Vec::new();
    assert_eq!(pad_rgb_to_rgba(&empty, 255), Vec::<u8>::new());
}

#[test]
fn expected_data_len_formulas() {
    let yuv = |layout| PixelFormat::Yuv {
        layout,
        range: video_chunk_decoder::frame::YuvRange::Limited,
        coefficients: video_chunk_decoder::frame::YuvMatrixCoefficients::Bt601,
    };
    assert_eq!(expected_data_len(PixelFormat::Rgb8Unorm, 4, 3), 36);
    assert_eq!(expected_data_len(PixelFormat::Rgba8Unorm, 4, 3), 48);
    assert_eq!(
        expected_data_len(yuv(video_chunk_decoder::frame::YuvPixelLayout::Y_U_V444), 4, 3),
        36
    );
    // 4:2:2 with an odd width rounds the chroma width up: 3*2 + 2*(2*2) = 14.
    assert_eq!(
        expected_data_len(yuv(video_chunk_decoder::frame::YuvPixelLayout::Y_U_V422), 3, 2),
        14
    );
    // 4:2:0 with odd dimensions rounds both up: 3*3 + 2*(2*2) = 17.
    assert_eq!(
        expected_data_len(yuv(video_chunk_decoder::frame::YuvPixelLayout::Y_U_V420), 3, 3),
        17
    );
    assert_eq!(
        expected_data_len(yuv(video_chunk_decoder::frame::YuvPixelLayout::Y400), 4, 3),
        12
    );
}

#[test]
fn rgb_frame_padded_to_four_channels() {
    // A packed 8-bit RGB frame on the raw-buffer upload path is converted to
    // a 4-channel packed format; the returned descriptor reflects the
    // 4-channel format, not the original 3-channel one.
    let content = FrameContent {
        data: vec![1, 2, 3, 4, 5, 6],
        width: 2,
        height: 1,
        format: PixelFormat::Rgb8Unorm,
    };
    let up = build_texture_upload(&content).expect("a valid RGB frame");
    assert_eq!(up.data, vec![1, 2, 3, 255, 4, 5, 6, 255]);
    assert_eq!(up.format, SourceImageDataFormat::WgpuCompatible(TextureFormat::Rgba8Unorm));
    assert_eq!((up.width, up.height), (2, 1));
}

#[test]
fn rgb_frame_padded_through_update_path() {
    let mut d = VideoChunkDecoder::new(IdleDecoder);
    let frame = Frame {
        content: FrameContent {
            data: vec![1, 2, 3],
            width: 1,
            height: 1,
            format: PixelFormat::Rgb8Unorm,
        },
        info: FrameInfo { presentation_timestamp: 0, duration: 10 },
    };
    d.on_decoder_output(Ok(frame), 0);
    let mut tex = VideoTexture::new();
    let up = d
        .update_video_texture(&mut tex, 0)
        .expect("a frame is buffered")
        .expect("an exact match is uploaded");
    assert_eq!(up.data, vec![1, 2, 3, 255]);
    assert_eq!(up.format, SourceImageDataFormat::WgpuCompatible(TextureFormat::Rgba8Unorm));
    assert_eq!(
        tex.source_pixel_format,
        Some(SourceImageDataFormat::WgpuCompatible(TextureFormat::Rgba8Unorm))
    );
}

#[test]
fn rgba_frame_passes_through() {
    let content = FrameContent {
        data: vec![1, 2, 3, 4],
        width: 1,
        height: 1,
        format: PixelFormat::Rgba8Unorm,
    };
    let up = build_texture_upload(&content).expect("a valid RGBA frame");
    assert_eq!(up.data, vec![1, 2, 3, 4]);
    assert_eq!(up.format, SourceImageDataFormat::WgpuCompatible(TextureFormat::Rgba8Unorm));
}

#[test]
fn yuv_descriptor_forwarded_unchanged() {
    // 4:2:0 at 4x4: 16 luma bytes + two 2x2 chroma planes = 24 bytes.
    let content = FrameContent {
        data: vec![0; 24],
        width: 4,
        height: 4,
        format: PixelFormat::Yuv {
            layout: video_chunk_decoder::frame::YuvPixelLayout::Y_U_V420,
            range: video_chunk_decoder::frame::YuvRange::Full,
            coefficients: video_chunk_decoder::frame::YuvMatrixCoefficients::Bt709,
        },
    };
    let up = build_texture_upload(&content).expect("a valid YUV frame");
    assert_eq!(up.data, vec![0; 24]);
    assert_eq!(
        up.format,
        SourceImageDataFormat::Yuv {
            layout: upload::YuvPixelLayout::Y_U_V420,
            coefficients: upload::YuvMatrixCoefficients::Bt709,
            range: upload::YuvRange::Full,
        }
    );
}

#[test]
fn expected_data_len_at_largest_dimensions() {
    // The byte count stays exact at the largest describable frame size.
    let max = u32::MAX as u128;
    assert_eq!(expected_data_len(PixelFormat::Rgba8Unorm, u32::MAX, u32::MAX), 4 * max * max);
    assert_eq!(expected_data_len(PixelFormat::Rgb8Unorm, u32::MAX, u32::MAX), 3 * max * max);
}

#[test]
fn malformed_frame_is_a_texture_copy_error() {
    let content = FrameContent {
        data: vec![1, 2, 3],
        width: 2,
        height: 2,
        format: PixelFormat::Rgba8Unorm,
    };
    match build_texture_upload(&content) {
        Err(VideoPlayerError::TextureCopy(e)) => {
            assert_eq!(e.actual_data_len, 3);
            assert_eq!((e.width, e.height), (2, 2));
        }
        other => panic!("expected a texture-copy error, got {other:?}"),
    }
}

#[test]
fn malformed_frame_fails_update_after_eviction() {
    let mut d = VideoChunkDecoder::new(IdleDecoder);
    let good = Frame {
        content: FrameContent {
            data: vec![0, 0, 0, 0],
            width: 1,
            height: 1,
            format: PixelFormat::Rgba8Unorm,
        },
        info: FrameInfo { presentation_timestamp: 0, duration: 10 },
    };
    let bad = Frame {
        content: FrameContent {
            data: vec![0, 0],
            width: 1,
            height: 1,
            format: PixelFormat::Rgba8Unorm,
        },
        info: FrameInfo { presentation_timestamp: 10, duration: 10 },
    };
    d.on_decoder_output(Ok(good), 0);
    d.on_decoder_output(Ok(bad), 0);
    let mut tex = VideoTexture::new();
    let r = d.update_video_texture(&mut tex, 15);
    assert!(matches!(r, Err(VideoPlayerError::TextureCopy(_))));
    // The stale frame was still evicted, and the texture is untouched.
    assert_eq!(d.decoder_output.frames.len(), 1);
    assert_eq!(tex.frame_info, None);
}
