//! The chunk decoder facade: submit/flush/reset around an asynchronous
//! decoder, the producer-side entry points for its output, and the consumer's
//! latest-at texture update with its caught-up-since-reset display policy.

use vstd::prelude::*;

use crate::error::{DecodingError, TimedDecodingError, VideoPlayerError, WallTime};
use crate::frame::{Chunk, Frame, FrameInfo, Time, TimeRange};
use crate::output::{spec_latest_at, spec_sticky_record, latest_at_idx, DecoderOutput};
use crate::output::{frames_wf, lemma_latest_at_greatest};
use crate::upload::{
    build_texture_upload, spec_expected_data_len, spec_upload_data, spec_upload_format,
    SourceImageDataFormat, TextureUpload,
};

verus! {

/// An asynchronous decoding capability: accepts compressed chunks and emits
/// decoded frames later, through whatever delivery the implementation was
/// built with. Implementations decide which requests to accept; this crate
/// promises nothing about their behaviour.
pub trait AsyncDecoder {
    /// Start decoding the given chunk; frames surface later, not here.
    fn submit_chunk(&mut self, chunk: Chunk) -> Result<(), DecodingError>;

    /// Flush all pending frames after the last chunk was submitted.
    fn end_of_video(&mut self) -> Result<(), DecodingError>;

    /// Forget all in-flight work, as on a seek or stream restart.
    fn reset(&mut self) -> Result<(), DecodingError>;
}

/// The consumer-visible state of the display texture: the timing metadata of
/// the frame resident in it, and the source format of the last upload. The
/// GPU texture object itself is owned by the render collaborator.
pub struct VideoTexture {
    pub frame_info: Option<FrameInfo>,
    pub source_pixel_format: Option<SourceImageDataFormat>,
}

impl VideoTexture {
    /// Whatever frame is resident has well-formed timing metadata.
    pub open spec fn wf(self) -> bool {
        match self.frame_info {
            Some(info) => info.wf(),
            None => true,
        }
    }

    /// A texture no frame was ever uploaded to.
    pub fn new() -> (r: Self)
        ensures
            r.frame_info is None,
            r.source_pixel_format is None,
            r.wf(),
    {
        VideoTexture { frame_info: None, source_pixel_format: None }
    }
}

/// The display texture already holds a frame covering exactly this range.
pub open spec fn spec_texture_up_to_date(texture: VideoTexture, new_range: TimeRange) -> bool {
    match texture.frame_info {
        Some(info) => info.spec_time_range() == new_range,
        None => false,
    }
}

/// The update policy: copy a frame to the texture iff the texture does not
/// already hold it, and it either exactly covers the queried timestamp or the
/// display has caught up with a query since the last reset. Right after a
/// seek this withholds the stale frames a decoder must pass through; during
/// playback it still shows slightly lagging frames.
pub open spec fn spec_should_update(
    texture_up_to_date: bool,
    exact_match: bool,
    already_caught_up: bool,
) -> bool {
    !texture_up_to_date && (exact_match || already_caught_up)
}

/// With the display already caught up since the last reset, a frame that
/// differs from the resident one is shown even when it does not contain the
/// queried timestamp: playback may lag, but never stalls.
pub proof fn lemma_lagging_frame_still_shown(exact_match: bool)
    ensures
        spec_should_update(false, exact_match, true),
{
}

/// Before the display has caught up since the last reset, a frame that does
/// not contain the queried timestamp is never shown, whatever the texture
/// holds: a seek never flashes through stale frames.
pub proof fn lemma_stale_frame_skipped_after_reset(texture_up_to_date: bool)
    ensures
        !spec_should_update(texture_up_to_date, false, false),
{
}

/// Owns an asynchronous decoder and the buffer of its decoded output, finds
/// the frame to display for a queried timestamp, and tracks whether the
/// display has caught up with a query since the last reset.
pub struct VideoChunkDecoder<D> {
    pub decoder: D,
    pub decoder_output: DecoderOutput,
    /// True iff the display texture has matched a queried timestamp exactly
    /// since the last reset.
    pub video_texture_up_to_date_since_last_reset: bool,
}

impl<D: AsyncDecoder> VideoChunkDecoder<D> {
    pub open spec fn wf(self) -> bool {
        self.decoder_output.wf()
    }

    /// Wrap a decoder with an empty output buffer; the display has not
    /// caught up with anything yet.
    pub fn new(decoder: D) -> (r: Self)
        ensures
            r.decoder == decoder,
            r.decoder_output.frames@ == Seq::<Frame>::empty(),
            r.decoder_output.error is None,
            !r.video_texture_up_to_date_since_last_reset,
            r.wf(),
    {
        VideoChunkDecoder {
            decoder,
            decoder_output: DecoderOutput::new(),
            video_texture_up_to_date_since_last_reset: false,
        }
    }

    /// The producer-side entry point: record one decoder output, a decoded
    /// frame or a failure observed at wall-clock time `now`. A frame is
    /// appended and clears any stored error; a failure is aggregated with
    /// sticky first-occurrence semantics. The decoder emits frames in
    /// non-decreasing timestamp order; this relies on that ordering.
    pub fn on_decoder_output(&mut self, output: Result<Frame, DecodingError>, now: WallTime)
        requires
            old(self).wf(),
            (match output {
                Ok(frame) => frame.info.wf() && (old(self).decoder_output.frames@.len() > 0
                    ==> old(self).decoder_output.frames@.last().info.presentation_timestamp
                    <= frame.info.presentation_timestamp),
                Err(_) => true,
            }),
        ensures
            final(self).wf(),
            final(self).decoder == old(self).decoder,
            final(self).video_texture_up_to_date_since_last_reset == old(self).video_texture_up_to_date_since_last_reset,
            (match output {
                Ok(frame) => final(self).decoder_output.frames@ == old(self).decoder_output.frames@.push(frame) && final(self).decoder_output.error is None,
                Err(err) => final(self).decoder_output.frames@ == old(self).decoder_output.frames@
                    && final(self).decoder_output.error == spec_sticky_record(
                    old(self).decoder_output.error,
                    err,
                    now,
                ),
            }),
    {
        match output {
            Ok(frame) => self.decoder_output.on_frame(frame),
            Err(err) => self.decoder_output.record_error(err, now),
        }
    }

    /// Start decoding the given chunk. Whether the decoder accepts it is the
    /// decoder's decision; a rejection surfaces synchronously as a
    /// submission error, and the buffered output is untouched either way.
    /// Decoded frames surface later through [`Self::on_decoder_output`].
    pub fn decode(&mut self, chunk: Chunk) -> (r: Result<(), VideoPlayerError>)
        ensures
            final(self).decoder_output == old(self).decoder_output,
            final(self).video_texture_up_to_date_since_last_reset == old(self).video_texture_up_to_date_since_last_reset,
            r matches Err(e) ==> e matches VideoPlayerError::Submission(_),
    {
        match self.decoder.submit_chunk(chunk) {
            Ok(()) => Ok(()),
            Err(e) => Err(VideoPlayerError::Submission(e)),
        }
    }

    /// Ask the decoder to flush all pending frames; called after the last
    /// chunk. Failures surface synchronously as submission errors; the
    /// buffered output is untouched either way.
    pub fn end_of_video(&mut self) -> (r: Result<(), VideoPlayerError>)
        ensures
            final(self).decoder_output == old(self).decoder_output,
            final(self).video_texture_up_to_date_since_last_reset == old(self).video_texture_up_to_date_since_last_reset,
            r matches Err(e) ==> e matches VideoPlayerError::Submission(_),
    {
        match self.decoder.end_of_video() {
            Ok(()) => Ok(()),
            Err(e) => Err(VideoPlayerError::Submission(e)),
        }
    }

    /// Reset the decoder and discard all buffered frames, the stored error
    /// and the caught-up flag together; the next texture update reports an
    /// empty buffer until new frames arrive. If the decoder refuses the
    /// reset, nothing is discarded.
    pub fn reset(&mut self) -> (r: Result<(), VideoPlayerError>)
        ensures
            (match r {
                Ok(_) => final(self).decoder_output.frames@ == Seq::<Frame>::empty() && final(self).decoder_output.error is None && !final(self).video_texture_up_to_date_since_last_reset && final(self).wf(),
                Err(e) => e matches VideoPlayerError::Submission(_) && final(self).decoder_output
                    == old(self).decoder_output && final(self).video_texture_up_to_date_since_last_reset == old(self).video_texture_up_to_date_since_last_reset,
            }),
    {
        match self.decoder.reset() {
            Ok(()) => {},
            Err(e) => {
                return Err(VideoPlayerError::Submission(e));
            },
        }
        self.decoder_output.clear();
        self.video_texture_up_to_date_since_last_reset = false;
        Ok(())
    }

    /// Return and clear the latest aggregated decode error, first-occurrence
    /// time and newest message together; further calls yield nothing until a
    /// new error is recorded.
    pub fn take_error(&mut self) -> (r: Option<TimedDecodingError>)
        ensures
            r == old(self).decoder_output.error,
            final(self).decoder_output.error is None,
            final(self).decoder_output.frames@ == old(self).decoder_output.frames@,
            final(self).decoder == old(self).decoder,
            final(self).video_texture_up_to_date_since_last_reset == old(self).video_texture_up_to_date_since_last_reset,
    {
        self.decoder_output.take_error()
    }

    /// Select the latest buffered frame at the queried timestamp, drop every
    /// earlier frame, and decide whether the display texture must change.
    ///
    /// Fails with the empty-buffer condition when no buffered frame lies at
    /// or before the query — expected at startup and right after a reset.
    /// Otherwise the earlier frames are evicted and, per the update policy,
    /// either nothing further happens (`Ok(None)`) or the texture state is
    /// updated and the pixel upload for the render collaborator is returned
    /// (`Ok(Some(upload))`), padded to four channels when the frame was
    /// packed RGB. A frame whose pixel data does not match its descriptor is
    /// refused with a texture-copy error, after eviction and before any
    /// texture change.
    pub fn update_video_texture(
        &mut self,
        video_texture: &mut VideoTexture,
        presentation_timestamp: Time,
    ) -> (r: Result<Option<TextureUpload>, VideoPlayerError>)
        requires
            old(self).wf(),
            old(video_texture).wf(),
        ensures
            final(self).wf(),
            final(video_texture).wf(),
            final(self).decoder == old(self).decoder,
            final(self).decoder_output.error == old(self).decoder_output.error,
            ({
                let s = old(self).decoder_output.frames@;
                let q = presentation_timestamp;
                match spec_latest_at(s, q) {
                    None => r matches Err(VideoPlayerError::EmptyBuffer) && *final(self) == *old(self) && *final(video_texture) == *old(video_texture),
                    Some(i) => {
                        let frame = s[i];
                        let new_range = frame.info.spec_time_range();
                        let up_to_date = spec_texture_up_to_date(*old(video_texture), new_range);
                        let exact = new_range.spec_contains(q);
                        let caught = old(self).video_texture_up_to_date_since_last_reset;
                        let data_ok = frame.content.data@.len() == spec_expected_data_len(
                            frame.content.format,
                            frame.content.width,
                            frame.content.height,
                        );
                        final(self).decoder_output.frames@ == s.subrange(i, s.len() as int) && (
                        if !spec_should_update(up_to_date, exact, caught) {
                            r matches Ok(None) && *final(video_texture) == *old(video_texture)
                                && final(self).video_texture_up_to_date_since_last_reset == caught
                        } else if data_ok {
                            (match r {
                                Ok(Some(up)) => up.data@ == spec_upload_data(
                                    frame.content.format,
                                    frame.content.data@,
                                ) && up.format == spec_upload_format(frame.content.format)
                                    && up.width == frame.content.width && up.height
                                    == frame.content.height,
                                _ => false,
                            }) && final(video_texture).frame_info == Some(frame.info) && final(video_texture).source_pixel_format == Some(spec_upload_format(frame.content.format))
                                && final(self).video_texture_up_to_date_since_last_reset == (caught
                                || exact)
                        } else {
                            (r matches Err(VideoPlayerError::TextureCopy(tce)) && tce.format
                                == frame.content.format && tce.width == frame.content.width
                                && tce.height == frame.content.height && tce.actual_data_len
                                == frame.content.data@.len()) && *final(video_texture) == *old(
                                video_texture,
                            ) && final(self).video_texture_up_to_date_since_last_reset == caught
                        })
                    },
                }
            }),
    {
        let ghost s = self.decoder_output.frames@;
        let idx = match latest_at_idx(&self.decoder_output.frames, presentation_timestamp) {
            Some(idx) => idx,
            None => {
                return Err(VideoPlayerError::EmptyBuffer);
            },
        };
        proof {
            lemma_latest_at_greatest(s, presentation_timestamp);
        }

        // Drop everything before the selected frame: future queries only
        // move forward within an epoch, so those frames are never needed
        // again, and discarding them bounds memory.
        let kept = self.decoder_output.frames.split_off(idx);
        self.decoder_output.frames = kept;
        proof {
            assert(self.decoder_output.frames@ == s.subrange(idx as int, s.len() as int));
            assert forall|i: int, j: int|
                0 <= i <= j < self.decoder_output.frames@.len() implies self.decoder_output.frames@[i].info.presentation_timestamp
                <= self.decoder_output.frames@[j].info.presentation_timestamp by {
                assert(self.decoder_output.frames@[i] == s[i + idx]);
                assert(self.decoder_output.frames@[j] == s[j + idx]);
            }
            assert forall|i: int|
                0 <= i < self.decoder_output.frames@.len() implies (#[trigger] self.decoder_output.frames@[i].info).wf() by {
                assert(self.decoder_output.frames@[i] == s[i + idx]);
                assert(frames_wf(s));
                assert(s[i + idx].info.wf());
            }
        }

        // After the drop, the selected frame sits at index 0.
        let selected_info = self.decoder_output.frames[0].info;
        let new_frame_time_range = selected_info.presentation_time_range();

        let texture_is_already_up_to_date = match &video_texture.frame_info {
            Some(info) => info.presentation_time_range() == new_frame_time_range,
            None => false,
        };
        let new_frame_is_exact_frame_requested = new_frame_time_range.contains(
            presentation_timestamp,
        );

        let is_better_than_current = !texture_is_already_up_to_date && (
        new_frame_is_exact_frame_requested || self.video_texture_up_to_date_since_last_reset);

        if is_better_than_current {
            let upload = match build_texture_upload(&self.decoder_output.frames[0].content) {
                Ok(upload) => upload,
                Err(e) => {
                    return Err(e);
                },
            };
            video_texture.source_pixel_format = Some(upload.format);
            video_texture.frame_info = Some(selected_info);
            if new_frame_is_exact_frame_requested {
                self.video_texture_up_to_date_since_last_reset = true;
            }
            Ok(Some(upload))
        } else {
            Ok(None)
        }
    }
}

} // verus!
