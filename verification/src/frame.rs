//! Frames as the decoder hands them over: a presentation timestamp with a
//! duration, pixel content, and a pixel-format descriptor.

use vstd::prelude::*;

verus! {

/// A point on the video timeline, in ticks of the video's timescale.
pub type Time = i64;

/// A half-open span `[start, end)` on the video timeline.
#[derive(Clone, Copy, PartialEq, Eq, Structural, Debug)]
pub struct TimeRange {
    pub start: Time,
    pub end: Time,
}

impl TimeRange {
    pub open spec fn spec_contains(self, t: Time) -> bool {
        self.start <= t < self.end
    }

    /// Whether `t` lies inside this half-open range.
    pub fn contains(&self, t: Time) -> (r: bool)
        ensures
            r == self.spec_contains(t),
    {
        self.start <= t && t < self.end
    }
}

/// Timing metadata of one decoded frame.
#[derive(Clone, Copy, PartialEq, Eq, Structural, Debug)]
pub struct FrameInfo {
    /// When the frame should become visible.
    pub presentation_timestamp: Time,
    /// For how long the frame stays the right one to show.
    pub duration: Time,
}

impl FrameInfo {
    /// A frame's duration is non-negative and its range's end does not
    /// overflow the timeline type.
    pub open spec fn wf(self) -> bool {
        0 <= self.duration && self.presentation_timestamp + self.duration <= i64::MAX
    }

    pub open spec fn spec_time_range(self) -> TimeRange {
        TimeRange {
            start: self.presentation_timestamp,
            end: (self.presentation_timestamp + self.duration) as i64,
        }
    }

    /// The half-open span during which this frame is the one to display:
    /// `[presentation_timestamp, presentation_timestamp + duration)`.
    pub fn presentation_time_range(&self) -> (r: TimeRange)
        requires
            self.wf(),
        ensures
            r == self.spec_time_range(),
    {
        TimeRange {
            start: self.presentation_timestamp,
            end: self.presentation_timestamp + self.duration,
        }
    }
}

/// How the planes of a planar YUV frame are laid out.
#[derive(Clone, Copy, PartialEq, Eq, Structural, Debug)]
#[allow(non_camel_case_types)]
pub enum YuvPixelLayout {
    Y_U_V444,
    Y_U_V422,
    Y_U_V420,
    Y400,
}

/// Whether the YUV samples span the limited or the full value range.
#[derive(Clone, Copy, PartialEq, Eq, Structural, Debug)]
pub enum YuvRange {
    Limited,
    Full,
}

/// Which matrix turns the YUV samples into RGB.
#[derive(Clone, Copy, PartialEq, Eq, Structural, Debug)]
pub enum YuvMatrixCoefficients {
    Identity,
    Bt601,
    Bt709,
}

/// Pixel format of a decoded frame's raw buffer.
#[derive(Clone, Copy, PartialEq, Eq, Structural, Debug)]
pub enum PixelFormat {
    /// Packed 8-bit RGB, three bytes per pixel.
    Rgb8Unorm,
    /// Packed 8-bit RGBA, four bytes per pixel.
    Rgba8Unorm,
    /// Planar YUV; the layout, range and coefficients travel with the data.
    Yuv {
        layout: YuvPixelLayout,
        range: YuvRange,
        coefficients: YuvMatrixCoefficients,
    },
}

/// The pixel content of one decoded frame, as a raw buffer.
pub struct FrameContent {
    pub data: Vec<u8>,
    pub width: u32,
    pub height: u32,
    pub format: PixelFormat,
}

/// One decoded frame: pixel content plus timing metadata.
pub struct Frame {
    pub content: FrameContent,
    pub info: FrameInfo,
}

/// A compressed unit of input video data, opaque to this crate; only its
/// ordering metadata is meaningful here.
pub struct Chunk {
    pub data: Vec<u8>,
    pub presentation_timestamp: Time,
}

} // verus!
