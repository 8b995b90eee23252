//! Error taxonomy: synchronous submission failures, aggregated asynchronous
//! decode failures, the expected empty-buffer condition, and texture-copy
//! failures.

use vstd::prelude::*;

verus! {

/// A typed failure reported by the decoder.
#[derive(Debug)]
pub struct DecodingError {
    pub message: String,
}

/// Wall-clock time as the caller measures it, in milliseconds.
pub type WallTime = i64;

/// A decode error with sticky first-occurrence semantics: the time records
/// when the trouble started, the message is the most recent one observed.
#[derive(Debug)]
pub struct TimedDecodingError {
    pub latest_error: DecodingError,
    pub time_of_first_error: WallTime,
}

/// Why a texture copy was refused: the frame's pixel data does not have the
/// length its format descriptor and dimensions call for.
#[derive(Debug)]
pub struct TextureCopyError {
    pub format: crate::frame::PixelFormat,
    pub width: u32,
    pub height: u32,
    pub actual_data_len: u64,
}

/// Everything a consumer-side operation can fail with.
#[derive(Debug)]
pub enum VideoPlayerError {
    /// The decoder rejected a submit, flush or reset request; synchronous
    /// and surfaced immediately to the caller of that operation.
    /// Asynchronous decode failures travel as [`TimedDecodingError`] through
    /// the sticky aggregator instead.
    Submission(DecodingError),
    /// No buffered frame lies at or before the queried timestamp; expected
    /// at startup and right after a reset, not a fault.
    EmptyBuffer,
    /// The pixel-format mapping refused the frame.
    TextureCopy(TextureCopyError),
}

} // verus!
