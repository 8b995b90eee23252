//! The shared output buffer: the ordered sequence of decoded frames together
//! with the sticky error aggregator, plus the latest-at search over it.
//!
//! The producer appends frames and records successes and failures; the
//! consumer searches, truncates the front, and polls the aggregated error.
//! Both sides mutate the two fields only together, so a caller who serialises
//! access to one `DecoderOutput` value never observes frames without the
//! matching error state.

use vstd::prelude::*;

use crate::error::{DecodingError, TimedDecodingError, WallTime};
use crate::frame::{Frame, Time};

verus! {

/// What recording one more decode error leaves in the aggregator: the first
/// occurrence time is kept once set, the message is always the newest.
pub open spec fn spec_sticky_record(
    stored: Option<TimedDecodingError>,
    err: DecodingError,
    now: WallTime,
) -> Option<TimedDecodingError> {
    match stored {
        None => Some(TimedDecodingError { latest_error: err, time_of_first_error: now }),
        Some(prev) => Some(
            TimedDecodingError { latest_error: err, time_of_first_error: prev.time_of_first_error },
        ),
    }
}

/// Timestamps never decrease along the sequence.
pub open spec fn frames_sorted(s: Seq<Frame>) -> bool {
    forall|i: int, j: int|
        0 <= i <= j < s.len() ==> s[i].info.presentation_timestamp
            <= s[j].info.presentation_timestamp
}

/// Every frame's timing metadata is well formed.
pub open spec fn frames_wf(s: Seq<Frame>) -> bool {
    forall|i: int| 0 <= i < s.len() ==> (#[trigger] s[i].info).wf()
}

/// The greatest index whose timestamp is at or before `q`, if any.
pub open spec fn spec_latest_at(s: Seq<Frame>, q: Time) -> Option<int>
    decreases s.len(),
{
    if s.len() == 0 {
        None
    } else if s[s.len() - 1].info.presentation_timestamp <= q {
        Some(s.len() - 1)
    } else {
        spec_latest_at(s.drop_last(), q)
    }
}

/// The latest-at search yields the greatest index whose timestamp is at or
/// before the query, and nothing exactly when every frame lies after it.
/// Equal timestamps therefore resolve to the last matching index. This holds
/// of every frame sequence, sorted or not.
pub proof fn lemma_latest_at_greatest(s: Seq<Frame>, q: Time)
    ensures
        match spec_latest_at(s, q) {
            Some(i) => 0 <= i < s.len() && s[i].info.presentation_timestamp <= q && forall|j: int|
                i < j < s.len() ==> s[j].info.presentation_timestamp > q,
            None => forall|j: int| 0 <= j < s.len() ==> s[j].info.presentation_timestamp > q,
        },
    decreases s.len(),
{
    if s.len() > 0 && s[s.len() - 1].info.presentation_timestamp > q {
        lemma_latest_at_greatest(s.drop_last(), q);
        assert(forall|j: int|
            0 <= j < s.len() - 1 ==> s.drop_last()[j] == s[j]);
    }
}

/// An index below which every timestamp is at or before the query and above
/// which every timestamp is after it is the index the search names.
pub proof fn lemma_latest_at_witness(s: Seq<Frame>, q: Time, i: int)
    requires
        0 <= i < s.len(),
        s[i].info.presentation_timestamp <= q,
        forall|j: int| i < j < s.len() ==> s[j].info.presentation_timestamp > q,
    ensures
        spec_latest_at(s, q) == Some(i),
    decreases s.len(),
{
    if i < s.len() - 1 {
        assert(forall|j: int| 0 <= j < s.len() - 1 ==> s.drop_last()[j] == s[j]);
        lemma_latest_at_witness(s.drop_last(), q, i);
    }
}

/// When every timestamp lies after the query, the search names no index.
pub proof fn lemma_latest_at_none(s: Seq<Frame>, q: Time)
    requires
        forall|j: int| 0 <= j < s.len() ==> s[j].info.presentation_timestamp > q,
    ensures
        spec_latest_at(s, q) is None,
    decreases s.len(),
{
    if s.len() > 0 {
        assert(forall|j: int| 0 <= j < s.len() - 1 ==> s.drop_last()[j] == s[j]);
        lemma_latest_at_none(s.drop_last(), q);
    }
}

/// Find the greatest index whose timestamp is at or before `q` in a
/// timestamp-sorted frame sequence, by binary search; `None` when the buffer
/// is empty or every frame lies strictly after the query.
pub fn latest_at_idx(frames: &Vec<Frame>, q: Time) -> (r: Option<usize>)
    requires
        frames_sorted(frames@),
    ensures
        match r {
            Some(i) => spec_latest_at(frames@, q) == Some(i as int),
            None => spec_latest_at(frames@, q) is None,
        },
{
    let len = frames.len();
    let mut lo: usize = 0;
    let mut hi: usize = len;
    while lo < hi
        invariant
            lo <= hi <= len,
            len == frames@.len(),
            frames_sorted(frames@),
            forall|j: int| 0 <= j < lo ==> frames@[j].info.presentation_timestamp <= q,
            forall|j: int| hi <= j < len ==> frames@[j].info.presentation_timestamp > q,
        decreases hi - lo,
    {
        let mid = lo + (hi - lo) / 2;
        if frames[mid].info.presentation_timestamp <= q {
            lo = mid + 1;
        } else {
            hi = mid;
        }
    }
    if lo == 0 {
        proof {
            lemma_latest_at_none(frames@, q);
        }
        None
    } else {
        proof {
            lemma_latest_at_witness(frames@, q, lo - 1);
        }
        Some(lo - 1)
    }
}

/// The decoder's output side: decoded frames in production order, and at most
/// one outstanding decode error with sticky first-occurrence semantics.
pub struct DecoderOutput {
    pub frames: Vec<Frame>,
    /// Set on error; reset on success.
    pub error: Option<TimedDecodingError>,
}

impl DecoderOutput {
    /// Frames are timestamp-sorted with well-formed timing metadata.
    pub open spec fn wf(self) -> bool {
        frames_sorted(self.frames@) && frames_wf(self.frames@)
    }

    /// An empty buffer with no recorded error.
    pub fn new() -> (r: Self)
        ensures
            r.frames@ == Seq::<Frame>::empty(),
            r.error is None,
            r.wf(),
    {
        DecoderOutput { frames: Vec::new(), error: None }
    }

    /// A decode succeeded: clear any stored error.
    pub fn record_success(&mut self)
        ensures
            final(self).error is None,
            final(self).frames@ == old(self).frames@,
    {
        self.error = None;
    }

    /// A frame was decoded: append it and clear any stored error.
    ///
    /// The decoder produces frames in non-decreasing timestamp order; this
    /// operation relies on that ordering, it does not enforce it.
    pub fn on_frame(&mut self, frame: Frame)
        requires
            old(self).wf(),
            frame.info.wf(),
            old(self).frames@.len() > 0 ==> old(self).frames@.last().info.presentation_timestamp
                <= frame.info.presentation_timestamp,
        ensures
            final(self).frames@ == old(self).frames@.push(frame),
            final(self).error is None,
            final(self).wf(),
    {
        self.frames.push(frame);
        self.record_success();
    }

    /// A decode failure: store it, keeping the first occurrence time if an
    /// error is already outstanding and updating only the latest message.
    pub fn record_error(&mut self, err: DecodingError, now: WallTime)
        ensures
            final(self).error == spec_sticky_record(old(self).error, err, now),
            final(self).frames@ == old(self).frames@,
    {
        match self.error.take() {
            None => {
                self.error = Some(
                    TimedDecodingError { latest_error: err, time_of_first_error: now },
                );
            },
            Some(prev) => {
                self.error = Some(
                    TimedDecodingError {
                        latest_error: err,
                        time_of_first_error: prev.time_of_first_error,
                    },
                );
            },
        }
    }

    /// Return and clear the stored error; further calls yield nothing until
    /// a new error is recorded.
    pub fn take_error(&mut self) -> (r: Option<TimedDecodingError>)
        ensures
            r == old(self).error,
            final(self).error is None,
            final(self).frames@ == old(self).frames@,
    {
        self.error.take()
    }

    /// Drop frames and error together, as a reset demands.
    pub fn clear(&mut self)
        ensures
            final(self).frames@ == Seq::<Frame>::empty(),
            final(self).error is None,
            final(self).wf(),
    {
        self.frames.clear();
        self.error = None;
    }
}

/// Starting from an empty aggregator, recording error `a` at time `t1` and
/// then `b` at `t2` leaves a single error carrying `a`'s occurrence time and
/// `b`'s message, whatever the errors and times are. By `take_error`'s
/// contract, taking it then yields exactly that error and leaves nothing.
pub proof fn lemma_sticky_error_aggregation(
    a: DecodingError,
    b: DecodingError,
    t1: WallTime,
    t2: WallTime,
)
    ensures
        spec_sticky_record(spec_sticky_record(None, a, t1), b, t2) == Some(
            TimedDecodingError { latest_error: b, time_of_first_error: t1 },
        ),
{
}

} // verus!
