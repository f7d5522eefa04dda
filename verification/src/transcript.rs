//! Timestamped transcript segments and the per-file result built from them.

use vstd::prelude::*;
use vstd::string::*;
use crate::error::ServiceError;

verus! {

/// One contiguous span of decoded speech, in engine time units.
pub struct Segment {
    pub start: i64,
    pub end: i64,
    pub text: String,
}

impl Segment {
    pub fn new(start: i64, end: i64, text: String) -> (s: Segment)
        ensures
            s.start == start,
            s.end == end,
            s.text == text,
    {
        Segment { start, end, text }
    }
}

/// No segment ends before it starts, and starts never go backwards.
pub open spec fn time_ordered(segs: Seq<Segment>) -> bool {
    &&& forall|i: int| 0 <= i < segs.len() ==> (#[trigger] segs[i]).start <= segs[i].end
    &&& forall|i: int, j: int|
        0 <= i <= j < segs.len() ==> (#[trigger] segs[i]).start <= (#[trigger] segs[j]).start
}

/// The texts of all segments, one after another.
pub open spec fn joined_text(segs: Seq<Segment>) -> Seq<char>
    decreases segs.len(),
{
    if segs.len() == 0 {
        Seq::empty()
    } else {
        joined_text(segs.drop_last()) + segs.last().text@
    }
}

/// Start of the first segment; zero for an empty transcript.
pub open spec fn first_start(segs: Seq<Segment>) -> int {
    if segs.len() == 0 {
        0
    } else {
        segs[0].start as int
    }
}

/// End of the last segment; zero for an empty transcript.
pub open spec fn last_end(segs: Seq<Segment>) -> int {
    if segs.len() == 0 {
        0
    } else {
        segs.last().end as int
    }
}

/// Joining one more segment appends its text.
pub proof fn lemma_joined_text_step(segs: Seq<Segment>, n: int)
    requires
        0 <= n < segs.len(),
    ensures
        joined_text(segs.take(n + 1)) == joined_text(segs.take(n)) + segs[n].text@,
{
    assert(segs.take(n + 1).drop_last() =~= segs.take(n));
}

/// The transcript of one audio file: its segments in time order, the text of
/// all of them joined, and the span from the first start to the last end.
pub struct TranscriberOutput {
    start_timestamp: i64,
    end_timestamp: i64,
    text: String,
    segments: Vec<Segment>,
}

impl TranscriberOutput {
    #[verifier::type_invariant]
    spec fn inv(&self) -> bool {
        &&& time_ordered(self.segments@)
        &&& self.text@ == joined_text(self.segments@)
        &&& self.start_timestamp == first_start(self.segments@)
        &&& self.end_timestamp == last_end(self.segments@)
    }

    /// The segments that the transcript holds.
    pub closed spec fn spec_segments(&self) -> Seq<Segment> {
        self.segments@
    }

    /// Builds the transcript of a finished run. The segments are kept as they
    /// are, each with its own timestamps. A run whose segments are out of
    /// time order is refused as an engine failure; nothing partial is kept.
    pub fn from_segments(segments: Vec<Segment>) -> (r: Result<TranscriberOutput, ServiceError>)
        ensures
            match r {
                Ok(out) => time_ordered(segments@) && out.spec_segments() == segments@,
                Err(e) => e == ServiceError::InferenceError && !time_ordered(segments@),
            },
    {
        let n = segments.len();
        let mut text = String::new();
        let mut i: usize = 0;
        while i < n
            invariant
                n == segments@.len(),
                i <= n,
                time_ordered(segments@.take(i as int)),
                text@ == joined_text(segments@.take(i as int)),
            decreases n - i,
        {
            if segments[i].start > segments[i].end {
                return Err(ServiceError::InferenceError);
            }
            if i > 0 && segments[i - 1].start > segments[i].start {
                assert(segments@[i - 1].start > segments@[i as int].start);
                return Err(ServiceError::InferenceError);
            }
            proof {
                lemma_joined_text_step(segments@, i as int);
                let before = segments@.take(i as int);
                let after = segments@.take(i + 1);
                assert forall|a: int, b: int| 0 <= a <= b < after.len() implies (#[trigger] after[a]).start
                    <= (#[trigger] after[b]).start by {
                    if b == i && a < i {
                        assert(before[a].start <= before[i - 1].start);
                    }
                }
            }
            text.append(segments[i].text.as_str());
            i += 1;
        }
        assert(segments@.take(n as int) =~= segments@);
        let start_timestamp = if n == 0 {
            0
        } else {
            segments[0].start
        };
        let end_timestamp = if n == 0 {
            0
        } else {
            segments[n - 1].end
        };
        Ok(TranscriberOutput { start_timestamp, end_timestamp, text, segments })
    }

    /// When the transcript begins: the start of its first segment.
    pub fn get_start_timestamp(&self) -> (r: &i64)
        ensures
            *r == first_start(self.spec_segments()),
    {
        proof {
            use_type_invariant(self);
        }
        &self.start_timestamp
    }

    /// When the transcript ends: the end of its last segment.
    pub fn get_end_timestamp(&self) -> (r: &i64)
        ensures
            *r == last_end(self.spec_segments()),
    {
        proof {
            use_type_invariant(self);
        }
        &self.end_timestamp
    }

    /// The text of the whole transcript.
    pub fn get_text(&self) -> (r: &str)
        ensures
            r@ == joined_text(self.spec_segments()),
    {
        proof {
            use_type_invariant(self);
        }
        self.text.as_str()
    }

    /// The segments, in time order.
    pub fn segments(&self) -> (r: &Vec<Segment>)
        ensures
            r@ == self.spec_segments(),
            time_ordered(r@),
    {
        proof {
            use_type_invariant(self);
        }
        &self.segments
    }
}

} // verus!
