//! The answer to one upload request: a record for each file, or the first
//! failure.

use vstd::prelude::*;
use vstd::string::*;
use crate::error::ServiceError;
use crate::transcript::{first_start, joined_text, last_end, TranscriberOutput};

verus! {

/// What is sent back for one uploaded file.
pub struct TranscriptRecord {
    pub start: i64,
    pub end: i64,
    pub text: String,
}

/// The record says what the transcript holds.
pub open spec fn describes(record: TranscriptRecord, out: TranscriberOutput) -> bool {
    &&& record.start == first_start(out.spec_segments())
    &&& record.end == last_end(out.spec_segments())
    &&& record.text@ == joined_text(out.spec_segments())
}

impl TranscriptRecord {
    /// The record of one transcript.
    pub fn of(out: &TranscriberOutput) -> (r: TranscriptRecord)
        ensures
            describes(r, *out),
    {
        TranscriptRecord {
            start: *out.get_start_timestamp(),
            end: *out.get_end_timestamp(),
            text: String::from_str(out.get_text()),
        }
    }
}

/// The HTTP status that answers a request failed by `e`: the client's fault
/// for an unknown model or unusable audio, the server's otherwise.
pub open spec fn status_of(e: ServiceError) -> int {
    match e {
        ServiceError::UnknownModel => 404,
        ServiceError::UnsupportedFormat => 415,
        ServiceError::DecodeError => 422,
        ServiceError::DownloadFailed => 502,
        ServiceError::ModelLoadError | ServiceError::InferenceError => 500,
    }
}

/// The status code of a failed request; never one that reports success.
pub fn failure_status(e: ServiceError) -> (r: u16)
    ensures
        r == status_of(e),
        400 <= r < 600,
{
    match e {
        ServiceError::UnknownModel => 404,
        ServiceError::UnsupportedFormat => 415,
        ServiceError::DecodeError => 422,
        ServiceError::DownloadFailed => 502,
        ServiceError::ModelLoadError => 500,
        ServiceError::InferenceError => 500,
    }
}

/// The error of the earliest failed file, if any file failed.
pub open spec fn first_error(results: Seq<Result<TranscriberOutput, ServiceError>>) -> Option<
    ServiceError,
>
    decreases results.len(),
{
    if results.len() == 0 {
        None
    } else {
        match first_error(results.drop_last()) {
            Some(e) => Some(e),
            None => match results.last() {
                Ok(_) => None,
                Err(e) => Some(e),
            },
        }
    }
}

/// Answers a batch of files. One failed file fails the whole batch, with the
/// error of the earliest failure; otherwise there is one record per file, in
/// upload order.
pub fn collect_batch(results: &Vec<Result<TranscriberOutput, ServiceError>>) -> (r: Result<
    Vec<TranscriptRecord>,
    ServiceError,
>)
    ensures
        match r {
            Ok(records) => {
                &&& first_error(results@) is None
                &&& records@.len() == results@.len()
                &&& forall|i: int|
                    0 <= i < results@.len() ==> ((#[trigger] results@[i]) matches Ok(out)
                        && describes(records@[i], out))
            },
            Err(e) => first_error(results@) == Some(e),
        },
{
    let n = results.len();
    let mut records: Vec<TranscriptRecord> = Vec::new();
    let mut i: usize = 0;
    while i < n
        invariant
            n == results@.len(),
            i <= n,
            records@.len() == i,
            first_error(results@.take(i as int)) is None,
            forall|j: int|
                0 <= j < i ==> ((#[trigger] results@[j]) matches Ok(out) && describes(
                    records@[j],
                    out,
                )),
        decreases n - i,
    {
        assert(results@.take(i + 1).drop_last() =~= results@.take(i as int));
        match &results[i] {
            Ok(out) => {
                records.push(TranscriptRecord::of(out));
            },
            Err(e) => {
                proof {
                    lemma_first_error_stays(results@, i + 1);
                }
                return Err(*e);
            },
        }
        i += 1;
    }
    assert(results@.take(n as int) =~= results@);
    Ok(records)
}

/// A failure among the first `n` files is the batch's failure, whatever
/// comes after.
pub proof fn lemma_first_error_stays(
    results: Seq<Result<TranscriberOutput, ServiceError>>,
    n: int,
)
    requires
        0 <= n <= results.len(),
        first_error(results.take(n)) is Some,
    ensures
        first_error(results) == first_error(results.take(n)),
    decreases results.len() - n,
{
    if n < results.len() {
        assert(results.take(n + 1).drop_last() =~= results.take(n));
        lemma_first_error_stays(results, n + 1);
    } else {
        assert(results.take(n) =~= results);
    }
}

} // verus!
