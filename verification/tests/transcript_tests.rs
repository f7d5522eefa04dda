use whisper_server::error::ServiceError;
use whisper_server::response::{collect_batch, failure_status, TranscriptRecord};
use whisper_server::transcript::{Segment, TranscriberOutput};

fn seg(start: i64, end: i64, text: &str) -> Segment {
    Segment::new(start, end, text.to_string())
}

#[test]
fn segment_keeps_its_fields() {
    let s = seg(3, 9, " hello");
    assert_eq!(s.start, 3);
    assert_eq!(s.end, 9);
    assert_eq!(s.text, " hello");
}

#[test]
fn empty_run_gives_empty_transcript() {
    let out = TranscriberOutput::from_segments(Vec::new()).unwrap();
    assert_eq!(*out.get_start_timestamp(), 0);
    assert_eq!(*out.get_end_timestamp(), 0);
    assert_eq!(out.get_text(), "");
    assert_eq!(out.segments().len(), 0);
}

#[test]
fn transcript_joins_text_and_spans_all_segments() {
    let out = TranscriberOutput::from_segments(vec![
        seg(0, 250, " By what he is said and done,"),
        seg(250, 610, " a man judges himself"),
        seg(610, 900, " by what he is willing to do."),
    ])
    .unwrap();
    assert_eq!(
        out.get_text(),
        " By what he is said and done, a man judges himself by what he is willing to do."
    );
    assert_eq!(*out.get_start_timestamp(), 0);
    assert_eq!(*out.get_end_timestamp(), 900);
}

#[test]
fn each_segment_keeps_its_own_timestamps() {
    let out =
        TranscriberOutput::from_segments(vec![seg(5, 10, "a"), seg(10, 20, "b"), seg(20, 21, "c")])
            .unwrap();
    let segs = out.segments();
    assert_eq!(segs.len(), 3);
    assert_eq!((segs[0].start, segs[0].end, segs[0].text.as_str()), (5, 10, "a"));
    assert_eq!((segs[1].start, segs[1].end, segs[1].text.as_str()), (10, 20, "b"));
    assert_eq!((segs[2].start, segs[2].end, segs[2].text.as_str()), (20, 21, "c"));
    assert_eq!(*out.get_start_timestamp(), 5);
    assert_eq!(*out.get_end_timestamp(), 21);
}

#[test]
fn known_clip_transcript() {
    let expected = " By what he is said and done, a man judges himself by what he is willing to do, by what he might have said, or might have done, a judgment that is necessarily hapered, but only by the scope and limits of his imagination, but by the ever-changing measure of his doubt and self-esteem.";
    let out = TranscriberOutput::from_segments(vec![
        seg(0, 520, " By what he is said and done, a man judges himself by what he is willing to do,"),
        seg(520, 1040, " by what he might have said, or might have done, a judgment that is necessarily hapered,"),
        seg(1040, 1800, " but only by the scope and limits of his imagination, but by the ever-changing measure of his doubt and self-esteem."),
    ])
    .unwrap();
    assert_eq!(out.get_text(), expected);
    assert!(!out.segments().is_empty());
    assert_eq!(out.segments()[0].start, 0);
    assert!(out.get_text().contains("a man judges himself"));
}

#[test]
fn returned_segments_are_time_ordered() {
    let out = TranscriberOutput::from_segments(vec![
        seg(0, 0, ""),
        seg(0, 7, "x"),
        seg(4, 9, "y"),
        seg(9, 9, "z"),
    ])
    .unwrap();
    let segs = out.segments();
    for i in 0..segs.len() {
        assert!(segs[i].start <= segs[i].end);
        if i > 0 {
            assert!(segs[i - 1].start <= segs[i].start);
        }
    }
}

#[test]
fn segment_that_ends_before_it_starts_is_refused() {
    let r = TranscriberOutput::from_segments(vec![seg(0, 5, "a"), seg(9, 8, "b")]);
    assert!(matches!(r, Err(ServiceError::InferenceError)));
    let r = TranscriberOutput::from_segments(vec![seg(1, 0, "a")]);
    assert!(matches!(r, Err(ServiceError::InferenceError)));
}

#[test]
fn segments_that_go_back_in_time_are_refused() {
    let r = TranscriberOutput::from_segments(vec![seg(10, 20, "a"), seg(9, 30, "b")]);
    assert!(matches!(r, Err(ServiceError::InferenceError)));
    let r = TranscriberOutput::from_segments(vec![seg(0, 1, "a"), seg(5, 6, "b"), seg(4, 9, "c")]);
    assert!(matches!(r, Err(ServiceError::InferenceError)));
}

#[test]
fn extreme_timestamps_are_kept() {
    let out = TranscriberOutput::from_segments(vec![
        seg(i64::MIN, i64::MIN, "a"),
        seg(-1, i64::MAX, "b"),
        seg(i64::MAX, i64::MAX, "c"),
    ])
    .unwrap();
    assert_eq!(*out.get_start_timestamp(), i64::MIN);
    assert_eq!(*out.get_end_timestamp(), i64::MAX);
    assert_eq!(out.get_text(), "abc");
}

#[test]
fn record_repeats_span_and_text() {
    let out = TranscriberOutput::from_segments(vec![seg(2, 4, "你好"), seg(4, 8, "，世界")]).unwrap();
    let r = TranscriptRecord::of(&out);
    assert_eq!(r.start, 2);
    assert_eq!(r.end, 8);
    assert_eq!(r.text, "你好，世界");
}

#[test]
fn batch_has_one_record_per_file_in_order() {
    let results = vec![
        TranscriberOutput::from_segments(vec![seg(0, 3, "one")]),
        TranscriberOutput::from_segments(Vec::new()),
        TranscriberOutput::from_segments(vec![seg(7, 8, "th"), seg(8, 9, "ree")]),
    ];
    let records = collect_batch(&results).unwrap();
    assert_eq!(records.len(), 3);
    assert_eq!((records[0].start, records[0].end, records[0].text.as_str()), (0, 3, "one"));
    assert_eq!((records[1].start, records[1].end, records[1].text.as_str()), (0, 0, ""));
    assert_eq!((records[2].start, records[2].end, records[2].text.as_str()), (7, 9, "three"));
}

#[test]
fn empty_batch_is_an_empty_answer() {
    let records = collect_batch(&Vec::new()).unwrap();
    assert!(records.is_empty());
}

#[test]
fn batch_fails_with_the_earliest_error() {
    let results = vec![
        TranscriberOutput::from_segments(vec![seg(0, 3, "one")]),
        Err(ServiceError::UnsupportedFormat),
        TranscriberOutput::from_segments(vec![seg(0, 3, "two")]),
        Err(ServiceError::InferenceError),
    ];
    assert!(matches!(collect_batch(&results), Err(ServiceError::UnsupportedFormat)));
    let results = vec![Err(ServiceError::DecodeError)];
    assert!(matches!(collect_batch(&results), Err(ServiceError::DecodeError)));
}

#[test]
fn failure_status_is_never_success() {
    assert_eq!(failure_status(ServiceError::UnknownModel), 404);
    assert_eq!(failure_status(ServiceError::UnsupportedFormat), 415);
    assert_eq!(failure_status(ServiceError::DecodeError), 422);
    assert_eq!(failure_status(ServiceError::DownloadFailed), 502);
    assert_eq!(failure_status(ServiceError::ModelLoadError), 500);
    assert_eq!(failure_status(ServiceError::InferenceError), 500);
}
