use srtify::subtitle::{format_timestamp, srt_content, ticks_to_millis, Cue};
use srtify::transcript::Transcript;

#[test]
fn timestamp_of_zero() {
    assert_eq!(format_timestamp(0), "00:00:00,000");
}

#[test]
fn timestamp_of_an_hour_a_minute_a_second() {
    let ms = (3661.234f64 * 1000.0).round() as u64;
    assert_eq!(format_timestamp(ms), "01:01:01,234");
}

#[test]
fn timestamp_at_millisecond_rounding_edge() {
    let ms = (59.9995f64 * 1000.0).round() as u64;
    let text = format_timestamp(ms);
    assert!(text == "00:00:59,999" || text == "00:01:00,000", "{}", text);
    assert_eq!(format_timestamp(59_999), "00:00:59,999");
    assert_eq!(format_timestamp(60_000), "00:01:00,000");
}

#[test]
fn timestamp_with_many_hours() {
    assert_eq!(format_timestamp(100 * 3_600_000 + 5), "100:00:00,005");
}

#[test]
fn ticks_become_milliseconds() {
    assert_eq!(ticks_to_millis(0), 0);
    assert_eq!(ticks_to_millis(123), 1230);
    assert_eq!(ticks_to_millis(-1), 0);
    assert_eq!(ticks_to_millis(i64::MAX), u64::MAX);
}

#[test]
fn srt_of_no_cues_is_empty() {
    assert_eq!(srt_content(&Vec::new()), "");
}

#[test]
fn srt_numbers_cues_from_one() {
    let cues = vec![
        Cue { text: "Hello".to_string(), start_ms: 0, end_ms: 1500 },
        Cue { text: "World".to_string(), start_ms: 1500, end_ms: 3_723_004 },
    ];
    assert_eq!(
        srt_content(&cues),
        "1\n00:00:00,000 --> 00:00:01,500\nHello\n\n2\n00:00:01,500 --> 01:02:03,004\nWorld\n\n"
    );
}

#[test]
fn one_segment_gives_one_cue_block() {
    // a stub engine that reports one segment over the first second
    let mut t = Transcript::new();
    t.record(" two words".to_string(), 0, 100);
    let srt = srt_content(&t.cues());
    assert_eq!(srt, "1\n00:00:00,000 --> 00:00:01,000\n two words\n\n");
    assert_eq!(srt.matches(" --> ").count(), 1);
}
