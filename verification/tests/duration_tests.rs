use audio_transcription::duration::extract_duration_from_ffmpeg_output;

#[test]
fn parses_duration_line_to_milliseconds() {
    let text = b"  Duration: 01:02:03.50, start: 0.000000, bitrate: 128 kb/s";
    assert_eq!(extract_duration_from_ffmpeg_output(text), Some(3_723_500));
}

#[test]
fn absence_of_token_is_a_failure_not_zero() {
    let text = b"frame=    1 fps=0.0 q=-0.0 size=N/A time=00:00:01.00 bitrate=N/A";
    assert_eq!(extract_duration_from_ffmpeg_output(text), None);
    assert_eq!(extract_duration_from_ffmpeg_output(b""), None);
}

#[test]
fn token_on_a_later_line_is_found() {
    let text = b"Input #0, mp3, from 'input_audio.mp3':\n  Metadata:\n  Duration: 00:05:00.00, start: 0.023021, bitrate: 128 kb/s\n";
    assert_eq!(extract_duration_from_ffmpeg_output(text), Some(300_000));
}

#[test]
fn field_without_comma_reaches_end_of_line() {
    let text = b"  Duration: 00:00:01.00";
    assert_eq!(extract_duration_from_ffmpeg_output(text), Some(1_000));
}

#[test]
fn unavailable_duration_is_a_failure() {
    // "N/A" does not split into three colon-separated fields, so the scan
    // moves on and finds nothing else.
    let text = b"  Duration: N/A, start: 0.000000, bitrate: N/A";
    assert_eq!(extract_duration_from_ffmpeg_output(text), None);
}

#[test]
fn wrong_field_count_keeps_scanning_later_lines() {
    let text = b"  Duration: 12:34, x\n  Duration: 00:00:02.00, start: 0.0";
    assert_eq!(extract_duration_from_ffmpeg_output(text), Some(2_000));
}

#[test]
fn non_numeric_fields_decide_failure() {
    // Three fields are present, so this line decides the outcome, and its
    // fields are not numeric.
    let text = b"  Duration: aa:bb:cc, start: 0.000000\n  Duration: 00:00:02.00, start: 0.0";
    assert_eq!(extract_duration_from_ffmpeg_output(text), None);
}

#[test]
fn fractional_digits_scale_to_milliseconds() {
    assert_eq!(
        extract_duration_from_ffmpeg_output(b"Duration: 00:00:00.5,"),
        Some(500)
    );
    assert_eq!(
        extract_duration_from_ffmpeg_output(b"Duration: 00:00:00.05,"),
        Some(50)
    );
    assert_eq!(
        extract_duration_from_ffmpeg_output(b"Duration: 00:00:00.1234,"),
        Some(123)
    );
    assert_eq!(
        extract_duration_from_ffmpeg_output(b"Duration: 10:00:00,"),
        Some(36_000_000)
    );
}

#[test]
fn hours_and_minutes_weigh_in() {
    assert_eq!(
        extract_duration_from_ffmpeg_output(b"Duration: 02:30:15.25, start"),
        Some((2 * 3600 + 30 * 60 + 15) * 1000 + 250)
    );
}

#[test]
fn first_decisive_line_wins() {
    let text = b"Duration: 00:00:01.00, a\nDuration: 00:00:09.00, b";
    assert_eq!(extract_duration_from_ffmpeg_output(text), Some(1_000));
}
