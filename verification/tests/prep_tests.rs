use audio_transcription::fmt::{format_ms_as_seconds, u64_to_dec_string};
use audio_transcription::prep::{
    concat_args, concat_list_content, convert_video_args, escape_concat_path, extract_args,
    ffmpeg_candidate_paths, is_video_file, probe_args,
};

#[test]
fn video_extensions_are_recognized_case_insensitively() {
    assert!(is_video_file(b"movie.mp4"));
    assert!(is_video_file(b"MOVIE.MP4"));
    assert!(is_video_file(b"clip.MoV"));
    assert!(is_video_file(b"a/b/c.mkv"));
    assert!(is_video_file(b"x.webm"));
    assert!(is_video_file(b"x.m4v"));
    assert!(is_video_file(b"x.flv"));
    assert!(is_video_file(b"x.wmv"));
    assert!(is_video_file(b"x.avi"));
    assert!(is_video_file(b"C:\\videos\\a.MOV"));
}

#[test]
fn non_video_paths_are_rejected() {
    assert!(!is_video_file(b"song.mp3"));
    assert!(!is_video_file(b"archive.tar.gz"));
    assert!(!is_video_file(b"noext"));
    assert!(!is_video_file(b".mp4"));
    assert!(!is_video_file(b"dir.mp4/file"));
    assert!(!is_video_file(b"movie.mp4 "));
    assert!(!is_video_file(b""));
}

#[test]
fn concat_paths_are_escaped() {
    assert_eq!(escape_concat_path("plain.mp3"), "plain.mp3");
    assert_eq!(escape_concat_path("a\\b\\c.wav"), "a/b/c.wav");
    assert_eq!(escape_concat_path("it's.wav"), "it'\\''s.wav");
}

#[test]
fn concat_list_holds_one_line_per_file() {
    let paths = vec!["a.wav".to_string(), "b's.wav".to_string()];
    assert_eq!(
        concat_list_content(&paths),
        "file 'a.wav'\nfile 'b'\\''s.wav'\n"
    );
    assert_eq!(concat_list_content(&vec![]), "");
}

#[test]
fn conversion_arguments_strip_video_and_fix_format() {
    assert_eq!(
        convert_video_args("in.mp4", "out.wav"),
        vec!["-i", "in.mp4", "-vn", "-acodec", "pcm_s16le", "-ar", "44100", "-ac", "2", "-y", "out.wav"]
    );
}

#[test]
fn concat_arguments_stream_copy() {
    assert_eq!(
        concat_args("list.txt", "out.mp3"),
        vec!["-f", "concat", "-safe", "0", "-i", "list.txt", "-c", "copy", "-y", "out.mp3"]
    );
}

#[test]
fn probe_arguments_discard_output_to_null_sink() {
    assert_eq!(
        probe_args("in.mp3", "/dev/null"),
        vec!["-i", "in.mp3", "-t", "1", "-f", "null", "/dev/null"]
    );
}

#[test]
fn extract_arguments_seek_and_copy() {
    assert_eq!(
        extract_args("in.mp3", "chunk_1.mp3", 100_000, 3_723_500),
        vec![
            "-i",
            "in.mp3",
            "-ss",
            "100.000",
            "-t",
            "3723.500",
            "-acodec",
            "copy",
            "-avoid_negative_ts",
            "make_zero",
            "-y",
            "chunk_1.mp3"
        ]
    );
}

#[test]
fn milliseconds_render_with_three_fraction_digits() {
    assert_eq!(format_ms_as_seconds(0), "0.000");
    assert_eq!(format_ms_as_seconds(50), "0.050");
    assert_eq!(format_ms_as_seconds(100_000), "100.000");
    assert_eq!(format_ms_as_seconds(3_723_500), "3723.500");
    assert_eq!(format_ms_as_seconds(999), "0.999");
}

#[test]
fn decimal_rendering() {
    assert_eq!(u64_to_dec_string(0), "0");
    assert_eq!(u64_to_dec_string(7), "7");
    assert_eq!(u64_to_dec_string(1234567890), "1234567890");
}

#[test]
fn candidate_tool_paths_under_resource_dir() {
    assert_eq!(
        ffmpeg_candidate_paths("/res", "linux", "ffmpeg"),
        vec!["/res/binaries/ffmpeg", "/res/binaries/linux/ffmpeg"]
    );
    assert_eq!(
        ffmpeg_candidate_paths("C:/res", "windows", "ffmpeg.exe"),
        vec!["C:/res/binaries/ffmpeg.exe", "C:/res/binaries/windows/ffmpeg.exe"]
    );
}
