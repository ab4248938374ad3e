use audio_transcription::machine::{
    chunk_file_name, input_file_name, temp_dir_name, LargeFileTranscriber, StepAction, StepEvent,
};
use audio_transcription::TranscriptionError;

const MB: usize = 1024 * 1024;

fn probe_event(line: &str) -> StepEvent {
    StepEvent::ProbeOutput { stderr: line.as_bytes().to_vec(), exit_code: Some(0) }
}

/// Drives the machine through directory creation, payload write, tool check
/// and probe, returning it with the first post-probe action.
fn drive_setup(
    file_size: usize,
    probe_line: &str,
) -> (LargeFileTranscriber, StepAction) {
    let (m, a) = LargeFileTranscriber::start(file_size);
    assert!(matches!(a, StepAction::CreateWorkDir));
    let (m, a) = m.step(StepEvent::Succeeded);
    assert!(matches!(a, StepAction::WriteInput));
    let (m, a) = m.step(StepEvent::Succeeded);
    assert!(matches!(a, StepAction::CheckTool));
    let (m, a) = m.step(StepEvent::Succeeded);
    assert!(matches!(a, StepAction::RunProbe));
    m.step(probe_event(probe_line))
}

/// Runs one chunk through extract, measure, read and transcribe, answering
/// each action, and returns the machine with the action that follows the
/// chunk file's removal.
fn drive_one_chunk(
    m: LargeFileTranscriber,
    expected_index: usize,
    text: &str,
) -> (LargeFileTranscriber, StepAction) {
    let (m, a) = m.step(StepEvent::Succeeded);
    match a {
        StepAction::MeasureChunk { index } => assert_eq!(index, expected_index),
        _ => panic!("expected a measure action"),
    }
    let (m, a) = m.step(StepEvent::ChunkSize { size: 123 });
    match a {
        StepAction::ReadChunk { index } => assert_eq!(index, expected_index),
        _ => panic!("expected a read action"),
    }
    let (m, a) = m.step(StepEvent::Succeeded);
    match a {
        StepAction::TranscribeChunk { index } => assert_eq!(index, expected_index),
        _ => panic!("expected a transcribe action"),
    }
    let (m, a) = m.step(StepEvent::ChunkText { text: text.to_string() });
    match a {
        StepAction::RemoveChunkFile { index } => assert_eq!(index, expected_index),
        _ => panic!("expected a chunk removal action"),
    }
    m.step(StepEvent::Succeeded)
}

#[test]
fn sixty_mb_file_is_transcribed_in_three_ordered_chunks() {
    // 60 MB over five minutes: three chunks of 100 s each.
    let (m, a) = drive_setup(60 * MB, "  Duration: 00:05:00.00, start: 0.000000");
    match a {
        StepAction::ExtractChunk { chunk } => {
            assert_eq!(chunk.index, 0);
            assert_eq!(chunk.start_ms, 0);
            assert_eq!(chunk.duration_ms, 100_000);
        }
        _ => panic!("expected the first extraction"),
    }
    let (m, a) = drive_one_chunk(m, 0, "hello");
    match a {
        StepAction::ExtractChunk { chunk } => {
            assert_eq!(chunk.index, 1);
            assert_eq!(chunk.start_ms, 100_000);
            assert_eq!(chunk.duration_ms, 100_000);
        }
        _ => panic!("expected the second extraction"),
    }
    let (m, a) = drive_one_chunk(m, 1, "world");
    match a {
        StepAction::ExtractChunk { chunk } => {
            assert_eq!(chunk.index, 2);
            assert_eq!(chunk.start_ms, 200_000);
            assert_eq!(chunk.duration_ms, 100_000);
        }
        _ => panic!("expected the third extraction"),
    }
    let (m, a) = drive_one_chunk(m, 2, "foo");
    assert!(matches!(a, StepAction::RemoveWorkDir));
    let (_, a) = m.step(StepEvent::Succeeded);
    match a {
        StepAction::Finish { result } => {
            assert_eq!(result.unwrap().text, "hello world foo");
        }
        _ => panic!("expected the operation to finish"),
    }
}

#[test]
fn failing_second_chunk_discards_earlier_transcripts_and_cleans_up() {
    let (m, a) = drive_setup(60 * MB, "  Duration: 00:05:00.00, start: 0.000000");
    assert!(matches!(a, StepAction::ExtractChunk { .. }));
    let (m, _) = drive_one_chunk(m, 0, "hello");
    // Second chunk: extraction and read succeed, transcription fails.
    let (m, _) = m.step(StepEvent::Succeeded);
    let (m, _) = m.step(StepEvent::ChunkSize { size: 99 });
    let (m, a) = m.step(StepEvent::Succeeded);
    assert!(matches!(a, StepAction::TranscribeChunk { index: 1 }));
    let (m, a) = m.step(StepEvent::Failed {
        error: TranscriptionError::RemoteApi { status: 500, body: b"boom".to_vec() },
    });
    // The working directory is removed even though the operation failed.
    assert!(matches!(a, StepAction::RemoveWorkDir));
    let (_, a) = m.step(StepEvent::Succeeded);
    match a {
        StepAction::Finish { result } => {
            let failure = result.err().expect("no partial transcript may survive");
            assert_eq!(failure.chunk_index, Some(1));
            assert!(matches!(
                failure.error,
                TranscriptionError::RemoteApi { status: 500, .. }
            ));
        }
        _ => panic!("expected the operation to finish"),
    }
}

#[test]
fn unparsable_probe_output_fails_with_parse_error() {
    let (m, a) = drive_setup(30 * MB, "no duration here");
    assert!(matches!(a, StepAction::RemoveWorkDir));
    let (_, a) = m.step(StepEvent::Succeeded);
    match a {
        StepAction::Finish { result } => match result {
            Err(failure) => {
                assert_eq!(failure.chunk_index, None);
                match failure.error {
                    TranscriptionError::Parse { diagnostics, exit_code } => {
                        assert_eq!(diagnostics, b"no duration here".to_vec());
                        assert_eq!(exit_code, Some(0));
                    }
                    _ => panic!("expected a parse error"),
                }
            }
            Ok(_) => panic!("expected a failure"),
        },
        _ => panic!("expected the operation to finish"),
    }
}

#[test]
fn zero_duration_fails_fast_instead_of_extracting() {
    let (m, a) = drive_setup(30 * MB, "Duration: 00:00:00.00, start");
    assert!(matches!(a, StepAction::RemoveWorkDir));
    let (_, a) = m.step(StepEvent::Succeeded);
    match a {
        StepAction::Finish { result } => {
            let failure = result.err().expect("a zero duration must not succeed");
            assert!(matches!(
                failure.error,
                TranscriptionError::LocalValidation { .. }
            ));
        }
        _ => panic!("expected the operation to finish"),
    }
}

#[test]
fn empty_extracted_chunk_aborts() {
    let (m, a) = drive_setup(30 * MB, "Duration: 00:01:00.00, start");
    assert!(matches!(a, StepAction::ExtractChunk { .. }));
    let (m, _) = m.step(StepEvent::Succeeded);
    let (m, a) = m.step(StepEvent::ChunkSize { size: 0 });
    assert!(matches!(a, StepAction::RemoveWorkDir));
    let (_, a) = m.step(StepEvent::Succeeded);
    match a {
        StepAction::Finish { result } => {
            let failure = result.err().expect("an empty chunk must not succeed");
            assert_eq!(failure.chunk_index, Some(0));
            assert!(matches!(failure.error, TranscriptionError::EmptyChunk { index: 0 }));
        }
        _ => panic!("expected the operation to finish"),
    }
}

#[test]
fn chunk_file_removal_failure_is_tolerated() {
    // 10 MB still fits one chunk, so a single chunk covers the whole file.
    let (m, a) = drive_setup(10 * MB, "Duration: 00:01:00.00, start");
    assert!(matches!(a, StepAction::ExtractChunk { .. }));
    let (m, _) = m.step(StepEvent::Succeeded);
    let (m, _) = m.step(StepEvent::ChunkSize { size: 7 });
    let (m, _) = m.step(StepEvent::Succeeded);
    let (m, a) = m.step(StepEvent::ChunkText { text: "only".to_string() });
    assert!(matches!(a, StepAction::RemoveChunkFile { index: 0 }));
    // The removal fails; the operation still succeeds.
    let (m, a) = m.step(StepEvent::Failed {
        error: TranscriptionError::Transport { message: "cannot remove".to_string() },
    });
    assert!(matches!(a, StepAction::RemoveWorkDir));
    let (_, a) = m.step(StepEvent::Succeeded);
    match a {
        StepAction::Finish { result } => assert_eq!(result.unwrap().text, "only"),
        _ => panic!("expected the operation to finish"),
    }
}

#[test]
fn working_file_names() {
    assert_eq!(temp_dir_name(), "temp_transcription");
    assert_eq!(input_file_name(), "input_audio.mp3");
    assert_eq!(chunk_file_name(0), "chunk_0.mp3");
    assert_eq!(chunk_file_name(12), "chunk_12.mp3");
}
