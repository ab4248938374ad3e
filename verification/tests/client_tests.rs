use audio_transcription::client::{
    bearer_token_header, classify_response, transcription_endpoint, transcription_model,
    upload_file_name, upload_mime_type, validate_transcription_inputs,
};
use audio_transcription::TranscriptionError;

#[test]
fn empty_audio_is_rejected_first() {
    let r = validate_transcription_inputs(&vec![], &"".to_string());
    match r {
        Err(TranscriptionError::LocalValidation { message }) => {
            assert_eq!(message, "Audio data is empty");
        }
        _ => panic!("expected a local validation error"),
    }
}

#[test]
fn empty_key_is_rejected() {
    let r = validate_transcription_inputs(&vec![1, 2, 3], &"".to_string());
    match r {
        Err(TranscriptionError::LocalValidation { message }) => {
            assert_eq!(message, "OpenAI API key is empty");
        }
        _ => panic!("expected a local validation error"),
    }
}

#[test]
fn non_empty_inputs_pass_validation() {
    assert!(validate_transcription_inputs(&vec![1], &"sk".to_string()).is_ok());
}

#[test]
fn bearer_header_prefixes_the_key() {
    assert_eq!(bearer_token_header("sk-123"), "Bearer sk-123");
}

#[test]
fn protocol_constants() {
    assert_eq!(
        transcription_endpoint(),
        "https://api.openai.com/v1/audio/transcriptions"
    );
    assert_eq!(transcription_model(), "whisper-1");
    assert_eq!(upload_file_name(), "audio.mp3");
    assert_eq!(upload_mime_type(), "audio/mpeg");
}

#[test]
fn non_2xx_response_carries_status_and_body() {
    let r = classify_response(429, b"slow down".to_vec());
    match r {
        Err(TranscriptionError::RemoteApi { status, body }) => {
            assert_eq!(status, 429);
            assert_eq!(body, b"slow down".to_vec());
        }
        _ => panic!("expected a remote API error"),
    }
}

#[test]
fn ok_response_decodes_text_field() {
    let r = classify_response(200, br#"{"text":"hello there"}"#.to_vec());
    assert_eq!(r.unwrap().text, "hello there");
}

#[test]
fn ok_response_with_extra_fields_still_decodes() {
    let r = classify_response(201, br#"{"text":"hi","language":"en"}"#.to_vec());
    assert_eq!(r.unwrap().text, "hi");
}

#[test]
fn undecodable_2xx_body_is_a_transport_error() {
    let garbage = classify_response(200, b"not json".to_vec());
    assert!(matches!(
        garbage,
        Err(TranscriptionError::Transport { .. })
    ));
    let missing = classify_response(200, br#"{"words":"hi"}"#.to_vec());
    assert!(matches!(
        missing,
        Err(TranscriptionError::Transport { .. })
    ));
    let wrong_type = classify_response(200, br#"{"text":42}"#.to_vec());
    assert!(matches!(
        wrong_type,
        Err(TranscriptionError::Transport { .. })
    ));
}
