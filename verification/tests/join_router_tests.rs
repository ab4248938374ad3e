use audio_transcription::join::join_transcripts;
use audio_transcription::router::{route_for_payload, route_request, TranscriptionRoute, MAX_FILE_SIZE};
use audio_transcription::TranscriptionRequest;

#[test]
fn join_inserts_single_spaces_in_order() {
    let parts = vec!["hello".to_string(), "world".to_string(), "foo".to_string()];
    assert_eq!(join_transcripts(&parts), "hello world foo");
}

#[test]
fn join_of_one_piece_is_the_piece() {
    let parts = vec!["solo".to_string()];
    assert_eq!(join_transcripts(&parts), "solo");
}

#[test]
fn join_of_nothing_is_empty() {
    let parts: Vec<String> = vec![];
    assert_eq!(join_transcripts(&parts), "");
}

#[test]
fn join_keeps_empty_pieces_and_their_separators() {
    let parts = vec!["a".to_string(), "".to_string(), "b".to_string()];
    assert_eq!(join_transcripts(&parts), "a  b");
}

#[test]
fn payload_at_ceiling_goes_direct() {
    assert_eq!(MAX_FILE_SIZE, 26_214_400);
    assert!(matches!(route_for_payload(26_214_400), TranscriptionRoute::Direct));
    assert!(matches!(route_for_payload(0), TranscriptionRoute::Direct));
}

#[test]
fn payload_one_byte_over_ceiling_is_chunked() {
    assert!(matches!(route_for_payload(26_214_401), TranscriptionRoute::Chunked));
}

#[test]
fn whole_request_routes_by_payload_size() {
    let small = TranscriptionRequest { audio_data: vec![0u8; 16], api_key: "k".to_string() };
    assert!(matches!(route_request(&small), TranscriptionRoute::Direct));
}
