use vstd::prelude::*;
use vstd::string::StringExecFns;
use crate::errors::TranscriptionError;

verus! {

/// A transcription request: the raw audio payload and the API credential.
pub struct TranscriptionRequest {
    pub audio_data: Vec<u8>,
    pub api_key: String,
}

/// A successful transcription: the recognized text.
#[derive(Debug)]
pub struct TranscriptionResponse {
    pub text: String,
}

/// The string under the top-level `text` key of the JSON object encoded by
/// the given bytes, if they encode an object with a string there.
pub uninterp spec fn json_text_field_of(body: Seq<u8>) -> Option<Seq<char>>;

/// Relies on serde_json::from_slice, serde_json::Value::get and
/// serde_json::Value::as_str: decodes the bytes as JSON and returns the
/// string under the top-level "text" key; the result depends on the bytes
/// alone.
#[verifier::external_body]
fn decode_text_field(body: &[u8]) -> (r: Option<String>)
    ensures
        match r {
            Some(t) => json_text_field_of(body@) == Some(t@),
            None => json_text_field_of(body@) is None,
        },
{
    match serde_json::from_slice::<serde_json::Value>(body) {
        Ok(v) => match v.get("text") {
            Some(t) => t.as_str().map(|s| s.to_string()),
            None => None,
        },
        Err(_) => None,
    }
}

/// Checks the local preconditions of a transcription call: payload and
/// credential must both be non-empty.  The payload is checked first.
pub fn validate_transcription_inputs(audio_data: &Vec<u8>, api_key: &String) -> (r: Result<
    (),
    TranscriptionError,
>)
    ensures
        r is Ok <==> (audio_data@.len() > 0 && api_key@.len() > 0),
        audio_data@.len() == 0 ==> (r matches Err(TranscriptionError::LocalValidation { message })
            && message@ == "Audio data is empty"@),
        audio_data@.len() > 0 && api_key@.len() == 0 ==> (r matches Err(
            TranscriptionError::LocalValidation { message },
        ) && message@ == "OpenAI API key is empty"@),
{
    if audio_data.len() == 0 {
        Err(TranscriptionError::LocalValidation {
            message: String::from_str("Audio data is empty"),
        })
    } else if api_key.as_str().is_empty() {
        Err(TranscriptionError::LocalValidation {
            message: String::from_str("OpenAI API key is empty"),
        })
    } else {
        Ok(())
    }
}

/// The authorization header value carrying the API key as a bearer token.
pub fn bearer_token_header(api_key: &str) -> (r: String)
    ensures
        r@ == "Bearer "@ + api_key@,
{
    let mut s = String::from_str("Bearer ");
    s.append(api_key);
    s
}

/// The remote transcription endpoint.
pub fn transcription_endpoint() -> (r: &'static str)
    ensures
        r@ == "https://api.openai.com/v1/audio/transcriptions"@,
{
    "https://api.openai.com/v1/audio/transcriptions"
}

/// The fixed model identifier sent with every upload.
pub fn transcription_model() -> (r: &'static str)
    ensures
        r@ == "whisper-1"@,
{
    "whisper-1"
}

/// The file name under which the payload is uploaded.
pub fn upload_file_name() -> (r: &'static str)
    ensures
        r@ == "audio.mp3"@,
{
    "audio.mp3"
}

/// The MIME type of the uploaded payload.
pub fn upload_mime_type() -> (r: &'static str)
    ensures
        r@ == "audio/mpeg"@,
{
    "audio/mpeg"
}

/// Classifies the remote endpoint's response.  A status outside 2xx is a
/// remote API failure carrying the status and the body verbatim; a 2xx body
/// must decode as JSON with a `text` field, and anything else is a transport
/// failure.
pub fn classify_response(status: u16, body: Vec<u8>) -> (r: Result<
    TranscriptionResponse,
    TranscriptionError,
>)
    ensures
        !(200 <= status < 300) ==> (r matches Err(TranscriptionError::RemoteApi { status: st, body: b })
            && st == status && b@ == body@),
        200 <= status < 300 ==> match json_text_field_of(body@) {
            Some(t) => r matches Ok(resp) && resp.text@ == t,
            None => r matches Err(TranscriptionError::Transport { message }) && message@
                == "Failed to parse transcription API response"@,
        },
{
    if !(200 <= status && status < 300) {
        return Err(TranscriptionError::RemoteApi { status, body });
    }
    match decode_text_field(body.as_slice()) {
        Some(text) => Ok(TranscriptionResponse { text }),
        None => Err(TranscriptionError::Transport {
            message: String::from_str("Failed to parse transcription API response"),
        }),
    }
}

} // verus!
