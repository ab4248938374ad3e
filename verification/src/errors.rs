use vstd::prelude::*;

verus! {

/// Why a transcription request failed.  Every failure is terminal for the
/// current request; no step is retried.
#[derive(Debug)]
pub enum TranscriptionError {
    /// Rejected locally before any outside work: empty payload, empty
    /// credential, or invalid numeric chunk parameters.
    LocalValidation { message: String },
    /// The external media tool is missing or not runnable.
    Environment { message: String },
    /// The media tool ran but its diagnostic text held no usable duration;
    /// carries the raw text and the tool's exit code for diagnosis.
    Parse { diagnostics: Vec<u8>, exit_code: Option<i32> },
    /// The media tool ran and exited with a failure; carries the captured
    /// streams and the exit code.
    Subprocess { exit_code: Option<i32>, stderr: Vec<u8>, stdout: Vec<u8> },
    /// The remote endpoint rejected the request; carries the status code and
    /// the response body verbatim.
    RemoteApi { status: u16, body: Vec<u8> },
    /// The remote endpoint was unreachable or its response undecodable.
    Transport { message: String },
    /// An extracted chunk came back empty from the media tool.
    EmptyChunk { index: usize },
}

/// A failure of the overall operation: the chunk it happened on, if any, and
/// the underlying error.
#[derive(Debug)]
pub struct TranscribeFailure {
    pub chunk_index: Option<usize>,
    pub error: TranscriptionError,
}

} // verus!
