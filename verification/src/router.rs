use vstd::prelude::*;
use crate::client::TranscriptionRequest;

verus! {

/// The remote endpoint's hard payload ceiling: 25 MB.
pub const MAX_FILE_SIZE: usize = 25 * 1024 * 1024;

/// Which path a request takes.
#[derive(PartialEq, Eq, Structural, Clone, Copy, Debug)]
pub enum TranscriptionRoute {
    /// Send the raw payload straight to the remote endpoint.
    Direct,
    /// Split the payload into time-bounded chunks and transcribe them one by
    /// one.
    Chunked,
}

/// Routes a request by payload size: a payload at most the ceiling goes
/// directly to the remote endpoint, and only a strictly larger one is
/// chunked.
pub fn route_for_payload(payload_len: usize) -> (r: TranscriptionRoute)
    ensures
        r is Chunked <==> payload_len > MAX_FILE_SIZE,
{
    if payload_len > MAX_FILE_SIZE {
        TranscriptionRoute::Chunked
    } else {
        TranscriptionRoute::Direct
    }
}

/// Routes a whole request by the size of its payload.
pub fn route_request(request: &TranscriptionRequest) -> (r: TranscriptionRoute)
    ensures
        r is Chunked <==> request.audio_data@.len() > MAX_FILE_SIZE,
{
    route_for_payload(request.audio_data.len())
}

} // verus!
