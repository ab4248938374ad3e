use vstd::prelude::*;
use vstd::string::StringExecFns;
use crate::client::TranscriptionResponse;
use crate::duration::{extract_duration_from_ffmpeg_output, spec_duration_ms};
use crate::errors::{TranscribeFailure, TranscriptionError};
use crate::fmt::{spec_dec_digits, u64_to_dec_string};
use crate::join::{join_transcripts, spec_join_with_spaces};
use crate::planner::{
    chunk_specs, lemma_chunk_specs_exact, plan, spec_chunk_count, spec_chunk_duration_ms,
    spec_chunk_specs, ChunkSpec, MIN_CHUNK_DURATION_MS,
};

verus! {

/// Name of the per-request working directory, relative to the caller's data
/// directory.
pub fn temp_dir_name() -> (r: &'static str)
    ensures
        r@ == "temp_transcription"@,
{
    "temp_transcription"
}

/// Name of the working copy of the full input payload, relative to the
/// working directory.
pub fn input_file_name() -> (r: &'static str)
    ensures
        r@ == "input_audio.mp3"@,
{
    "input_audio.mp3"
}

/// Name of the extracted file of chunk `index`, relative to the working
/// directory.
pub fn chunk_file_name(index: usize) -> (r: String)
    ensures
        r@ == "chunk_"@ + spec_dec_digits(index as nat) + ".mp3"@,
{
    let mut s = String::from_str("chunk_");
    let digits = u64_to_dec_string(index as u64);
    s.append(digits.as_str());
    s.append(".mp3");
    s
}

/// Where the large-file operation stands.
#[derive(PartialEq, Eq, Structural, Clone, Copy, Debug)]
pub enum Phase {
    /// Creating the working directory.
    CreatingDir,
    /// Writing the raw payload to the working input file.
    WritingInput,
    /// Checking that the media tool exists and runs.
    CheckingTool,
    /// Probing the input's duration.
    Probing,
    /// Extracting the current chunk.
    Extracting,
    /// Verifying that the extracted chunk file is non-empty.
    Verifying,
    /// Reading the extracted chunk back into memory.
    Reading,
    /// Sending the current chunk to the remote endpoint.
    Transcribing,
    /// Deleting the current chunk's file (best effort).
    RemovingChunk,
    /// Removing the working directory (best effort), result already decided.
    CleaningUp,
    /// Terminal.
    Finished,
}

/// The next piece of outside work the driver must perform for the machine.
pub enum StepAction {
    /// Create the working directory; failure is fatal.
    CreateWorkDir,
    /// Write the raw payload to the working input file.
    WriteInput,
    /// Check that the media tool exists and answers its version command.
    CheckTool,
    /// Run the duration probe on the working input file and hand back its
    /// diagnostic stream and exit code.
    RunProbe,
    /// Extract the given chunk of the working input file to the chunk's own
    /// file.
    ExtractChunk { chunk: ChunkSpec },
    /// Report the extracted chunk file's size in bytes.
    MeasureChunk { index: usize },
    /// Read the extracted chunk file back into memory.
    ReadChunk { index: usize },
    /// Send the chunk bytes just read to the remote endpoint.
    TranscribeChunk { index: usize },
    /// Delete the extracted chunk file; a failure is tolerated.
    RemoveChunkFile { index: usize },
    /// Remove the whole working directory, recursively; a failure is
    /// tolerated.
    RemoveWorkDir,
    /// The operation is over with this result.
    Finish { result: Result<TranscriptionResponse, TranscribeFailure> },
}

/// What the last piece of outside work came back with.
pub enum StepEvent {
    /// The requested work succeeded (directory created, payload written,
    /// tool checked, chunk extracted or read, file removed).
    Succeeded,
    /// The duration probe ran: its diagnostic stream and exit code.
    ProbeOutput { stderr: Vec<u8>, exit_code: Option<i32> },
    /// The extracted chunk file's size in bytes.
    ChunkSize { size: u64 },
    /// The remote endpoint returned this transcript for the current chunk.
    ChunkText { text: String },
    /// The requested work failed.
    Failed { error: TranscriptionError },
}

/// Drives one large-file transcription as a strictly sequential state
/// machine.  The driver performs each returned action, feeds the outcome
/// back through `step`, and the machine guarantees: chunks are transcribed
/// in ascending index order, any failure aborts the remaining work with no
/// partial transcript, and the working directory is removed on success and
/// failure alike before the operation finishes.
pub struct LargeFileTranscriber {
    pub phase: Phase,
    pub file_size: usize,
    pub total_duration_ms: u64,
    pub chunks: Vec<ChunkSpec>,
    pub pos: usize,
    pub transcripts: Vec<String>,
    pub outcome: Option<Result<TranscriptionResponse, TranscribeFailure>>,
}

impl LargeFileTranscriber {
    /// The machine is mid-way through its chunk loop.
    pub open spec fn in_chunk_work(self) -> bool {
        self.phase is Extracting || self.phase is Verifying || self.phase is Reading
            || self.phase is Transcribing
    }

    /// The chunk list is the planner's, for this payload size and the probed
    /// duration.
    pub open spec fn plan_linked(self) -> bool {
        self.chunks@ == spec_chunk_specs(
            spec_chunk_count(self.file_size as nat),
            spec_chunk_duration_ms(
                self.total_duration_ms as nat,
                spec_chunk_count(self.file_size as nat),
            ),
            self.total_duration_ms as nat,
        )
    }

    /// Well-formedness: the position and the collected transcripts track the
    /// chunk loop, a decided outcome exists exactly where the phase needs
    /// one, and during the loop the chunk list is the planner's.
    /// The machine has not yet probed the input.
    pub open spec fn in_setup(self) -> bool {
        self.phase is CreatingDir || self.phase is WritingInput || self.phase is CheckingTool
            || self.phase is Probing
    }

    pub open spec fn wf(self) -> bool {
        &&& self.pos <= self.chunks@.len()
        &&& self.in_setup() ==> (self.transcripts@.len() == 0 && self.pos == 0)
        &&& self.in_chunk_work() ==> (self.pos < self.chunks@.len() && self.transcripts@.len()
            == self.pos)
        &&& (self.in_chunk_work() || self.phase is RemovingChunk) ==> self.outcome is None
        &&& self.phase is RemovingChunk ==> (self.pos < self.chunks@.len()
            && self.transcripts@.len() == self.pos + 1)
        &&& (self.in_chunk_work() || self.phase is RemovingChunk) ==> (self.plan_linked()
            && self.total_duration_ms > 0)
        &&& self.phase is CleaningUp ==> self.outcome is Some
    }

    /// The chunk the loop currently works on.
    pub open spec fn current_chunk(self) -> ChunkSpec {
        self.chunks@[self.pos as int]
    }

    /// The chunk index blamed when the current piece of outside work fails.
    pub open spec fn failing_chunk_index(self) -> Option<usize> {
        if self.in_chunk_work() {
            Some(self.current_chunk().index)
        } else {
            None
        }
    }

    /// All data fields of `b` equal those of `a`; only the phase may differ.
    pub open spec fn same_data(a: Self, b: Self) -> bool {
        &&& b.file_size == a.file_size
        &&& b.total_duration_ms == a.total_duration_ms
        &&& b.chunks@ == a.chunks@
        &&& b.pos == a.pos
        &&& b.transcripts@ == a.transcripts@
        &&& b.outcome == a.outcome
    }

    /// After the plan stands or a chunk is done: either the next chunk is
    /// dispatched for extraction, or all chunks are done and the machine
    /// moves to cleanup carrying the joined transcript as its success
    /// result.
    pub open spec fn chunk_dispatch(m: Self, a: StepAction) -> bool {
        if m.pos < m.chunks@.len() {
            &&& m.phase is Extracting
            &&& a matches StepAction::ExtractChunk { chunk } && chunk == m.chunks@[m.pos as int]
            &&& m.outcome is None
        } else {
            &&& m.phase is CleaningUp
            &&& a is RemoveWorkDir
            &&& match m.outcome {
                Some(Ok(resp)) => resp.text@ == spec_join_with_spaces(m.transcripts.deep_view()),
                _ => false,
            }
        }
    }

    /// The machine has aborted with `error`, blaming `chunk_index`: the
    /// result is decided as that failure — the transcripts collected so far
    /// are discarded — and the working directory is about to be removed.
    pub open spec fn failed_into_cleanup(
        self,
        r: (Self, StepAction),
        chunk_index: Option<usize>,
        error: TranscriptionError,
    ) -> bool {
        &&& r.0.phase is CleaningUp
        &&& r.1 is RemoveWorkDir
        &&& r.0.outcome == Some(
            Result::<TranscriptionResponse, TranscribeFailure>::Err(
                (TranscribeFailure { chunk_index, error }),
            ),
        )
    }

    /// Starts a large-file transcription for a payload of `file_size` bytes.
    /// The first piece of outside work is creating the working directory.
    pub fn start(file_size: usize) -> (r: (LargeFileTranscriber, StepAction))
        ensures
            r.0.wf(),
            r.0.phase is CreatingDir,
            r.0.file_size == file_size,
            r.0.transcripts@.len() == 0,
            r.0.outcome is None,
            r.1 is CreateWorkDir,
    {
        let m = LargeFileTranscriber {
            phase: Phase::CreatingDir,
            file_size,
            total_duration_ms: 0,
            chunks: Vec::new(),
            pos: 0,
            transcripts: Vec::new(),
            outcome: None,
        };
        (m, StepAction::CreateWorkDir)
    }

    /// Feeds the outcome of the last piece of outside work to the machine
    /// and returns the next machine state and the next piece of work.
    ///
    /// Any failure outside the two best-effort removal phases aborts the
    /// operation: the result is decided as that failure, no partial
    /// transcript survives, and the working directory is still removed
    /// before the machine finishes.  A failure while removing a chunk file
    /// or the working directory is tolerated and the machine proceeds.
    pub fn step(self, event: StepEvent) -> (r: (LargeFileTranscriber, StepAction))
        requires
            self.wf(),
            match event {
                StepEvent::Succeeded => self.phase is CreatingDir || self.phase is WritingInput
                    || self.phase is CheckingTool || self.phase is Extracting
                    || self.phase is Reading || self.phase is RemovingChunk
                    || self.phase is CleaningUp,
                StepEvent::ProbeOutput { .. } => self.phase is Probing,
                StepEvent::ChunkSize { .. } => self.phase is Verifying,
                StepEvent::ChunkText { .. } => self.phase is Transcribing,
                StepEvent::Failed { .. } => !(self.phase is Finished),
            },
        ensures
            r.0.wf(),
            // A failure anywhere but the best-effort removals aborts: the
            // collected transcripts are discarded and cleanup follows.
            !(self.phase is RemovingChunk) && !(self.phase is CleaningUp) ==> (
            event matches StepEvent::Failed { error } ==> self.failed_into_cleanup(
                r,
                self.failing_chunk_index(),
                error,
            )),
            // Setup steps advance in order.
            self.phase is CreatingDir && event is Succeeded ==> (r.0.phase is WritingInput
                && r.1 is WriteInput && Self::same_data(self, r.0)),
            self.phase is WritingInput && event is Succeeded ==> (r.0.phase is CheckingTool
                && r.1 is CheckTool && Self::same_data(self, r.0)),
            self.phase is CheckingTool && event is Succeeded ==> (r.0.phase is Probing
                && r.1 is RunProbe && Self::same_data(self, r.0)),
            // The probe decides: no parsable duration is a parse failure, a
            // zero duration is rejected outright, and otherwise the planner's
            // chunk list stands and the first chunk (if any) is dispatched.
            self.phase is Probing ==> (event matches StepEvent::ProbeOutput { stderr, exit_code }
                ==> match spec_duration_ms(stderr@) {
                Option::None => self.failed_into_cleanup(
                    r,
                    None,
                    (TranscriptionError::Parse { diagnostics: stderr, exit_code }),
                ),
                Option::Some(total) => {
                    if total == 0 {
                        &&& r.0.phase is CleaningUp
                        &&& r.1 is RemoveWorkDir
                        &&& match r.0.outcome {
                            Some(Err(f)) => f.chunk_index is None && f.error matches
                                TranscriptionError::LocalValidation { .. },
                            _ => false,
                        }
                    } else {
                        &&& r.0.total_duration_ms == total
                        &&& r.0.file_size == self.file_size
                        &&& r.0.plan_linked()
                        &&& r.0.pos == 0
                        &&& r.0.transcripts@ == self.transcripts@
                        &&& Self::chunk_dispatch(r.0, r.1)
                    }
                },
            }),
            // The chunk loop: extract, verify non-empty, read, transcribe,
            // remove, in ascending index order.
            self.phase is Extracting && event is Succeeded ==> (r.0.phase is Verifying && (
            r.1 matches StepAction::MeasureChunk { index } && index == self.current_chunk().index)
                && Self::same_data(self, r.0)),
            self.phase is Verifying ==> (event matches StepEvent::ChunkSize { size } ==> {
                if size == 0 {
                    self.failed_into_cleanup(
                        r,
                        (Some(self.current_chunk().index)),
                        (TranscriptionError::EmptyChunk { index: self.current_chunk().index }),
                    )
                } else {
                    &&& r.0.phase is Reading
                    &&& (r.1 matches StepAction::ReadChunk { index } && index
                        == self.current_chunk().index)
                    &&& Self::same_data(self, r.0)
                }
            }),
            self.phase is Reading && event is Succeeded ==> (r.0.phase is Transcribing && (
            r.1 matches StepAction::TranscribeChunk { index } && index
                == self.current_chunk().index) && Self::same_data(self, r.0)),
            // The transcript of the current chunk is appended after all
            // earlier ones; nothing is reordered or dropped.
            self.phase is Transcribing ==> (event matches StepEvent::ChunkText { text } ==> (
            r.0.phase is RemovingChunk && r.0.transcripts@ == self.transcripts@.push(text) && (
            r.1 matches StepAction::RemoveChunkFile { index } && index
                == self.current_chunk().index) && r.0.pos == self.pos && r.0.chunks@ == self.chunks@
                && r.0.file_size == self.file_size && r.0.total_duration_ms
                == self.total_duration_ms && r.0.outcome is None)),
            // Removing a chunk file is best-effort: success or failure, the
            // loop moves to the next chunk, or joins and cleans up.
            self.phase is RemovingChunk && (event is Succeeded || event is Failed) ==> (r.0.pos
                == self.pos + 1 && r.0.transcripts@ == self.transcripts@ && r.0.chunks@
                == self.chunks@ && r.0.file_size == self.file_size && r.0.total_duration_ms
                == self.total_duration_ms && Self::chunk_dispatch(r.0, r.1)),
            // Removing the working directory is best-effort: success or
            // failure, the machine finishes with the decided result.
            self.phase is CleaningUp && (event is Succeeded || event is Failed) ==> (
            r.0.phase is Finished && match (self.outcome, r.1) {
                (Some(res), StepAction::Finish { result }) => result == res,
                _ => false,
            }),
    {
        match event {
            StepEvent::Failed { error } => {
                match self.phase {
                    Phase::RemovingChunk => self.advance_chunk(),
                    Phase::CleaningUp => self.finish(),
                    _ => {
                        let idx = if matches!(
                            self.phase,
                            Phase::Extracting | Phase::Verifying | Phase::Reading
                                | Phase::Transcribing,
                        ) {
                            Some(self.chunks[self.pos].index)
                        } else {
                            None
                        };
                        self.fail_with(idx, error)
                    },
                }
            },
            StepEvent::Succeeded => {
                match self.phase {
                    Phase::CreatingDir => {
                        let m = LargeFileTranscriber { phase: Phase::WritingInput, ..self };
                        (m, StepAction::WriteInput)
                    },
                    Phase::WritingInput => {
                        let m = LargeFileTranscriber { phase: Phase::CheckingTool, ..self };
                        (m, StepAction::CheckTool)
                    },
                    Phase::CheckingTool => {
                        let m = LargeFileTranscriber { phase: Phase::Probing, ..self };
                        (m, StepAction::RunProbe)
                    },
                    Phase::Extracting => {
                        let index = self.chunks[self.pos].index;
                        let m = LargeFileTranscriber { phase: Phase::Verifying, ..self };
                        (m, StepAction::MeasureChunk { index })
                    },
                    Phase::Reading => {
                        let index = self.chunks[self.pos].index;
                        let m = LargeFileTranscriber { phase: Phase::Transcribing, ..self };
                        (m, StepAction::TranscribeChunk { index })
                    },
                    Phase::RemovingChunk => self.advance_chunk(),
                    _ => self.finish(),
                }
            },
            StepEvent::ProbeOutput { stderr, exit_code } => {
                match extract_duration_from_ffmpeg_output(stderr.as_slice()) {
                    None => self.fail_with(
                        None,
                        TranscriptionError::Parse { diagnostics: stderr, exit_code },
                    ),
                    Some(total) => {
                        if total == 0 {
                            self.fail_with(
                                None,
                                TranscriptionError::LocalValidation {
                                    message: String::from_str(
                                        "Audio duration could not be determined or is zero",
                                    ),
                                },
                            )
                        } else {
                            let p = plan(self.file_size, total);
                            let chunks = chunk_specs(&p, total);
                            let m = LargeFileTranscriber {
                                total_duration_ms: total,
                                chunks,
                                pos: 0,
                                ..self
                            };
                            m.dispatch_or_join()
                        }
                    },
                }
            },
            StepEvent::ChunkSize { size } => {
                if size == 0 {
                    let index = self.chunks[self.pos].index;
                    self.fail_with(Some(index), TranscriptionError::EmptyChunk { index })
                } else {
                    let index = self.chunks[self.pos].index;
                    let m = LargeFileTranscriber { phase: Phase::Reading, ..self };
                    (m, StepAction::ReadChunk { index })
                }
            },
            StepEvent::ChunkText { text } => {
                let index = self.chunks[self.pos].index;
                let mut m = self;
                m.transcripts.push(text);
                m.phase = Phase::RemovingChunk;
                (m, StepAction::RemoveChunkFile { index })
            },
        }
    }

    /// Aborts the operation with the given failure and moves to cleanup.
    fn fail_with(self, chunk_index: Option<usize>, error: TranscriptionError) -> (r: (
        LargeFileTranscriber,
        StepAction,
    ))
        requires
            self.pos <= self.chunks@.len(),
        ensures
            self.failed_into_cleanup(r, chunk_index, error),
            r.0.wf(),
    {
        let m = LargeFileTranscriber {
            phase: Phase::CleaningUp,
            outcome: Some(Err(TranscribeFailure { chunk_index, error })),
            ..self
        };
        (m, StepAction::RemoveWorkDir)
    }

    /// Moves past the chunk whose file was just (best-effort) removed.
    fn advance_chunk(self) -> (r: (LargeFileTranscriber, StepAction))
        requires
            self.wf(),
            self.phase is RemovingChunk,
        ensures
            r.0.wf(),
            r.0.pos == self.pos + 1,
            r.0.transcripts@ == self.transcripts@,
            r.0.chunks@ == self.chunks@,
            r.0.file_size == self.file_size,
            r.0.total_duration_ms == self.total_duration_ms,
            Self::chunk_dispatch(r.0, r.1),
    {
        let n = self.chunks.len();
        assert(self.pos < n);
        let m = LargeFileTranscriber { pos: self.pos + 1, ..self };
        m.dispatch_or_join()
    }

    /// Dispatches the chunk at the current position, or joins the collected
    /// transcripts and moves to cleanup when none remain.
    fn dispatch_or_join(self) -> (r: (LargeFileTranscriber, StepAction))
        requires
            self.pos <= self.chunks@.len(),
            self.transcripts@.len() == self.pos,
            self.plan_linked(),
            self.total_duration_ms > 0,
        ensures
            r.0.wf(),
            r.0.pos == self.pos,
            r.0.transcripts@ == self.transcripts@,
            r.0.chunks@ == self.chunks@,
            r.0.file_size == self.file_size,
            r.0.total_duration_ms == self.total_duration_ms,
            Self::chunk_dispatch(r.0, r.1),
    {
        if self.pos < self.chunks.len() {
            let chunk = self.chunks[self.pos];
            let m = LargeFileTranscriber { phase: Phase::Extracting, outcome: None, ..self };
            (m, StepAction::ExtractChunk { chunk })
        } else {
            let joined = join_transcripts(&self.transcripts);
            let m = LargeFileTranscriber {
                phase: Phase::CleaningUp,
                outcome: Some(Ok(TranscriptionResponse { text: joined })),
                ..self
            };
            (m, StepAction::RemoveWorkDir)
        }
    }

    /// While the machine works through its chunk loop, every chunk it will
    /// ever dispatch for extraction is significant and in bounds: its
    /// clamped duration reaches the minimum threshold and it never reaches
    /// past the probed total duration.  Chunks below the threshold were
    /// excluded when the plan was drawn up and are never extracted or
    /// transcribed.
    pub proof fn lemma_dispatched_chunks_significant(self)
        requires
            self.wf(),
            self.in_chunk_work() || self.phase is RemovingChunk,
        ensures
            forall|j: int|
                0 <= j < self.chunks@.len() ==> {
                    let c = #[trigger] self.chunks@[j];
                    &&& c.duration_ms >= MIN_CHUNK_DURATION_MS
                    &&& c.start_ms + c.duration_ms <= self.total_duration_ms
                },
    {
        let count = spec_chunk_count(self.file_size as nat);
        let dur = spec_chunk_duration_ms(self.total_duration_ms as nat, count);
        assert(count <= usize::MAX) by {
            if self.file_size > 0 {
                let t = crate::planner::TARGET_CHUNK_BYTES as int;
                let s = self.file_size as int;
                assert((s - 1) / t <= s - 1);
            }
        }
        lemma_chunk_specs_exact(count, dur, self.total_duration_ms as nat);
    }

    /// Finishes the operation with the decided result.
    fn finish(self) -> (r: (LargeFileTranscriber, StepAction))
        requires
            self.wf(),
            self.phase is CleaningUp,
        ensures
            r.0.wf(),
            r.0.phase is Finished,
            match (self.outcome, r.1) {
                (Some(res), StepAction::Finish { result }) => result == res,
                _ => false,
            },
    {
        let outcome = self.outcome;
        let m = LargeFileTranscriber { phase: Phase::Finished, outcome: None, ..self };
        match outcome {
            Some(res) => (m, StepAction::Finish { result: res }),
            None => {
                // wf rules this out: a machine in cleanup always carries a
                // decided outcome.
                proof {
                    assert(false);
                }
                (m, StepAction::RemoveWorkDir)
            },
        }
    }
}

} // verus!
