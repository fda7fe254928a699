//! How failures of the Python runtime's processes are reported: the error
//! kind of each, and its message.

use vstd::prelude::*;

use crate::error::{Error, ErrorKind};
use crate::text::concat_str;
use crate::voice_models::Engine;

verus! {

/// How long a worker may take to report ready after it is spawned (a model
/// download can happen meanwhile), in seconds.
pub const WORKER_STARTUP_TIMEOUT_SECS: u64 = 300;

/// How long a worker may take to answer one request, in seconds.
pub const WORKER_REQUEST_TIMEOUT_SECS: u64 = 120;

/// A failure while starting or talking to a Python process. Texts are the
/// displayed path or the underlying error's text.
#[derive(Clone, Debug)]
pub enum RuntimeFailure {
    /// The app data directory cannot be resolved.
    AppDataDir(String),
    /// The virtual environment's Python binary is missing.
    PythonMissing(String),
    /// The one-shot transcription script is missing.
    TranscribeScriptMissing(String),
    /// An engine's worker script is missing.
    WorkerScriptMissing(Engine, String),
    /// The one-shot transcriber could not be run.
    TranscriberLaunch(String),
    /// An engine's worker could not be spawned.
    WorkerSpawn(Engine, String),
    /// An engine's worker did not report ready in time.
    WorkerStartupTimeout(Engine),
    /// Writing a request to an engine's worker failed.
    WorkerWrite(Engine, String),
    /// Flushing a request to an engine's worker failed.
    WorkerFlush(Engine, String),
    /// An engine's worker did not answer in time, or went away.
    WorkerReply(Engine, String),
    /// The TTS worker reported success but wrote no file.
    TtsOutputMissing,
    /// The requested TTS output file already exists.
    TtsOutputExists,
    /// The TTS output path has no parent directory.
    TtsOutputNoParent,
    /// The TTS output directory cannot be created.
    TtsOutputDir(String),
}

/// The kind and message of each runtime failure.
pub open spec fn failure_spec(f: RuntimeFailure) -> (ErrorKind, Seq<char>) {
    match f {
        RuntimeFailure::AppDataDir(e) => (ErrorKind::NotReady, "Cannot resolve app data dir: "@ + e@),
        RuntimeFailure::PythonMissing(p) => (ErrorKind::NotReady, "Python binary not found at "@ + p@),
        RuntimeFailure::TranscribeScriptMissing(p) => (
            ErrorKind::GenerationFailed,
            "Transcription script not found at "@ + p@,
        ),
        RuntimeFailure::WorkerScriptMissing(Engine::Stt, p) => (
            ErrorKind::GenerationFailed,
            "Worker script not found at "@ + p@,
        ),
        RuntimeFailure::WorkerScriptMissing(Engine::Tts, p) => (
            ErrorKind::GenerationFailed,
            "TTS worker script not found at "@ + p@,
        ),
        RuntimeFailure::TranscriberLaunch(e) => (
            ErrorKind::GenerationFailed,
            "Failed to execute python transcriber: "@ + e@,
        ),
        RuntimeFailure::WorkerSpawn(Engine::Stt, e) => (
            ErrorKind::NotReady,
            "Failed to spawn STT worker: "@ + e@,
        ),
        RuntimeFailure::WorkerSpawn(Engine::Tts, e) => (
            ErrorKind::NotReady,
            "Failed to spawn TTS worker: "@ + e@,
        ),
        RuntimeFailure::WorkerStartupTimeout(Engine::Stt) => (
            ErrorKind::NotReady,
            "STT worker startup timeout; model download may have failed"@,
        ),
        RuntimeFailure::WorkerStartupTimeout(Engine::Tts) => (
            ErrorKind::NotReady,
            "TTS worker startup timeout; model download may have failed"@,
        ),
        RuntimeFailure::WorkerWrite(Engine::Stt, e) => (
            ErrorKind::GenerationFailed,
            "Failed to write to worker stdin: "@ + e@,
        ),
        RuntimeFailure::WorkerWrite(Engine::Tts, e) => (
            ErrorKind::GenerationFailed,
            "Failed to write to TTS worker stdin: "@ + e@,
        ),
        RuntimeFailure::WorkerFlush(Engine::Stt, e) => (
            ErrorKind::GenerationFailed,
            "Failed to flush worker stdin: "@ + e@,
        ),
        RuntimeFailure::WorkerFlush(Engine::Tts, e) => (
            ErrorKind::GenerationFailed,
            "Failed to flush TTS worker stdin: "@ + e@,
        ),
        RuntimeFailure::WorkerReply(Engine::Stt, e) => (
            ErrorKind::GenerationFailed,
            "Transcription timeout or worker disconnect: "@ + e@,
        ),
        RuntimeFailure::WorkerReply(Engine::Tts, e) => (
            ErrorKind::GenerationFailed,
            "TTS timeout or worker disconnect: "@ + e@,
        ),
        RuntimeFailure::TtsOutputMissing => (
            ErrorKind::GenerationFailed,
            "TTS worker did not create an output file"@,
        ),
        RuntimeFailure::TtsOutputExists => (ErrorKind::InvalidInput, "TTS output path already exists"@),
        RuntimeFailure::TtsOutputNoParent => (
            ErrorKind::InvalidInput,
            "TTS output path must include a parent directory"@,
        ),
        RuntimeFailure::TtsOutputDir(e) => (
            ErrorKind::InvalidInput,
            "Cannot create TTS output directory: "@ + e@,
        ),
    }
}

/// The error reported for a runtime failure (see [`failure_spec`]).
pub fn runtime_failure(f: &RuntimeFailure) -> (r: Error)
    ensures
        r.is(failure_spec(*f).0, failure_spec(*f).1),
{
    match f {
        RuntimeFailure::AppDataDir(e) => {
            let m = concat_str("Cannot resolve app data dir: ", e.as_str());
            Error::not_ready(m.as_str())
        },
        RuntimeFailure::PythonMissing(p) => {
            let m = concat_str("Python binary not found at ", p.as_str());
            Error::not_ready(m.as_str())
        },
        RuntimeFailure::TranscribeScriptMissing(p) => {
            let m = concat_str("Transcription script not found at ", p.as_str());
            Error::generation_failed(m.as_str())
        },
        RuntimeFailure::WorkerScriptMissing(engine, p) => {
            let m = match engine {
                Engine::Stt => concat_str("Worker script not found at ", p.as_str()),
                Engine::Tts => concat_str("TTS worker script not found at ", p.as_str()),
            };
            Error::generation_failed(m.as_str())
        },
        RuntimeFailure::TranscriberLaunch(e) => {
            let m = concat_str("Failed to execute python transcriber: ", e.as_str());
            Error::generation_failed(m.as_str())
        },
        RuntimeFailure::WorkerSpawn(engine, e) => {
            let m = match engine {
                Engine::Stt => concat_str("Failed to spawn STT worker: ", e.as_str()),
                Engine::Tts => concat_str("Failed to spawn TTS worker: ", e.as_str()),
            };
            Error::not_ready(m.as_str())
        },
        RuntimeFailure::WorkerStartupTimeout(engine) => match engine {
            Engine::Stt => Error::not_ready(
                "STT worker startup timeout; model download may have failed",
            ),
            Engine::Tts => Error::not_ready(
                "TTS worker startup timeout; model download may have failed",
            ),
        },
        RuntimeFailure::WorkerWrite(engine, e) => {
            let m = match engine {
                Engine::Stt => concat_str("Failed to write to worker stdin: ", e.as_str()),
                Engine::Tts => concat_str("Failed to write to TTS worker stdin: ", e.as_str()),
            };
            Error::generation_failed(m.as_str())
        },
        RuntimeFailure::WorkerFlush(engine, e) => {
            let m = match engine {
                Engine::Stt => concat_str("Failed to flush worker stdin: ", e.as_str()),
                Engine::Tts => concat_str("Failed to flush TTS worker stdin: ", e.as_str()),
            };
            Error::generation_failed(m.as_str())
        },
        RuntimeFailure::WorkerReply(engine, e) => {
            let m = match engine {
                Engine::Stt => concat_str("Transcription timeout or worker disconnect: ", e.as_str()),
                Engine::Tts => concat_str("TTS timeout or worker disconnect: ", e.as_str()),
            };
            Error::generation_failed(m.as_str())
        },
        RuntimeFailure::TtsOutputMissing => Error::generation_failed(
            "TTS worker did not create an output file",
        ),
        RuntimeFailure::TtsOutputExists => Error::invalid_input("TTS output path already exists"),
        RuntimeFailure::TtsOutputNoParent => Error::invalid_input(
            "TTS output path must include a parent directory",
        ),
        RuntimeFailure::TtsOutputDir(e) => {
            let m = concat_str("Cannot create TTS output directory: ", e.as_str());
            Error::invalid_input(m.as_str())
        },
    }
}

/// The TTS engine must hold a worker to synthesize; without one it fails with `not_ready`.
pub fn tts_worker_missing() -> (r: Error)
    ensures
        r.is(ErrorKind::NotReady, "TTS worker not initialized; call synthesizeSpeech first"@),
{
    Error::not_ready("TTS worker not initialized; call synthesizeSpeech first")
}

} // verus!
