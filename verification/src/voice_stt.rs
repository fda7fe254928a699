//! Speech-to-text through the voice plugin's persistent worker: model
//! repositories, the readiness gate, and the line protocol with the worker.

use vstd::prelude::*;

use crate::engines::{default_stt_model, loaded_model, SttEngineState};
use crate::error::{fails_with, opt_view, Error, ErrorKind};
use crate::json;
use crate::text::{concat_str, decimal, decimal_string, str_eq};
use crate::models::TranscribeRequest;
use crate::stt::{allowed_model, is_allowlisted_model};
use crate::voice_models::{HealthResponse, HealthView, LifecycleState};

verus! {

/// Models whose MLX repository carries no "-mlx" suffix.
pub open spec fn without_mlx_suffix(model_id: Seq<char>) -> bool {
    model_id == "large-v3-turbo"@ || model_id == "turbo"@
}

/// The Hugging Face repository that holds the MLX build of a Whisper model.
pub open spec fn whisper_repo(model_id: Seq<char>) -> Seq<char> {
    if without_mlx_suffix(model_id) {
        "mlx-community/whisper-"@ + model_id
    } else {
        "mlx-community/whisper-"@ + model_id + "-mlx"@
    }
}

/// The Hugging Face repository that holds the MLX build of a Whisper model:
/// "mlx-community/whisper-<id>-mlx", without the suffix for the turbo models.
pub fn model_repo_for(model_id: &str) -> (r: String)
    ensures
        r@ == whisper_repo(model_id@),
{
    let mut r = concat_str("mlx-community/whisper-", model_id);
    if !(str_eq(model_id, "large-v3-turbo") || str_eq(model_id, "turbo")) {
        r.append("-mlx");
    }
    r
}

/// The STT model a request asks for: its own, or the default "tiny.en".
pub open spec fn requested_model(request: TranscribeRequest) -> Seq<char> {
    match opt_view(request.model_id) {
        Some(m) => m,
        None => default_stt_model(),
    }
}

/// The first reason, if any, for which a transcription is refused, checked in
/// this order: the plugin is not ready (`not_ready` with the health reason);
/// its lifecycle is not `ready` (`not_ready`); the audio path names no
/// existing file (`invalid_input`); the requested model is outside the
/// allowlist (`invalid_input`).
pub open spec fn transcription_refusal(
    health: HealthView,
    request: TranscribeRequest,
    audio_is_file: bool,
) -> Option<(ErrorKind, Seq<char>)> {
    match health.reason {
        Some(reason) => Some((ErrorKind::NotReady, reason)),
        None => if health.lifecycle_state != LifecycleState::Ready {
            Some((ErrorKind::NotReady, "STT lifecycle is not ready"@))
        } else if !audio_is_file {
            Some((ErrorKind::InvalidInput, "Audio file does not exist or is not a file"@))
        } else if !allowed_model(requested_model(request)) {
            Some((ErrorKind::InvalidInput, "Invalid or unsupported model ID"@))
        } else {
            None
        },
    }
}

/// Which models transcription takes: with a ready health whose lifecycle is
/// `ready` and an existing audio file, a request goes ahead exactly when it
/// names no model or one of the fourteen Whisper IDs tiny, tiny.en, base,
/// base.en, small, small.en, medium, medium.en, large, large-v1, large-v2,
/// large-v3, large-v3-turbo and turbo; any other model is refused as
/// `invalid_input`.
pub proof fn law_gate_takes_exactly_the_whisper_models(
    health: HealthView,
    request: TranscribeRequest,
    m: Seq<char>,
)
    requires
        health.reason is None,
        health.lifecycle_state == LifecycleState::Ready,
    ensures
        request.model_id is None ==> transcription_refusal(health, request, true) is None,
        opt_view(request.model_id) == Some(m) ==> (transcription_refusal(health, request, true)
            is None <==> (m == "tiny"@ || m == "tiny.en"@ || m == "base"@ || m == "base.en"@
                || m == "small"@ || m == "small.en"@ || m == "medium"@ || m == "medium.en"@
                || m == "large"@ || m == "large-v1"@ || m == "large-v2"@ || m == "large-v3"@
                || m == "large-v3-turbo"@ || m == "turbo"@)),
        opt_view(request.model_id) == Some(m) && !(m == "tiny"@ || m == "tiny.en"@ || m == "base"@ || m == "base.en"@
                || m == "small"@ || m == "small.en"@ || m == "medium"@ || m == "medium.en"@
                || m == "large"@ || m == "large-v1"@ || m == "large-v2"@ || m == "large-v3"@
                || m == "large-v3-turbo"@ || m == "turbo"@) ==> transcription_refusal(
            health,
            request,
            true,
        ) == Some((ErrorKind::InvalidInput, "Invalid or unsupported model ID"@)),
{
}

/// The MLX repository of a Whisper model: "mlx-community/whisper-<id>-mlx",
/// but without the "-mlx" suffix for "large-v3-turbo" and "turbo" alone.
pub proof fn law_mlx_suffix_only_for_non_turbo_models(m: Seq<char>)
    ensures
        m != "large-v3-turbo"@ && m != "turbo"@ ==> whisper_repo(m) == "mlx-community/whisper-"@
            + m + "-mlx"@,
        m == "large-v3-turbo"@ || m == "turbo"@ ==> whisper_repo(m) == "mlx-community/whisper-"@
            + m,
{
}

/// Transcription goes ahead only when the plugin is ready with the `ready`
/// lifecycle, the audio path names an existing file and the requested model
/// is allowlisted (see [`transcription_refusal`]).
pub fn transcription_gate(
    health: &HealthResponse,
    request: &TranscribeRequest,
    audio_is_file: bool,
) -> (r: Result<(), Error>)
    ensures
        match transcription_refusal(health@, *request, audio_is_file) {
            Some((kind, message)) => fails_with(r, kind, message),
            None => r is Ok,
        },
{
    let lifecycle_state = match health {
        HealthResponse::NotReady { reason, .. } => {
            return Err(Error::not_ready(reason.as_str()));
        },
        HealthResponse::Ready { lifecycle_state, .. } => *lifecycle_state,
    };
    if lifecycle_state != LifecycleState::Ready {
        return Err(Error::not_ready("STT lifecycle is not ready"));
    }
    if !audio_is_file {
        return Err(Error::invalid_input("Audio file does not exist or is not a file"));
    }
    let allowed = match &request.model_id {
        Some(m) => is_allowlisted_model(m.as_str()),
        None => true,
    };
    if !allowed {
        return Err(Error::invalid_input("Invalid or unsupported model ID"));
    }
    Ok(())
}

/// A transcription needs a loaded worker; without one it fails with `not_ready`.
pub fn require_worker<W>(engine: &SttEngineState<W>) -> (r: Result<(), Error>)
    ensures
        engine.worker is Some ==> r is Ok,
        engine.worker is None ==> fails_with(
            r,
            ErrorKind::NotReady,
            "STT worker not initialized; call bootstrapVoice first"@,
        ),
{
    if engine.worker.is_none() {
        return Err(Error::not_ready("STT worker not initialized; call bootstrapVoice first"));
    }
    Ok(())
}

/// The kinds of line a worker prints on standard output.
#[derive(Clone, Copy, Debug, PartialEq, Eq, Structural)]
pub enum WorkerLine {
    /// A model download or preload progress report (`"status": "progress"`).
    Progress,
    /// The worker has loaded its model (`"status": "ready"`).
    Ready,
    /// Anything else: a reply, or a library's stray output.
    Other,
}

/// How a worker line is read: by its JSON `status` member.
pub open spec fn worker_line_kind(line: Seq<char>) -> WorkerLine {
    match json::json_str_member(line, "status"@) {
        Some(s) => if s == "progress"@ {
            WorkerLine::Progress
        } else if s == "ready"@ {
            WorkerLine::Ready
        } else {
            WorkerLine::Other
        },
        None => WorkerLine::Other,
    }
}

/// The kind of a worker's output line.
pub fn classify_worker_line(line: &str) -> (r: WorkerLine)
    ensures
        r == worker_line_kind(line@),
{
    match json::str_member(line, "status") {
        Some(s) => if str_eq(s.as_str(), "progress") {
            WorkerLine::Progress
        } else if str_eq(s.as_str(), "ready") {
            WorkerLine::Ready
        } else {
            WorkerLine::Other
        },
        None => WorkerLine::Other,
    }
}

/// The request line sent to the worker for one transcription, its members
/// in key order as `serde_json` writes an object:
/// `{"audio":<path>,"id":"req-<now_ms>"}`.
pub fn transcription_request_line(now_ms: u64, audio_path: &str) -> (r: String)
    ensures
        r@ == "{\"audio\":"@ + json::json_quoted(audio_path@) + ",\"id\":"@ + json::json_quoted(
            "req-"@ + decimal(now_ms as nat),
        ) + "}"@,
{
    let stamp = decimal_string(now_ms);
    let id = concat_str("req-", stamp.as_str());
    let mut r = String::from_str("{\"audio\":");
    let q = json::quote(audio_path);
    r.append(q.as_str());
    r.append(",\"id\":");
    let q = json::quote(id.as_str());
    r.append(q.as_str());
    r.append("}");
    r
}

/// The worker's reply to a transcription: not JSON is `generation_failed`
/// naming the parse error; an `error` member is `generation_failed` with it;
/// otherwise the `text` member (empty when absent), which must not be empty.
pub fn interpret_transcription_reply(line: &str) -> (r: Result<String, Error>)
    ensures
        json::json_parse_error(line@) matches Some(pe) ==> fails_with(
            r,
            ErrorKind::GenerationFailed,
            "Worker response parse failed: "@ + pe,
        ),
        json::json_parse_error(line@) is None ==> match json::json_str_member(line@, "error"@) {
            Some(e) => fails_with(r, ErrorKind::GenerationFailed, e),
            None => match json::json_str_member(line@, "text"@) {
                Some(t) if t.len() > 0 => r matches Ok(s) && s@ == t,
                _ => fails_with(
                    r,
                    ErrorKind::GenerationFailed,
                    "Transcriber returned empty output"@,
                ),
            },
        },
{
    if let Some(pe) = json::parse_error(line) {
        let message = concat_str("Worker response parse failed: ", pe.as_str());
        return Err(Error::generation_failed(message.as_str()));
    }
    if let Some(e) = json::str_member(line, "error") {
        return Err(Error::generation_failed(e.as_str()));
    }
    let text = match json::str_member(line, "text") {
        Some(t) => t,
        None => String::new(),
    };
    if text.unicode_len() == 0 {
        return Err(Error::generation_failed("Transcriber returned empty output"));
    }
    Ok(text)
}

} // verus!
