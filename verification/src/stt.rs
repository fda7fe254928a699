//! Speech-to-text readiness and the one-shot transcriber of the STT plugin.

use vstd::prelude::*;

use crate::error::{fails_with, opt_view, Error, ErrorKind};
use crate::health::{
    all_ready, app_dir_checks, app_dir_diagnostics, app_dir_failure, app_dir_failure_reason,
    environment_checks, environment_diagnostics, lemma_environment_ready, every_ready, first_unready_reason,
    unready_reason, EnvironmentProbe,
};
use crate::models::{diagnostics_view, HealthResponse, TranscribeRequest, TranscribeResponse};
use crate::text::{concat_str, str_eq, trim, trimmed};
use crate::voice_models::LifecycleState;

verus! {

/// The model transcribed with when a request names none.
pub open spec fn default_model() -> Seq<char> {
    "tiny"@
}

/// The Whisper model IDs that transcription accepts.
pub open spec fn allowed_model(m: Seq<char>) -> bool {
    ||| m == "tiny"@
    ||| m == "tiny.en"@
    ||| m == "base"@
    ||| m == "base.en"@
    ||| m == "small"@
    ||| m == "small.en"@
    ||| m == "medium"@
    ||| m == "medium.en"@
    ||| m == "large"@
    ||| m == "large-v1"@
    ||| m == "large-v2"@
    ||| m == "large-v3"@
    ||| m == "large-v3-turbo"@
    ||| m == "turbo"@
}

/// Whether `m` is an allowlisted Whisper model ID.
pub fn is_allowlisted_model(m: &str) -> (r: bool)
    ensures
        r == allowed_model(m@),
{
    str_eq(m, "tiny") || str_eq(m, "tiny.en") || str_eq(m, "base") || str_eq(m, "base.en")
        || str_eq(m, "small") || str_eq(m, "small.en") || str_eq(m, "medium") || str_eq(
        m,
        "medium.en",
    ) || str_eq(m, "large") || str_eq(m, "large-v1") || str_eq(m, "large-v2") || str_eq(
        m,
        "large-v3",
    ) || str_eq(m, "large-v3-turbo") || str_eq(m, "turbo")
}

/// The Hugging Face repository that holds the MLX build of a Whisper model.
pub fn model_repo_for(model_id: &str) -> (r: String)
    ensures
        r@ == "mlx-community/whisper-"@ + model_id@,
{
    concat_str("mlx-community/whisper-", model_id)
}

/// STT readiness from what the host observed of the environment.
///
/// When the app data directory cannot be resolved the answer is not ready
/// with that one failing check. Otherwise the four environment checks are
/// reported in order, and the answer is ready exactly when all of them pass;
/// when it is not, the reason is that of the first failing check.
///
/// The lifecycle state is `ready` exactly when the answer is ready and
/// `uninitialized` otherwise: the STT plugin transcribes with a one-shot
/// process and runs no background preload, so it is never `initializing`,
/// and no preload can fail.
pub fn stt_health(probe: &EnvironmentProbe) -> (r: HealthResponse)
    ensures
        r is Ready ==> r.lifecycle_spec() == LifecycleState::Ready,
        r is NotReady ==> r.lifecycle_spec() == LifecycleState::Uninitialized,
        match probe.app_data_dir_error {
            Some(e) => r matches HealthResponse::NotReady { reason, diagnostics, .. } && reason@
                == app_dir_failure(e@) && diagnostics_view(diagnostics@) == app_dir_checks(e@),
            None => {
                &&& r.diagnostics_spec() == environment_checks(*probe)
                &&& (r is Ready <==> (probe.sidecar_available && probe.venv_exists
                    && probe.python_bin_exists))
                &&& (r matches HealthResponse::NotReady { reason, .. } ==> reason@
                    == unready_reason(environment_checks(*probe)))
            },
        },
{
    match &probe.app_data_dir_error {
        Some(e) => {
            let reason = app_dir_failure_reason(e.as_str());
            let diagnostics = app_dir_diagnostics(reason.as_str());
            assert(diagnostics_view(diagnostics@) =~= app_dir_checks(e@));
            HealthResponse::NotReady {
                lifecycle_state: LifecycleState::Uninitialized,
                reason,
                diagnostics,
            }
        },
        None => {
            let diagnostics = environment_diagnostics(probe);
            proof {
                lemma_environment_ready(*probe);
            }
            if every_ready(&diagnostics) {
                HealthResponse::Ready { lifecycle_state: LifecycleState::Ready, diagnostics }
            } else {
                let reason = first_unready_reason(&diagnostics);
                HealthResponse::NotReady {
                    lifecycle_state: LifecycleState::Uninitialized,
                    reason,
                    diagnostics,
                }
            }
        },
    }
}

/// The model a request transcribes with: its own, or the default.
pub open spec fn effective_model(request: TranscribeRequest) -> Seq<char> {
    match opt_view(request.model_id) {
        Some(m) => m,
        None => default_model(),
    }
}

/// Which models the STT plugin transcribes with: a request naming no model
/// uses "tiny", which is taken; a request naming a model is taken exactly
/// when it is one of the fourteen Whisper IDs tiny, tiny.en, base, base.en,
/// small, small.en, medium, medium.en, large, large-v1, large-v2, large-v3,
/// large-v3-turbo and turbo (see `plan_transcription`, which refuses the
/// others as `invalid_input`).
pub proof fn law_stt_takes_exactly_the_whisper_models(request: TranscribeRequest, m: Seq<char>)
    ensures
        request.model_id is None ==> effective_model(request) == "tiny"@ && allowed_model(
            effective_model(request),
        ),
        opt_view(request.model_id) == Some(m) ==> effective_model(request) == m && (allowed_model(
            effective_model(request),
        ) <==> (m == "tiny"@ || m == "tiny.en"@ || m == "base"@ || m == "base.en"@
                || m == "small"@ || m == "small.en"@ || m == "medium"@ || m == "medium.en"@
                || m == "large"@ || m == "large-v1"@ || m == "large-v2"@ || m == "large-v3"@
                || m == "large-v3-turbo"@ || m == "turbo"@)),
{
}

/// The checks made before transcribing, in order: the STT runtime is ready
/// (else `not_ready` with the health reason) with the `ready` lifecycle (else
/// `not_ready`), the audio path names an existing file (else
/// `invalid_input`), and the effective model is allowlisted (else
/// `invalid_input`). On success, the effective model ID.
pub fn plan_transcription(health: &HealthResponse, request: &TranscribeRequest, audio_is_file: bool) -> (r:
    Result<String, Error>)
    ensures
        match health {
            HealthResponse::NotReady { reason, .. } => fails_with(r, ErrorKind::NotReady, reason@),
            HealthResponse::Ready { lifecycle_state, .. } => if lifecycle_state
                != LifecycleState::Ready {
                fails_with(r, ErrorKind::NotReady, "STT lifecycle is not ready"@)
            } else if !audio_is_file {
                fails_with(r, ErrorKind::InvalidInput, "Audio file does not exist or is not a file"@)
            } else if !allowed_model(effective_model(*request)) {
                fails_with(r, ErrorKind::InvalidInput, "Invalid or unsupported model ID"@)
            } else {
                r matches Ok(m) && m@ == effective_model(*request)
            },
        },
{
    let lifecycle_state = match health {
        HealthResponse::NotReady { reason, .. } => {
            return Err(Error::not_ready(reason.as_str()));
        },
        HealthResponse::Ready { lifecycle_state, .. } => *lifecycle_state,
    };
    if lifecycle_state != LifecycleState::Ready {
        return Err(Error::not_ready("STT lifecycle is not ready"));
    }
    if !audio_is_file {
        return Err(Error::invalid_input("Audio file does not exist or is not a file"));
    }
    let model_id = match &request.model_id {
        Some(m) => m.clone(),
        None => String::from_str("tiny"),
    };
    if !is_allowlisted_model(model_id.as_str()) {
        return Err(Error::invalid_input("Invalid or unsupported model ID"));
    }
    Ok(model_id)
}

/// What the transcriber process's exit gives: on a failed exit a
/// `generation_failed` error naming its trimmed standard error (or, when that
/// is empty, its exit status); on success the trimmed standard output as the
/// transcript, unless it is empty, which is `generation_failed` too.
/// `stdout` and `stderr` are the process's output decoded as UTF-8.
pub fn transcriber_outcome(succeeded: bool, status: &str, stdout: &str, stderr: &str) -> (r: Result<
    TranscribeResponse,
    Error,
>)
    ensures
        !succeeded ==> fails_with(
            r,
            ErrorKind::GenerationFailed,
            if trimmed(stderr@).len() == 0 {
                "Transcriber failed with status "@ + status@
            } else {
                "Transcriber failed: "@ + trimmed(stderr@)
            },
        ),
        succeeded && trimmed(stdout@).len() == 0 ==> fails_with(
            r,
            ErrorKind::GenerationFailed,
            "Transcriber returned empty output"@,
        ),
        succeeded && trimmed(stdout@).len() > 0 ==> (r matches Ok(t) && t.text@ == trimmed(stdout@)),
{
    if !succeeded {
        let err_text = trim(stderr);
        let message = if err_text.unicode_len() == 0 {
            concat_str("Transcriber failed with status ", status)
        } else {
            concat_str("Transcriber failed: ", err_text.as_str())
        };
        return Err(Error::generation_failed(message.as_str()));
    }
    let text = trim(stdout);
    if text.unicode_len() == 0 {
        return Err(Error::generation_failed("Transcriber returned empty output"));
    }
    Ok(TranscribeResponse { text })
}

} // verus!
