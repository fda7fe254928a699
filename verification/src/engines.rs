//! Lifecycle bookkeeping of the voice plugin's two engines: which worker is
//! loaded, whether startup preload ran, failed or succeeded, and the health
//! that each engine reports from that state.
//!
//! The worker processes themselves are opaque to this module (`W`); the host
//! spawns and talks to them, then reports each outcome to the state here.

use vstd::prelude::*;

use crate::error::{fails_with, opt_view, Error, ErrorKind};
use crate::models::{diagnostics_view, DiagnosticEntry, DiagnosticView};
use crate::stt::{allowed_model, is_allowlisted_model};
use crate::text::{concat_str, str_eq};
use crate::voice_models::{
    Config, DownloadModelRequest, DownloadModelResponse, Engine, EngineHealth, EngineHealthView,
    LifecycleState, StartupPreloadStatus,
};

verus! {

/// A live worker process and the model it loaded.
pub struct Worker<W> {
    pub model_id: String,
    pub process: W,
}

/// The model a worker slot holds, if any.
pub open spec fn loaded_model<W>(w: Option<Worker<W>>) -> Option<Seq<char>> {
    match w {
        Some(w) => Some(w.model_id@),
        None => None,
    }
}

/// State of the speech-to-text engine.
pub struct SttEngineState<W> {
    pub worker: Option<Worker<W>>,
    pub download_in_progress: bool,
    pub startup_error: Option<String>,
    pub startup_preload_status: StartupPreloadStatus,
}

/// State of the text-to-speech engine.
pub struct TtsEngineState<W> {
    pub worker: Option<Worker<W>>,
    pub lifecycle_state: LifecycleState,
    pub startup_error: Option<String>,
    pub startup_preload_status: StartupPreloadStatus,
    pub active_model_id: Option<String>,
}

/// The STT model loaded at startup when the configuration names none.
pub open spec fn default_stt_model() -> Seq<char> {
    "tiny.en"@
}

/// The STT startup-preload check for a preload status and stored error.
pub open spec fn stt_preload_check(
    status: StartupPreloadStatus,
    error: Option<Seq<char>>,
) -> DiagnosticView {
    DiagnosticView {
        name: "stt_startup_preload"@,
        ready: status == StartupPreloadStatus::Ready,
        reason: match status {
            StartupPreloadStatus::Running => Some("STT startup preload is still in progress"@),
            StartupPreloadStatus::Failed => Some(
                match error {
                    Some(e) => e,
                    None => "STT startup preload failed"@,
                },
            ),
            StartupPreloadStatus::Idle => Some(
                "STT startup preload has not produced a ready worker yet"@,
            ),
            StartupPreloadStatus::Ready => None,
        },
    }
}

/// The STT worker check.
pub open spec fn stt_worker_check(worker_ready: bool) -> DiagnosticView {
    DiagnosticView {
        name: "stt_worker"@,
        ready: worker_ready,
        reason: if worker_ready {
            None
        } else {
            Some("STT worker not initialized; startup preload has not completed"@)
        },
    }
}

/// The STT lifecycle: initializing while preload runs or a download is in
/// flight, failed after a failed preload, ready once preload succeeded and a
/// worker is loaded, uninitialized otherwise.
pub open spec fn stt_lifecycle(
    status: StartupPreloadStatus,
    downloading: bool,
    worker_ready: bool,
) -> LifecycleState {
    if status == StartupPreloadStatus::Running || downloading {
        LifecycleState::Initializing
    } else if status == StartupPreloadStatus::Failed {
        LifecycleState::Failed
    } else if worker_ready && status == StartupPreloadStatus::Ready {
        LifecycleState::Ready
    } else {
        LifecycleState::Uninitialized
    }
}

/// The TTS startup-preload check.
pub open spec fn tts_preload_check(status: StartupPreloadStatus) -> DiagnosticView {
    DiagnosticView {
        name: "tts_startup_preload"@,
        ready: status != StartupPreloadStatus::Failed,
        reason: Some(
            match status {
                StartupPreloadStatus::Idle => "TTS startup preload is disabled"@,
                StartupPreloadStatus::Running => "TTS startup preload is running"@,
                StartupPreloadStatus::Ready => "TTS startup preload is ready"@,
                StartupPreloadStatus::Failed => "TTS startup preload failed"@,
            },
        ),
    }
}

/// What the TTS worker check says: the stored error, else the active model,
/// else that the engine is not configured.
pub open spec fn tts_worker_reason(error: Option<Seq<char>>, active: Option<Seq<char>>) -> Seq<
    char,
> {
    match error {
        Some(e) => e,
        None => match active {
            Some(m) => "TTS model active: "@ + m,
            None => "TTS engine is not configured"@,
        },
    }
}

impl<W> SttEngineState<W> {
    /// The health this state reports: a required engine that is ready exactly
    /// when startup preload succeeded and a worker is loaded.
    pub open spec fn health_spec(self) -> EngineHealthView {
        let worker_ready = self.worker is Some;
        EngineHealthView {
            engine: Engine::Stt,
            lifecycle_state: stt_lifecycle(
                self.startup_preload_status,
                self.download_in_progress,
                worker_ready,
            ),
            ready: self.startup_preload_status == StartupPreloadStatus::Ready && worker_ready,
            required: true,
            diagnostics: seq![
                stt_preload_check(self.startup_preload_status, opt_view(self.startup_error)),
                stt_worker_check(worker_ready),
            ],
        }
    }

    /// Everything but the worker slot is as in `other`.
    pub open spec fn same_flags(self, other: Self) -> bool {
        &&& self.download_in_progress == other.download_in_progress
        &&& opt_view(self.startup_error) == opt_view(other.startup_error)
        &&& self.startup_preload_status == other.startup_preload_status
    }

    /// A fresh engine: no worker, no download, no error, preload idle.
    pub fn new() -> (s: Self)
        ensures
            s.worker is None,
            !s.download_in_progress,
            s.startup_error is None,
            s.startup_preload_status == StartupPreloadStatus::Idle,
    {
        SttEngineState {
            worker: None,
            download_in_progress: false,
            startup_error: None,
            startup_preload_status: StartupPreloadStatus::Idle,
        }
    }

    /// The engine's health.
    pub fn health(&self) -> (r: EngineHealth)
        ensures
            r@ == self.health_spec(),
    {
        let worker_ready = self.worker.is_some();
        let status = self.startup_preload_status;
        let preload = match status {
            StartupPreloadStatus::Running => DiagnosticEntry {
                name: String::from_str("stt_startup_preload"),
                ready: false,
                reason: Some(String::from_str("STT startup preload is still in progress")),
            },
            StartupPreloadStatus::Failed => DiagnosticEntry {
                name: String::from_str("stt_startup_preload"),
                ready: false,
                reason: Some(
                    match &self.startup_error {
                        Some(e) => e.clone(),
                        None => String::from_str("STT startup preload failed"),
                    },
                ),
            },
            StartupPreloadStatus::Idle => DiagnosticEntry {
                name: String::from_str("stt_startup_preload"),
                ready: false,
                reason: Some(
                    String::from_str("STT startup preload has not produced a ready worker yet"),
                ),
            },
            StartupPreloadStatus::Ready => DiagnosticEntry {
                name: String::from_str("stt_startup_preload"),
                ready: true,
                reason: None,
            },
        };
        let worker = DiagnosticEntry {
            name: String::from_str("stt_worker"),
            ready: worker_ready,
            reason: if worker_ready {
                None
            } else {
                Some(String::from_str("STT worker not initialized; startup preload has not completed"))
            },
        };
        let lifecycle_state = if status == StartupPreloadStatus::Running
            || self.download_in_progress {
            LifecycleState::Initializing
        } else if status == StartupPreloadStatus::Failed {
            LifecycleState::Failed
        } else if worker_ready && status == StartupPreloadStatus::Ready {
            LifecycleState::Ready
        } else {
            LifecycleState::Uninitialized
        };
        let ready = preload.ready && worker.ready;
        let mut diagnostics: Vec<DiagnosticEntry> = Vec::new();
        diagnostics.push(preload);
        diagnostics.push(worker);
        let r = EngineHealth {
            engine: Engine::Stt,
            lifecycle_state,
            ready,
            required: true,
            diagnostics,
        };
        assert(r@.diagnostics =~= self.health_spec().diagnostics);
        r
    }

    /// Starts the automatic startup preload. It goes ahead (and returns
    /// `true`) unless preload is already running or has succeeded, in which
    /// case nothing changes; going ahead marks preload running and clears the
    /// stored error.
    pub fn begin_startup_preload(&mut self) -> (proceed: bool)
        ensures
            proceed == !(old(self).startup_preload_status == StartupPreloadStatus::Running
                || old(self).startup_preload_status == StartupPreloadStatus::Ready),
            proceed ==> final(self).startup_preload_status == StartupPreloadStatus::Running
                && final(self).startup_error is None && final(self).download_in_progress
                == old(self).download_in_progress && final(self).worker
                == old(self).worker,
            !proceed ==> final(self).same_flags(*old(self)) && final(self).worker
                == old(self).worker,
    {
        match self.startup_preload_status {
            StartupPreloadStatus::Running | StartupPreloadStatus::Ready => false,
            _ => {
                self.startup_preload_status = StartupPreloadStatus::Running;
                self.startup_error = None;
                true
            },
        }
    }

    /// The startup preload's environment bootstrap failed with `e`: preload
    /// is marked failed with the message "Startup bootstrap failed: <e>".
    pub fn startup_bootstrap_failed(&mut self, e: &Error)
        ensures
            final(self).startup_preload_status == StartupPreloadStatus::Failed,
            final(self).startup_error is Some,
            !(e is Io) ==> opt_view(final(self).startup_error) == Some(
                "Startup bootstrap failed: "@ + e.display_spec(),
            ),
            final(self).download_in_progress == old(self).download_in_progress,
            final(self).worker == old(self).worker,
    {
        let text = e.to_display_string();
        self.startup_error = Some(concat_str("Startup bootstrap failed: ", text.as_str()));
        self.startup_preload_status = StartupPreloadStatus::Failed;
    }

    /// The startup preload's worker spawn for `model_id` ended: on success the
    /// worker is kept, the error cleared and preload marked ready; on failure
    /// preload is marked failed with the message
    /// "Startup model load failed for <model_id>: <e>".
    pub fn finish_startup_preload(&mut self, model_id: &str, spawned: Result<W, Error>)
        ensures
            final(self).download_in_progress == old(self).download_in_progress,
            match spawned {
                Ok(p) => {
                    &&& loaded_model(final(self).worker) == Some(model_id@)
                    &&& final(self).worker matches Some(w) && w.process == p
                    &&& final(self).startup_error is None
                    &&& final(self).startup_preload_status == StartupPreloadStatus::Ready
                },
                Err(e) => {
                    &&& final(self).worker == old(self).worker
                    &&& final(self).startup_preload_status == StartupPreloadStatus::Failed
                    &&& final(self).startup_error is Some
                    &&& !(e is Io) ==> opt_view(final(self).startup_error) == Some(
                        "Startup model load failed for "@ + model_id@ + ": "@ + e.display_spec(),
                    )
                },
            },
    {
        match spawned {
            Ok(process) => {
                self.worker = Some(Worker { model_id: String::from_str(model_id), process });
                self.startup_error = None;
                self.startup_preload_status = StartupPreloadStatus::Ready;
            },
            Err(e) => {
                let mut message = concat_str("Startup model load failed for ", model_id);
                message.append(": ");
                let text = e.to_display_string();
                message.append(text.as_str());
                self.startup_error = Some(message);
                self.startup_preload_status = StartupPreloadStatus::Failed;
            },
        }
    }

    /// Whether an explicit bootstrap has to spawn the default worker.
    pub fn needs_default_worker(&self) -> (r: bool)
        ensures
            r == (self.worker is None),
    {
        self.worker.is_none()
    }

    /// An explicit bootstrap succeeded; `spawned` is the default worker it
    /// started when none was loaded. A worker already loaded is kept; the
    /// stored error is cleared and preload is marked ready.
    pub fn finish_bootstrap(&mut self, spawned: Option<Worker<W>>)
        ensures
            final(self).worker == if old(self).worker is Some {
                old(self).worker
            } else {
                spawned
            },
            final(self).startup_error is None,
            final(self).startup_preload_status == StartupPreloadStatus::Ready,
            final(self).download_in_progress == old(self).download_in_progress,
    {
        if self.worker.is_none() {
            self.worker = spawned;
        }
        self.startup_error = None;
        self.startup_preload_status = StartupPreloadStatus::Ready;
    }

    /// Starts an explicit model download. Refused, with nothing changed, for
    /// the reasons of [`download_refusal`]. When the requested model is
    /// already loaded the answer is immediate (`already_active`), the error
    /// is cleared and preload marked ready. Otherwise the loaded worker is
    /// dropped, the download is marked in flight, and the host is told to
    /// load the model and report with `finish_download`.
    pub fn begin_download(&mut self, request: &DownloadModelRequest) -> (r: Result<
        DownloadStep,
        Error,
    >)
        ensures
            match download_refusal(old(self).download_in_progress, *request) {
                Some((kind, message)) => {
                    &&& fails_with(r, kind, message)
                    &&& final(self).same_flags(*old(self))
                    &&& final(self).worker == old(self).worker
                },
                None => if loaded_model(old(self).worker) == Some(request.model_id@) {
                    &&& r matches Ok(DownloadStep::AlreadyActive(resp))
                    &&& resp.engine == Engine::Stt && resp.model_id@ == request.model_id@
                        && resp.already_active
                    &&& final(self).worker == old(self).worker
                    &&& !final(self).download_in_progress
                    &&& final(self).startup_error is None
                    &&& final(self).startup_preload_status == StartupPreloadStatus::Ready
                } else {
                    &&& r matches Ok(DownloadStep::Load)
                    &&& final(self).worker is None
                    &&& final(self).download_in_progress
                    &&& opt_view(final(self).startup_error) == opt_view(old(self).startup_error)
                    &&& final(self).startup_preload_status == old(self).startup_preload_status
                },
            },
    {
        if request.engine != Engine::Stt {
            return Err(Error::invalid_input("Only the STT engine supports model downloads"));
        }
        if !is_allowlisted_model(request.model_id.as_str()) {
            return Err(Error::invalid_input("Invalid or unsupported model ID"));
        }
        if self.download_in_progress {
            return Err(Error::not_ready("A model is already downloading, please wait"));
        }
        let already = match &self.worker {
            Some(w) => str_eq(w.model_id.as_str(), request.model_id.as_str()),
            None => false,
        };
        if already {
            self.startup_error = None;
            self.startup_preload_status = StartupPreloadStatus::Ready;
            return Ok(
                DownloadStep::AlreadyActive(
                    DownloadModelResponse {
                        engine: Engine::Stt,
                        model_id: request.model_id.clone(),
                        already_active: true,
                    },
                ),
            );
        }
        self.worker = None;
        self.download_in_progress = true;
        Ok(DownloadStep::Load)
    }

    /// The download of `model_id` ended. The in-flight mark is always
    /// cleared. On success the new worker is kept, the error cleared and
    /// preload marked ready, and the response says the model was not already
    /// active; on failure the error is handed back unchanged.
    pub fn finish_download(&mut self, model_id: &str, spawned: Result<W, Error>) -> (r: Result<
        DownloadModelResponse,
        Error,
    >)
        ensures
            !final(self).download_in_progress,
            match spawned {
                Ok(p) => {
                    &&& loaded_model(final(self).worker) == Some(model_id@)
                    &&& final(self).worker matches Some(w) && w.process == p
                    &&& final(self).startup_error is None
                    &&& final(self).startup_preload_status == StartupPreloadStatus::Ready
                    &&& r matches Ok(resp) && resp.engine == Engine::Stt && resp.model_id@
                        == model_id@ && !resp.already_active
                },
                Err(e) => {
                    &&& r == Err::<DownloadModelResponse, Error>(e)
                    &&& final(self).worker == old(self).worker
                    &&& opt_view(final(self).startup_error) == opt_view(old(self).startup_error)
                    &&& final(self).startup_preload_status == old(self).startup_preload_status
                },
            },
    {
        self.download_in_progress = false;
        match spawned {
            Ok(process) => {
                self.worker = Some(Worker { model_id: String::from_str(model_id), process });
                self.startup_error = None;
                self.startup_preload_status = StartupPreloadStatus::Ready;
                Ok(
                    DownloadModelResponse {
                        engine: Engine::Stt,
                        model_id: String::from_str(model_id),
                        already_active: false,
                    },
                )
            },
            Err(e) => Err(e),
        }
    }

    /// Talking to the worker failed: the worker is dropped so that health
    /// reports the engine as not ready.
    pub fn worker_lost(&mut self)
        ensures
            final(self).worker is None,
            final(self).same_flags(*old(self)),
    {
        self.worker = None;
    }
}

/// Why a download request is refused, given whether another download is in
/// flight: a request for another engine or for a model off the allowlist
/// (`invalid_input`), or a download already in flight (`not_ready`); `None`
/// when it goes ahead.
pub open spec fn download_refusal(in_progress: bool, request: DownloadModelRequest) -> Option<
    (ErrorKind, Seq<char>),
> {
    if request.engine != Engine::Stt {
        Some((ErrorKind::InvalidInput, "Only the STT engine supports model downloads"@))
    } else if !allowed_model(request.model_id@) {
        Some((ErrorKind::InvalidInput, "Invalid or unsupported model ID"@))
    } else if in_progress {
        Some((ErrorKind::NotReady, "A model is already downloading, please wait"@))
    } else {
        None
    }
}

/// What the STT engine's lifecycle says of its state: it is initializing
/// exactly while startup preload runs or a download is in flight; ready
/// exactly when preload succeeded, a worker is loaded and no download is in
/// flight; failed exactly when preload failed and no download is in flight;
/// and uninitialized otherwise, which includes a preload that succeeded but
/// whose worker has since gone, with nothing loading.
pub proof fn law_stt_lifecycle_reflects_loading<W>(s: SttEngineState<W>)
    ensures
        ({
            let l = s.health_spec().lifecycle_state;
            &&& (l == LifecycleState::Initializing) <==> (s.startup_preload_status
                == StartupPreloadStatus::Running || s.download_in_progress)
            &&& (l == LifecycleState::Ready) <==> (s.startup_preload_status
                == StartupPreloadStatus::Ready && s.worker is Some && !s.download_in_progress)
            &&& (l == LifecycleState::Failed) <==> (s.startup_preload_status
                == StartupPreloadStatus::Failed && !s.download_in_progress)
            &&& (s.startup_preload_status == StartupPreloadStatus::Ready && s.worker is None
                && !s.download_in_progress) ==> l == LifecycleState::Uninitialized
            &&& s.health_spec().ready <==> (s.startup_preload_status == StartupPreloadStatus::Ready
                && s.worker is Some)
        }),
{
}

/// One download at a time: while a download is in flight (as `begin_download`
/// leaves it when it asks the host to load a model) every other well-formed
/// download request is refused with `not_ready`; once `finish_download` has
/// cleared the mark, the same request goes ahead again.
pub proof fn law_one_download_at_a_time(request: DownloadModelRequest)
    requires
        request.engine == Engine::Stt,
        allowed_model(request.model_id@),
    ensures
        download_refusal(true, request) == Some(
            (ErrorKind::NotReady, "A model is already downloading, please wait"@),
        ),
        download_refusal(false, request) is None,
{
}

/// A failed startup preload stays visible: once preload is marked failed
/// (as `startup_bootstrap_failed` and a failed `finish_startup_preload`
/// leave it) and no download is in flight, the STT engine reports a failed
/// lifecycle, is not ready, and its preload check carries the stored error.
pub proof fn law_preload_failure_visible<W>(s: SttEngineState<W>)
    requires
        s.startup_preload_status == StartupPreloadStatus::Failed,
        s.startup_error is Some,
        !s.download_in_progress,
    ensures
        s.health_spec().lifecycle_state == LifecycleState::Failed,
        !s.health_spec().ready,
        s.health_spec().diagnostics[0].reason == opt_view(s.startup_error),
{
}

/// What an explicit download asks of the host next.
pub enum DownloadStep {
    /// The model is already loaded; this is the answer.
    AlreadyActive(DownloadModelResponse),
    /// Spawn a worker for the requested model and report it with `finish_download`.
    Load,
}

/// The STT model that startup preload loads: the configured one, or "tiny.en".
pub fn startup_model(config: &Config) -> (r: String)
    ensures
        r@ == match opt_view(config.model_id) {
            Some(m) => m,
            None => default_stt_model(),
        },
{
    match &config.model_id {
        Some(m) => m.clone(),
        None => String::from_str("tiny.en"),
    }
}

/// The TTS engine once a synthesis with `model` starts: unchanged when a
/// worker with that model is loaded, else with an empty worker slot and an
/// initializing lifecycle, all else kept.
pub open spec fn start_synthesis<W>(t: TtsEngineState<W>, model: Seq<char>) -> TtsEngineState<W> {
    if loaded_model(t.worker) == Some(model) {
        t
    } else {
        TtsEngineState { worker: None, lifecycle_state: LifecycleState::Initializing, ..t }
    }
}

impl<W> TtsEngineState<W> {
    /// The health this state reports: an optional engine, ready exactly when
    /// a worker is loaded, whose lifecycle is the stored one.
    pub open spec fn health_spec(self) -> EngineHealthView {
        let worker_ready = self.worker is Some;
        EngineHealthView {
            engine: Engine::Tts,
            lifecycle_state: self.lifecycle_state,
            ready: worker_ready,
            required: false,
            diagnostics: seq![
                tts_preload_check(self.startup_preload_status),
                DiagnosticView {
                    name: "tts_worker"@,
                    ready: worker_ready,
                    reason: Some(
                        tts_worker_reason(
                            opt_view(self.startup_error),
                            opt_view(self.active_model_id),
                        ),
                    ),
                },
            ],
        }
    }

    /// A fresh engine: no worker, uninitialized, preload idle.
    pub fn new() -> (s: Self)
        ensures
            s.worker is None,
            s.lifecycle_state == LifecycleState::Uninitialized,
            s.startup_error is None,
            s.startup_preload_status == StartupPreloadStatus::Idle,
            s.active_model_id is None,
    {
        TtsEngineState {
            worker: None,
            lifecycle_state: LifecycleState::Uninitialized,
            startup_error: None,
            startup_preload_status: StartupPreloadStatus::Idle,
            active_model_id: None,
        }
    }

    /// The engine's health.
    pub fn health(&self) -> (r: EngineHealth)
        ensures
            r@ == self.health_spec(),
    {
        let worker_ready = self.worker.is_some();
        let status = self.startup_preload_status;
        let reason = match &self.startup_error {
            Some(e) => e.clone(),
            None => match &self.active_model_id {
                Some(m) => concat_str("TTS model active: ", m.as_str()),
                None => String::from_str("TTS engine is not configured"),
            },
        };
        let preload_text = match status {
            StartupPreloadStatus::Idle => "TTS startup preload is disabled",
            StartupPreloadStatus::Running => "TTS startup preload is running",
            StartupPreloadStatus::Ready => "TTS startup preload is ready",
            StartupPreloadStatus::Failed => "TTS startup preload failed",
        };
        let mut diagnostics: Vec<DiagnosticEntry> = Vec::new();
        diagnostics.push(
            DiagnosticEntry {
                name: String::from_str("tts_startup_preload"),
                ready: status != StartupPreloadStatus::Failed,
                reason: Some(String::from_str(preload_text)),
            },
        );
        diagnostics.push(
            DiagnosticEntry {
                name: String::from_str("tts_worker"),
                ready: worker_ready,
                reason: Some(reason),
            },
        );
        let r = EngineHealth {
            engine: Engine::Tts,
            lifecycle_state: self.lifecycle_state,
            ready: worker_ready,
            required: false,
            diagnostics,
        };
        assert(r@.diagnostics =~= self.health_spec().diagnostics);
        r
    }

    /// Readies the worker slot for a synthesis with `model_id`. A worker
    /// already loaded with that model is kept and nothing changes (`false`).
    /// Otherwise the slot is emptied, the engine marked initializing, and the
    /// host is told to spawn a worker (`true`).
    pub fn prepare_worker(&mut self, model_id: &str) -> (needs_spawn: bool)
        ensures
            needs_spawn == (loaded_model(old(self).worker) != Some(model_id@)),
            needs_spawn ==> final(self).worker is None && final(self).lifecycle_state
                == LifecycleState::Initializing,
            !needs_spawn ==> final(self).worker == old(self).worker
                && final(self).lifecycle_state == old(self).lifecycle_state,
            opt_view(final(self).startup_error) == opt_view(old(self).startup_error),
            final(self).startup_preload_status == old(self).startup_preload_status,
            opt_view(final(self).active_model_id) == opt_view(old(self).active_model_id),
            *final(self) == start_synthesis(*old(self), model_id@),
    {
        let loaded = match &self.worker {
            Some(w) => str_eq(w.model_id.as_str(), model_id),
            None => false,
        };
        if loaded {
            false
        } else {
            self.worker = None;
            self.lifecycle_state = LifecycleState::Initializing;
            true
        }
    }

    /// The TTS worker spawn for `model_id` ended. On success the worker is
    /// kept and the engine is ready with that model active and no error; on
    /// failure the engine is failed, its error is the spawn error's text, and
    /// the spawn error is handed back.
    pub fn finish_worker_spawn(&mut self, model_id: &str, spawned: Result<W, Error>) -> (r: Result<
        (),
        Error,
    >)
        ensures
            match spawned {
                Ok(p) => {
                    &&& r is Ok
                    &&& loaded_model(final(self).worker) == Some(model_id@)
                    &&& final(self).worker matches Some(w) && w.process == p
                    &&& opt_view(final(self).active_model_id) == Some(model_id@)
                    &&& final(self).startup_error is None
                    &&& final(self).startup_preload_status == StartupPreloadStatus::Ready
                    &&& final(self).lifecycle_state == LifecycleState::Ready
                },
                Err(e) => {
                    &&& r == Err::<(), Error>(e)
                    &&& final(self).worker == old(self).worker
                    &&& final(self).startup_error is Some
                    &&& !(e is Io) ==> opt_view(final(self).startup_error) == Some(
                        e.display_spec(),
                    )
                    &&& final(self).startup_preload_status == StartupPreloadStatus::Failed
                    &&& final(self).lifecycle_state == LifecycleState::Failed
                    &&& opt_view(final(self).active_model_id) == opt_view(
                        old(self).active_model_id,
                    )
                },
            },
    {
        match spawned {
            Ok(process) => {
                self.worker = Some(Worker { model_id: String::from_str(model_id), process });
                self.active_model_id = Some(String::from_str(model_id));
                self.startup_error = None;
                self.startup_preload_status = StartupPreloadStatus::Ready;
                self.lifecycle_state = LifecycleState::Ready;
                Ok(())
            },
            Err(e) => {
                self.startup_error = Some(e.to_display_string());
                self.startup_preload_status = StartupPreloadStatus::Failed;
                self.lifecycle_state = LifecycleState::Failed;
                Err(e)
            },
        }
    }

    /// Talking to the worker failed: the worker is dropped and the engine failed.
    pub fn worker_lost(&mut self)
        ensures
            final(self).worker is None,
            final(self).lifecycle_state == LifecycleState::Failed,
            opt_view(final(self).startup_error) == opt_view(old(self).startup_error),
            final(self).startup_preload_status == old(self).startup_preload_status,
            opt_view(final(self).active_model_id) == opt_view(old(self).active_model_id),
    {
        self.worker = None;
        self.lifecycle_state = LifecycleState::Failed;
    }
}

} // verus!
