//! The voice plugin's overall readiness, summed up from the shared
//! environment checks and each engine's health.

use vstd::prelude::*;

use crate::health::{
    all_ready, app_dir_checks, app_dir_diagnostics, app_dir_failure, app_dir_failure_reason,
    append_diagnostics, environment_checks, environment_diagnostics, first_unready_reason,
    unready_reason, EnvironmentProbe,
};
use crate::models::{diagnostics_view, DiagnosticEntry, DiagnosticView};
use crate::engines::{start_synthesis, SttEngineState, TtsEngineState};
use crate::models::TranscribeRequest;
use crate::voice_stt::transcription_refusal;
use crate::health::lemma_environment_ready;
use crate::text::starts_with;
use crate::voice_models::StartupPreloadStatus;
use crate::voice_models::{
    engines_view, EngineHealth, EngineHealthView, HealthResponse, HealthView, LifecycleState,
};

verus! {

/// `name` begins with `prefix`.
pub open spec fn has_prefix(name: Seq<char>, prefix: Seq<char>) -> bool {
    prefix.len() <= name.len() && name.subrange(0, prefix.len() as int) == prefix
}

/// A check that belongs to one engine (its name begins with "stt_" or "tts_").
pub open spec fn is_engine_check(name: Seq<char>) -> bool {
    has_prefix(name, "stt_"@) || has_prefix(name, "tts_"@)
}

/// Every check that belongs to no engine passes.
pub open spec fn shared_ready(ds: Seq<DiagnosticView>) -> bool {
    forall|i: int| 0 <= i < ds.len() && !is_engine_check(#[trigger] ds[i].name) ==> ds[i].ready
}

/// Every required engine is ready.
pub open spec fn required_ready(es: Seq<EngineHealthView>) -> bool {
    forall|i: int| 0 <= i < es.len() && #[trigger] es[i].required ==> es[i].ready
}

/// Some required engine is in `state`.
pub open spec fn required_in(es: Seq<EngineHealthView>, state: LifecycleState) -> bool {
    exists|i: int| 0 <= i < es.len() && #[trigger] es[i].required && es[i].lifecycle_state == state
}

/// The plugin's lifecycle: failed if a required engine failed, else
/// initializing if one is initializing, else ready when the shared checks
/// and the required engines are ready, else uninitialized.
pub open spec fn overall_lifecycle(es: Seq<EngineHealthView>, shared: bool) -> LifecycleState {
    if required_in(es, LifecycleState::Failed) {
        LifecycleState::Failed
    } else if required_in(es, LifecycleState::Initializing) {
        LifecycleState::Initializing
    } else if shared && required_ready(es) {
        LifecycleState::Ready
    } else {
        LifecycleState::Uninitialized
    }
}

/// All checks reported: the environment's, then each engine's.
pub open spec fn all_checks(
    p: EnvironmentProbe,
    stt: EngineHealthView,
    tts: EngineHealthView,
) -> Seq<DiagnosticView> {
    environment_checks(p) + stt.diagnostics + tts.diagnostics
}

/// The voice plugin's health for an environment probe and the two engines'
/// healths. When the app data directory cannot be resolved it is failed and
/// not ready with that one check. Otherwise it is ready exactly when every
/// shared check and every required engine is ready; when not ready, the
/// reason is that of the first failing check among all of them.
pub open spec fn voice_health_spec(
    p: EnvironmentProbe,
    stt: EngineHealthView,
    tts: EngineHealthView,
) -> HealthView {
    let engines = seq![stt, tts];
    match p.app_data_dir_error {
        Some(e) => HealthView {
            lifecycle_state: LifecycleState::Failed,
            reason: Some(app_dir_failure(e@)),
            engines,
            diagnostics: app_dir_checks(e@),
        },
        None => {
            let ds = all_checks(p, stt, tts);
            let shared = shared_ready(ds);
            HealthView {
                lifecycle_state: overall_lifecycle(engines, shared),
                reason: if shared && required_ready(engines) {
                    None
                } else {
                    Some(unready_reason(ds))
                },
                engines,
                diagnostics: ds,
            }
        },
    }
}

/// Whether every check that belongs to no engine passes.
pub fn shared_checks_ready(ds: &Vec<DiagnosticEntry>) -> (r: bool)
    ensures
        r == shared_ready(diagnostics_view(ds@)),
{
    let ghost v = diagnostics_view(ds@);
    let mut i: usize = 0;
    while i < ds.len()
        invariant
            0 <= i <= ds@.len(),
            v == diagnostics_view(ds@),
            forall|k: int| 0 <= k < i && !is_engine_check(#[trigger] v[k].name) ==> v[k].ready,
        decreases ds@.len() - i,
    {
        let engine_check = starts_with(ds[i].name.as_str(), "stt_") || starts_with(
            ds[i].name.as_str(),
            "tts_",
        );
        if !engine_check && !ds[i].ready {
            assert(!is_engine_check(v[i as int].name) && !v[i as int].ready);
            return false;
        }
        i = i + 1;
    }
    true
}

/// Whether every required engine is ready, and whether some required
/// engine has failed or is initializing.
pub fn required_engines(es: &Vec<EngineHealth>) -> (r: (bool, bool, bool))
    ensures
        r.0 == required_ready(engines_view(es@)),
        r.1 == required_in(engines_view(es@), LifecycleState::Failed),
        r.2 == required_in(engines_view(es@), LifecycleState::Initializing),
{
    let ghost v = engines_view(es@);
    let mut ready = true;
    let mut failed = false;
    let mut initializing = false;
    let mut i: usize = 0;
    while i < es.len()
        invariant
            0 <= i <= es@.len(),
            v == engines_view(es@),
            ready == forall|k: int| 0 <= k < i && #[trigger] v[k].required ==> v[k].ready,
            failed == exists|k: int|
                0 <= k < i && #[trigger] v[k].required && v[k].lifecycle_state
                    == LifecycleState::Failed,
            initializing == exists|k: int|
                0 <= k < i && #[trigger] v[k].required && v[k].lifecycle_state
                    == LifecycleState::Initializing,
        decreases es@.len() - i,
    {
        let e = &es[i];
        assert(v[i as int] == e@);
        assert(v[i as int].required == e.required);
        assert(v[i as int].ready == e.ready);
        assert(v[i as int].lifecycle_state == e.lifecycle_state);
        if e.required {
            if !e.ready {
                ready = false;
            }
            if e.lifecycle_state == LifecycleState::Failed {
                failed = true;
            }
            if e.lifecycle_state == LifecycleState::Initializing {
                initializing = true;
            }
        }
        i = i + 1;
    }
    (ready, failed, initializing)
}

/// The voice plugin's health, from what the host observed of the
/// environment and the two engines' healths (see [`voice_health_spec`]).
pub fn voice_health(probe: &EnvironmentProbe, stt: EngineHealth, tts: EngineHealth) -> (r:
    HealthResponse)
    ensures
        r@ == voice_health_spec(*probe, stt@, tts@),
{
    let ghost sv = stt@;
    let ghost tv = tts@;
    match &probe.app_data_dir_error {
        Some(e) => {
            let reason = app_dir_failure_reason(e.as_str());
            let diagnostics = app_dir_diagnostics(reason.as_str());
            let mut engines: Vec<EngineHealth> = Vec::new();
            engines.push(stt);
            engines.push(tts);
            let r = HealthResponse::NotReady {
                lifecycle_state: LifecycleState::Failed,
                reason,
                engines,
                diagnostics,
            };
            assert(r@.engines =~= seq![sv, tv]);
            assert(r@.diagnostics =~= app_dir_checks(e@));
            r
        },
        None => {
            let mut diagnostics = environment_diagnostics(probe);
            append_diagnostics(&mut diagnostics, &stt.diagnostics);
            append_diagnostics(&mut diagnostics, &tts.diagnostics);
            let mut engines: Vec<EngineHealth> = Vec::new();
            engines.push(stt);
            engines.push(tts);
            assert(engines_view(engines@) =~= seq![sv, tv]);
            let (required_ok, required_failed, required_initializing) = required_engines(
                &engines,
            );
            let shared = shared_checks_ready(&diagnostics);
            let lifecycle_state = if required_failed {
                LifecycleState::Failed
            } else if required_initializing {
                LifecycleState::Initializing
            } else if shared && required_ok {
                LifecycleState::Ready
            } else {
                LifecycleState::Uninitialized
            };
            if shared && required_ok {
                HealthResponse::Ready { lifecycle_state, engines, diagnostics }
            } else {
                let reason = first_unready_reason(&diagnostics);
                HealthResponse::NotReady { lifecycle_state, reason, engines, diagnostics }
            }
        },
    }
}

/// The environment checks belong to no engine; the engines' own checks
/// belong to an engine.
proof fn lemma_check_names<W>(p: EnvironmentProbe, s: SttEngineState<W>, t: TtsEngineState<W>)
    ensures
        forall|i: int|
            0 <= i < environment_checks(p).len() ==> !is_engine_check(
                #[trigger] environment_checks(p)[i].name,
            ),
        forall|i: int|
            0 <= i < s.health_spec().diagnostics.len() ==> is_engine_check(
                #[trigger] s.health_spec().diagnostics[i].name,
            ),
        forall|i: int|
            0 <= i < t.health_spec().diagnostics.len() ==> is_engine_check(
                #[trigger] t.health_spec().diagnostics[i].name,
            ),
{
    reveal_strlit("stt_");
    reveal_strlit("tts_");
    reveal_strlit("app_data_dir");
    reveal_strlit("uv_sidecar");
    reveal_strlit("python_venv");
    reveal_strlit("python_binary");
    reveal_strlit("stt_startup_preload");
    reveal_strlit("stt_worker");
    reveal_strlit("tts_startup_preload");
    reveal_strlit("tts_worker");
    let e = environment_checks(p);
    assert(e[0].name == "app_data_dir"@);
    assert(e[1].name == "uv_sidecar"@);
    assert(e[2].name == "python_venv"@);
    assert(e[3].name == "python_binary"@);
    assert(!has_prefix("app_data_dir"@, "stt_"@) && !has_prefix("app_data_dir"@, "tts_"@)) by {
        assert("app_data_dir"@.subrange(0, 4)[0] == 'a');
        assert("stt_"@[0] == 's' && "tts_"@[0] == 't');
    }
    assert(!has_prefix("uv_sidecar"@, "stt_"@) && !has_prefix("uv_sidecar"@, "tts_"@)) by {
        assert("uv_sidecar"@.subrange(0, 4)[0] == 'u');
        assert("stt_"@[0] == 's' && "tts_"@[0] == 't');
    }
    assert(!has_prefix("python_venv"@, "stt_"@) && !has_prefix("python_venv"@, "tts_"@)) by {
        assert("python_venv"@.subrange(0, 4)[0] == 'p');
        assert("stt_"@[0] == 's' && "tts_"@[0] == 't');
    }
    assert(!has_prefix("python_binary"@, "stt_"@) && !has_prefix("python_binary"@, "tts_"@)) by {
        assert("python_binary"@.subrange(0, 4)[0] == 'p');
        assert("stt_"@[0] == 's' && "tts_"@[0] == 't');
    }
    assert(has_prefix("stt_startup_preload"@, "stt_"@)) by {
        assert("stt_startup_preload"@.subrange(0, 4) =~= "stt_"@);
    }
    assert(has_prefix("stt_worker"@, "stt_"@)) by {
        assert("stt_worker"@.subrange(0, 4) =~= "stt_"@);
    }
    assert(has_prefix("tts_startup_preload"@, "tts_"@)) by {
        assert("tts_startup_preload"@.subrange(0, 4) =~= "tts_"@);
    }
    assert(has_prefix("tts_worker"@, "tts_"@)) by {
        assert("tts_worker"@.subrange(0, 4) =~= "tts_"@);
    }
    assert forall|i: int| 0 <= i < e.len() implies !is_engine_check(#[trigger] e[i].name) by {
        if i == 0 {
        } else if i == 1 {
        } else if i == 2 {
        } else {
        }
    }
    let sd = s.health_spec().diagnostics;
    assert forall|i: int| 0 <= i < sd.len() implies is_engine_check(#[trigger] sd[i].name) by {
        if i == 0 {
        } else {
        }
    }
    let td = t.health_spec().diagnostics;
    assert forall|i: int| 0 <= i < td.len() implies is_engine_check(#[trigger] td[i].name) by {
        if i == 0 {
        } else {
        }
    }
}

/// The reason of a list of checks that has a failing check among its first
/// part is the reason of that first part alone.
proof fn lemma_unready_reason_prefix(a: Seq<DiagnosticView>, b: Seq<DiagnosticView>)
    requires
        exists|i: int| 0 <= i < a.len() && !(#[trigger] a[i]).ready,
    ensures
        unready_reason(a + b) == unready_reason(a),
    decreases a.len(),
{
    let ab = a + b;
    assert(ab[0] == a[0]);
    if a[0].ready {
        let k = choose|i: int| 0 <= i < a.len() && !(#[trigger] a[i]).ready;
        assert(k != 0);
        assert(a.drop_first()[k - 1] == a[k]);
        assert(ab.drop_first() =~= a.drop_first() + b);
        lemma_unready_reason_prefix(a.drop_first(), b);
    }
}

/// Once the app data directory resolves, the shared checks pass exactly when
/// the environment checks do, the required engines are ready exactly when
/// STT is, and a required engine is in a lifecycle state exactly when STT is.
proof fn lemma_health_parts<W>(p: EnvironmentProbe, s: SttEngineState<W>, t: TtsEngineState<W>)
    requires
        p.app_data_dir_error is None,
    ensures
        ({
            let sv = s.health_spec();
            let engines = seq![sv, t.health_spec()];
            &&& shared_ready(all_checks(p, sv, t.health_spec())) == all_ready(environment_checks(p))
            &&& required_ready(engines) == sv.ready
            &&& forall|x: LifecycleState| required_in(engines, x) == (sv.lifecycle_state == x)
        }),
{
    lemma_check_names(p, s, t);
    let sv = s.health_spec();
    let tv = t.health_spec();
    let ds = all_checks(p, sv, tv);
    let env = environment_checks(p);
    let engines = seq![sv, tv];
    assert(engines[0] == sv && engines[1] == tv);
    assert forall|i: int| 0 <= i < env.len() implies ds[i] == env[i] by {}
    assert forall|i: int|
        0 <= i < ds.len() && env.len() <= i implies is_engine_check(#[trigger] ds[i].name) by {
        if i < env.len() + sv.diagnostics.len() {
            assert(ds[i] == sv.diagnostics[i - env.len()]);
        } else {
            assert(ds[i] == tv.diagnostics[i - env.len() - sv.diagnostics.len()]);
        }
    }
    if shared_ready(ds) {
        assert forall|i: int| 0 <= i < env.len() implies #[trigger] env[i].ready by {
            assert(ds[i] == env[i]);
            assert(!is_engine_check(ds[i].name));
        }
    }
    if all_ready(env) {
        assert forall|i: int|
            0 <= i < ds.len() && !is_engine_check(#[trigger] ds[i].name) implies ds[i].ready by {
            if i < env.len() {
                assert(ds[i] == env[i]);
            }
        }
    }
    if required_ready(engines) {
        assert(engines[0].required);
    }
    if sv.ready {
        assert forall|i: int| 0 <= i < engines.len() && #[trigger] engines[i].required
            implies engines[i].ready by {
            if i == 0 {
            } else {
            }
        }
    }
    assert forall|x: LifecycleState| required_in(engines, x) == (sv.lifecycle_state == x) by {
        if required_in(engines, x) {
            let k = choose|k: int|
                0 <= k < engines.len() && #[trigger] engines[k].required
                    && engines[k].lifecycle_state == x;
            assert(k == 0 || k == 1);
        }
        if sv.lifecycle_state == x {
            assert(engines[0].required && engines[0].lifecycle_state == x);
        }
    }
}

/// The TTS engine has no say in the voice plugin's readiness: whatever its
/// state, the plugin's lifecycle and its not-ready reason are the same. When
/// the plugin is not ready (and the app data directory resolves), the reason
/// is that of the first failing check among the shared environment checks
/// and the STT engine's checks, so it never comes from a TTS check.
pub proof fn law_tts_never_decides_readiness<W>(
    p: EnvironmentProbe,
    s: SttEngineState<W>,
    t1: TtsEngineState<W>,
    t2: TtsEngineState<W>,
)
    ensures
        ({
            let h1 = voice_health_spec(p, s.health_spec(), t1.health_spec());
            let h2 = voice_health_spec(p, s.health_spec(), t2.health_spec());
            &&& h1.lifecycle_state == h2.lifecycle_state
            &&& h1.reason == h2.reason
            &&& p.app_data_dir_error is None && h1.reason is Some ==> {
                &&& exists|i: int|
                    0 <= i < (environment_checks(p) + s.health_spec().diagnostics).len()
                        && !(#[trigger] (environment_checks(p)
                        + s.health_spec().diagnostics)[i]).ready
                &&& h1.reason == Some(
                    unready_reason(environment_checks(p) + s.health_spec().diagnostics),
                )
            }
        }),
{
    if p.app_data_dir_error is None {
        law_ready_exactly_when_stt_loaded(p, s, t1);
        law_ready_exactly_when_stt_loaded(p, s, t2);
        lemma_health_parts(p, s, t1);
        lemma_health_parts(p, s, t2);
        lemma_environment_ready(p);
        let sv = s.health_spec();
        let env = environment_checks(p);
        let pre = env + sv.diagnostics;
        let h1 = voice_health_spec(p, sv, t1.health_spec());
        let e1 = seq![sv, t1.health_spec()];
        let e2 = seq![sv, t2.health_spec()];
        assert(required_in(e1, LifecycleState::Failed) == required_in(e2, LifecycleState::Failed));
        assert(required_in(e1, LifecycleState::Initializing) == required_in(
            e2,
            LifecycleState::Initializing,
        ));
        if h1.reason is Some {
            if !all_ready(env) {
                let k = choose|k: int| 0 <= k < env.len() && !(#[trigger] env[k]).ready;
                assert(pre[k] == env[k]);
            } else {
                assert(!sv.ready);
                if !sv.diagnostics[0].ready {
                    assert(pre[env.len() as int] == sv.diagnostics[0]);
                } else {
                    assert(pre[env.len() + 1 as int] == sv.diagnostics[1]);
                }
            }
            assert(all_checks(p, sv, t1.health_spec()) =~= pre + t1.health_spec().diagnostics);
            assert(all_checks(p, sv, t2.health_spec()) =~= pre + t2.health_spec().diagnostics);
            lemma_unready_reason_prefix(pre, t1.health_spec().diagnostics);
            lemma_unready_reason_prefix(pre, t2.health_spec().diagnostics);
        }
    }
}

/// Synthesis touches the TTS engine alone. Starting a synthesis with a model
/// (which `TtsEngineState::prepare_worker` does, taking no STT state) leaves
/// the STT engine as it was, and the voice plugin's lifecycle, its not-ready
/// reason, and so whether any transcription goes ahead, are the same before
/// and after.
pub proof fn law_synthesis_leaves_stt_alone<W>(
    p: EnvironmentProbe,
    s: SttEngineState<W>,
    t: TtsEngineState<W>,
    model: Seq<char>,
    request: TranscribeRequest,
    audio_is_file: bool,
)
    ensures
        ({
            let before = voice_health_spec(p, s.health_spec(), t.health_spec());
            let after = voice_health_spec(
                p,
                s.health_spec(),
                start_synthesis(t, model).health_spec(),
            );
            &&& after.lifecycle_state == before.lifecycle_state
            &&& after.reason == before.reason
            &&& transcription_refusal(after, request, audio_is_file) == transcription_refusal(
                before,
                request,
                audio_is_file,
            )
        }),
{
    law_tts_never_decides_readiness(p, s, t, start_synthesis(t, model));
}

/// Readiness of the voice plugin (the health it reports from a probe of the
/// environment and its two engines' states) is exactly this: the app data
/// directory resolves, the `uv` sidecar, the virtual environment and its
/// Python binary are there, the STT startup preload has succeeded and an STT
/// worker is loaded. The TTS engine, which is optional, has no say.
pub proof fn law_ready_exactly_when_stt_loaded<W>(
    p: EnvironmentProbe,
    s: SttEngineState<W>,
    t: TtsEngineState<W>,
)
    ensures
        (voice_health_spec(p, s.health_spec(), t.health_spec()).reason is None) <==> {
            &&& p.app_data_dir_error is None
            &&& p.sidecar_available && p.venv_exists && p.python_bin_exists
            &&& s.startup_preload_status == StartupPreloadStatus::Ready
            &&& s.worker is Some
        },
{
    if p.app_data_dir_error is None {
        lemma_health_parts(p, s, t);
        lemma_environment_ready(p);
    }
}

/// Without an explicit download in flight, the plugin's lifecycle is
/// `ready` exactly when its health is ready; so a caller that waits for the
/// `ready` lifecycle is never refused a transcription for want of readiness.
pub proof fn law_ready_lifecycle_matches_status<W>(
    p: EnvironmentProbe,
    s: SttEngineState<W>,
    t: TtsEngineState<W>,
)
    requires
        !s.download_in_progress,
    ensures
        ({
            let h = voice_health_spec(p, s.health_spec(), t.health_spec());
            (h.lifecycle_state == LifecycleState::Ready) <==> (h.reason is None)
        }),
{
    law_ready_exactly_when_stt_loaded(p, s, t);
    if p.app_data_dir_error is None {
        lemma_health_parts(p, s, t);
    }
}

/// How the plugin's lifecycle follows the STT startup preload, once the app
/// data directory resolves and no explicit download is in flight: while
/// preload runs it is initializing, after a failed preload it is failed,
/// before preload starts it is uninitialized, and in none of these is it
/// ready. (An app data directory that cannot be resolved makes it failed.)
pub proof fn law_lifecycle_follows_preload<W>(
    p: EnvironmentProbe,
    s: SttEngineState<W>,
    t: TtsEngineState<W>,
)
    ensures
        ({
            let h = voice_health_spec(p, s.health_spec(), t.health_spec());
            &&& p.app_data_dir_error is Some ==> h.lifecycle_state == LifecycleState::Failed
                && h.reason is Some
            &&& p.app_data_dir_error is None && s.startup_preload_status
                == StartupPreloadStatus::Running ==> h.lifecycle_state
                == LifecycleState::Initializing && h.reason is Some
            &&& p.app_data_dir_error is None && !s.download_in_progress
                && s.startup_preload_status == StartupPreloadStatus::Failed ==> h.lifecycle_state
                == LifecycleState::Failed && h.reason is Some
            &&& p.app_data_dir_error is None && !s.download_in_progress
                && s.startup_preload_status == StartupPreloadStatus::Idle ==> h.lifecycle_state
                == LifecycleState::Uninitialized && h.reason is Some
        }),
{
    law_ready_exactly_when_stt_loaded(p, s, t);
    if p.app_data_dir_error is None {
        lemma_health_parts(p, s, t);
    }
}

} // verus!
