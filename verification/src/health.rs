//! Readiness checks of the shared Python runtime environment, and how a list
//! of checks is summed up.

use vstd::prelude::*;

use crate::error::opt_view;
use crate::models::{diagnostics_view, DiagnosticEntry, DiagnosticView};
use crate::text::concat_str;

verus! {

/// What the host observed of the runtime environment: whether the app data
/// directory could be resolved (and if not, the resolver's error text),
/// whether the `uv` sidecar can be spawned, and whether the app-local
/// virtual environment and its Python binary exist.
#[derive(Clone, Debug)]
pub struct EnvironmentProbe {
    pub app_data_dir_error: Option<String>,
    pub sidecar_available: bool,
    pub venv_exists: bool,
    pub python_bin_exists: bool,
}

/// The reason given for a list of checks that is not all ready: the reason
/// of the first failing check, or "Unknown readiness failure" when that
/// check has none (or when no check fails).
pub open spec fn unready_reason(ds: Seq<DiagnosticView>) -> Seq<char>
    decreases ds.len(),
{
    if ds.len() == 0 {
        "Unknown readiness failure"@
    } else if !ds[0].ready {
        match ds[0].reason {
            Some(r) => r,
            None => "Unknown readiness failure"@,
        }
    } else {
        unready_reason(ds.drop_first())
    }
}

/// Every check passes.
pub open spec fn all_ready(ds: Seq<DiagnosticView>) -> bool {
    forall|i: int| 0 <= i < ds.len() ==> #[trigger] ds[i].ready
}

/// The view of a check called `name` that passes or fails, with `failure` as
/// its reason when it fails.
pub open spec fn check_view(name: Seq<char>, ready: bool, failure: Seq<char>) -> DiagnosticView {
    DiagnosticView { name, ready, reason: if ready { None } else { Some(failure) } }
}

/// The reason reported when the app data directory cannot be resolved.
pub open spec fn app_dir_failure(e: Seq<char>) -> Seq<char> {
    "Cannot resolve app data dir: "@ + e
}

/// The environment checks, in order, for a probe whose app data directory resolved.
pub open spec fn environment_checks(p: EnvironmentProbe) -> Seq<DiagnosticView> {
    seq![
        check_view("app_data_dir"@, true, Seq::empty()),
        check_view("uv_sidecar"@, p.sidecar_available, "uv sidecar not available"@),
        check_view("python_venv"@, p.venv_exists, "Virtual environment not found"@),
        check_view("python_binary"@, p.python_bin_exists, "Python binary not found"@),
    ]
}

/// The environment checks all pass exactly when the sidecar, the virtual
/// environment and its Python binary are all there.
pub proof fn lemma_environment_ready(p: EnvironmentProbe)
    ensures
        all_ready(environment_checks(p)) <==> (p.sidecar_available && p.venv_exists
            && p.python_bin_exists),
{
    let cs = environment_checks(p);
    assert(cs[0].ready);
    assert(cs[1].ready == p.sidecar_available);
    assert(cs[2].ready == p.venv_exists);
    assert(cs[3].ready == p.python_bin_exists);
    if p.sidecar_available && p.venv_exists && p.python_bin_exists {
        assert forall|i: int| 0 <= i < cs.len() implies #[trigger] cs[i].ready by {
            if i == 0 {
            } else if i == 1 {
            } else if i == 2 {
            } else {
            }
        }
    }
}

/// The single failing check reported when the app data directory cannot be resolved.
pub open spec fn app_dir_checks(e: Seq<char>) -> Seq<DiagnosticView> {
    seq![
        DiagnosticView {
            name: "app_data_dir"@,
            ready: false,
            reason: Some(app_dir_failure(e)),
        },
    ]
}

/// A check called `name`, with reason `failure` when it does not pass.
pub fn check(name: &str, ready: bool, failure: &str) -> (d: DiagnosticEntry)
    ensures
        d@ == check_view(name@, ready, failure@),
{
    DiagnosticEntry {
        name: String::from_str(name),
        ready,
        reason: if ready {
            None
        } else {
            Some(String::from_str(failure))
        },
    }
}

/// The reason reported when the app data directory cannot be resolved.
pub fn app_dir_failure_reason(e: &str) -> (r: String)
    ensures
        r@ == app_dir_failure(e@),
{
    concat_str("Cannot resolve app data dir: ", e)
}

/// The environment checks of a probe whose app data directory resolved.
pub fn environment_diagnostics(p: &EnvironmentProbe) -> (r: Vec<DiagnosticEntry>)
    ensures
        diagnostics_view(r@) == environment_checks(*p),
{
    let mut r: Vec<DiagnosticEntry> = Vec::new();
    r.push(check("app_data_dir", true, ""));
    r.push(check("uv_sidecar", p.sidecar_available, "uv sidecar not available"));
    r.push(check("python_venv", p.venv_exists, "Virtual environment not found"));
    r.push(check("python_binary", p.python_bin_exists, "Python binary not found"));
    assert(diagnostics_view(r@) =~= environment_checks(*p));
    r
}

/// The single failing check reported when the app data directory cannot be resolved.
pub fn app_dir_diagnostics(reason: &str) -> (r: Vec<DiagnosticEntry>)
    ensures
        diagnostics_view(r@) == seq![
            DiagnosticView { name: "app_data_dir"@, ready: false, reason: Some(reason@) },
        ],
{
    let mut r: Vec<DiagnosticEntry> = Vec::new();
    r.push(DiagnosticEntry {
        name: String::from_str("app_data_dir"),
        ready: false,
        reason: Some(String::from_str(reason)),
    });
    assert(diagnostics_view(r@) =~= seq![
        DiagnosticView { name: "app_data_dir"@, ready: false, reason: Some(reason@) },
    ]);
    r
}

/// Whether every check passes.
pub fn every_ready(ds: &Vec<DiagnosticEntry>) -> (r: bool)
    ensures
        r == all_ready(diagnostics_view(ds@)),
{
    let mut i: usize = 0;
    while i < ds.len()
        invariant
            0 <= i <= ds@.len(),
            forall|k: int| 0 <= k < i ==> #[trigger] ds@[k].ready,
        decreases ds@.len() - i,
    {
        if !ds[i].ready {
            assert(!diagnostics_view(ds@)[i as int].ready);
            return false;
        }
        i = i + 1;
    }
    true
}

/// The reason reported for the checks: that of the first failing one.
pub fn first_unready_reason(ds: &Vec<DiagnosticEntry>) -> (r: String)
    ensures
        r@ == unready_reason(diagnostics_view(ds@)),
{
    let ghost whole = diagnostics_view(ds@);
    assert(whole.subrange(0, whole.len() as int) =~= whole);
    let mut i: usize = 0;
    while i < ds.len()
        invariant
            0 <= i <= ds@.len(),
            whole == diagnostics_view(ds@),
            unready_reason(whole.subrange(i as int, whole.len() as int)) == unready_reason(whole),
        decreases ds@.len() - i,
    {
        let ghost rest = whole.subrange(i as int, whole.len() as int);
        assert(rest[0] == whole[i as int]);
        if !ds[i].ready {
            return match &ds[i].reason {
                Some(r) => r.clone(),
                None => String::from_str("Unknown readiness failure"),
            };
        }
        assert(rest.drop_first() =~= whole.subrange(i + 1, whole.len() as int));
        i = i + 1;
    }
    assert(whole.subrange(i as int, whole.len() as int) =~= Seq::<DiagnosticView>::empty());
    String::from_str("Unknown readiness failure")
}

/// A copy of a check.
pub fn copy_diagnostic(d: &DiagnosticEntry) -> (r: DiagnosticEntry)
    ensures
        r@ == d@,
{
    DiagnosticEntry {
        name: d.name.clone(),
        ready: d.ready,
        reason: match &d.reason {
            Some(s) => Some(s.clone()),
            None => None,
        },
    }
}

/// Appends copies of the checks in `src` to `dst`.
pub fn append_diagnostics(dst: &mut Vec<DiagnosticEntry>, src: &Vec<DiagnosticEntry>)
    ensures
        diagnostics_view(final(dst)@) == diagnostics_view(old(dst)@) + diagnostics_view(src@),
{
    let ghost start = diagnostics_view(dst@);
    let mut i: usize = 0;
    while i < src.len()
        invariant
            0 <= i <= src@.len(),
            diagnostics_view(dst@) == start + diagnostics_view(src@).subrange(0, i as int),
        decreases src@.len() - i,
    {
        let d = copy_diagnostic(&src[i]);
        let ghost prev = dst@;
        dst.push(d);
        proof {
            let nv = diagnostics_view(dst@);
            let target = start + diagnostics_view(src@).subrange(0, i + 1);
            assert(dst@ == prev.push(d));
            assert(diagnostics_view(prev).len() == prev.len());
            assert(diagnostics_view(src@).subrange(0, i as int).len() == i);
            assert(diagnostics_view(src@).subrange(0, i + 1).len() == i + 1);
            assert(nv.len() == dst@.len());
            assert(nv.len() == target.len());
            assert forall|k: int| 0 <= k < nv.len() implies nv[k] == target[k] by {
                if k < nv.len() - 1 {
                    assert(dst@[k] == prev[k]);
                    assert(diagnostics_view(prev)[k] == nv[k]);
                } else {
                    assert(dst@[k] == d);
                }
            }
            assert(nv =~= target);
        }
        i = i + 1;
    }
    assert(diagnostics_view(src@).subrange(0, src@.len() as int) =~= diagnostics_view(src@));
}

} // verus!
