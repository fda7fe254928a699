//! Preparing the app-local Python environment: which directories to create,
//! whether to reuse, replace or create the virtual environment, which lock
//! files to install, and how a failure of each step is reported.

use vstd::prelude::*;

use crate::error::{fails_with, Error, ErrorKind};
use crate::models::BootstrapResponse;
use crate::text::concat_str;

verus! {

/// Prepares the app-local Python environment.
pub struct BootstrapManager;

/// A directory of the runtime layout under the app data directory.
#[derive(Clone, Copy, Debug, PartialEq, Eq, Structural)]
pub enum RuntimeDir {
    /// `python`
    Python,
    /// `python/cache`
    Cache,
    /// `python/tools`
    Tools,
}

/// One step of a bootstrap, run in order by the host.
#[derive(Clone, Copy, Debug, PartialEq, Eq, Structural)]
pub enum BootstrapStep {
    /// Create the directory (and its parents).
    CreateDir(RuntimeDir),
    /// Remove a virtual environment directory that has no Python binary.
    RemoveStaleVenv,
    /// Create the virtual environment with `uv venv`.
    CreateVenv,
    /// Install the lock file with this index with `uv pip install`.
    InstallLockFile(usize),
}

/// A lock file of pinned packages, as the host found it.
#[derive(Clone, Debug)]
pub struct LockFile {
    /// The path, as displayed in messages.
    pub path: String,
    pub exists: bool,
}

/// What the host found before bootstrapping.
#[derive(Clone, Debug)]
pub struct BootstrapProbe {
    pub python_dir_exists: bool,
    pub lock_files: Vec<LockFile>,
    pub cache_dir_exists: bool,
    pub tool_dir_exists: bool,
    pub venv_dir_exists: bool,
    pub python_bin_exists: bool,
}

/// The steps of a bootstrap and how it ends once they all succeed.
pub struct BootstrapPlan {
    pub steps: Vec<BootstrapStep>,
    pub outcome: Result<BootstrapResponse, Error>,
}

/// The index of the first missing lock file at or after `i` (the number of
/// lock files when none is missing).
pub open spec fn first_missing_lock(locks: Seq<LockFile>, i: int) -> int
    decreases locks.len() - i,
{
    if i < 0 || i >= locks.len() {
        locks.len() as int
    } else if !locks[i].exists {
        i
    } else {
        first_missing_lock(locks, i + 1)
    }
}

/// The installation of every lock file, in order.
pub open spec fn install_steps(n: nat) -> Seq<BootstrapStep> {
    Seq::new(n, |i: int| BootstrapStep::InstallLockFile(i as usize))
}

/// The steps creating `python` when it is missing.
pub open spec fn python_dir_step(p: BootstrapProbe) -> Seq<BootstrapStep> {
    if p.python_dir_exists {
        seq![]
    } else {
        seq![BootstrapStep::CreateDir(RuntimeDir::Python)]
    }
}

/// The voice plugin's bootstrap, when every lock file is there: create the
/// missing runtime directories, reuse the virtual environment when its
/// Python binary exists (else remove a stale one and create it), then install
/// every lock file.
pub open spec fn voice_steps(p: BootstrapProbe) -> Seq<BootstrapStep> {
    python_dir_step(p) + (if p.cache_dir_exists {
        seq![]
    } else {
        seq![BootstrapStep::CreateDir(RuntimeDir::Cache)]
    }) + (if p.tool_dir_exists {
        seq![]
    } else {
        seq![BootstrapStep::CreateDir(RuntimeDir::Tools)]
    }) + (if p.python_bin_exists {
        seq![]
    } else if p.venv_dir_exists {
        seq![BootstrapStep::RemoveStaleVenv, BootstrapStep::CreateVenv]
    } else {
        seq![BootstrapStep::CreateVenv]
    }) + install_steps(p.lock_files@.len())
}

/// The STT plugin's bootstrap, when its lock file is there: create `python`
/// when missing, (re)create the virtual environment, install the lock files.
pub open spec fn stt_steps(p: BootstrapProbe) -> Seq<BootstrapStep> {
    python_dir_step(p) + seq![BootstrapStep::CreateVenv] + install_steps(p.lock_files@.len())
}

/// The step is the installation of a lock file.
pub open spec fn is_install(s: BootstrapStep) -> bool {
    s matches BootstrapStep::InstallLockFile(_)
}

/// `steps` holds `s`.
pub open spec fn has_step(steps: Seq<BootstrapStep>, s: BootstrapStep) -> bool {
    exists|k: int| 0 <= k < steps.len() && steps[k] == s
}

/// The voice plugin's bootstrap (when every lock file is there, the steps
/// `plan_voice` returns) creates the virtual environment exactly when its
/// Python binary is missing, before any lock file is installed; it removes a
/// stale environment exactly when the binary is missing but the environment
/// directory is there, and then before creating the new one; and it
/// installs every lock file.
pub proof fn law_voice_plan_creates_the_venv_before_installing(p: BootstrapProbe)
    ensures
        ({
            let steps = voice_steps(p);
            &&& has_step(steps, BootstrapStep::CreateVenv) <==> !p.python_bin_exists
            &&& has_step(steps, BootstrapStep::RemoveStaleVenv) <==> (!p.python_bin_exists
                && p.venv_dir_exists)
            &&& forall|k: int, j: int|
                #![trigger steps[k], steps[j]]
                0 <= k < steps.len() && 0 <= j < steps.len() && steps[k]
                    == BootstrapStep::CreateVenv && is_install(steps[j]) ==> k < j
            &&& forall|k: int, j: int|
                #![trigger steps[k], steps[j]]
                0 <= k < steps.len() && 0 <= j < steps.len() && steps[k]
                    == BootstrapStep::RemoveStaleVenv && steps[j] == BootstrapStep::CreateVenv
                    ==> k < j
            &&& forall|i: usize|
                i < p.lock_files@.len() ==> #[trigger] has_step(
                    steps,
                    BootstrapStep::InstallLockFile(i),
                )
        }),
{
    let a = python_dir_step(p) + (if p.cache_dir_exists {
        seq![]
    } else {
        seq![BootstrapStep::CreateDir(RuntimeDir::Cache)]
    }) + (if p.tool_dir_exists {
        seq![]
    } else {
        seq![BootstrapStep::CreateDir(RuntimeDir::Tools)]
    });
    let d: Seq<BootstrapStep> = if p.python_bin_exists {
        seq![]
    } else if p.venv_dir_exists {
        seq![BootstrapStep::RemoveStaleVenv, BootstrapStep::CreateVenv]
    } else {
        seq![BootstrapStep::CreateVenv]
    };
    let n = p.lock_files@.len();
    let e = install_steps(n);
    let steps = voice_steps(p);
    assert(steps =~= a + d + e);
    assert forall|k: int| 0 <= k < a.len() implies (#[trigger] a[k]) is CreateDir by {}
    assert forall|k: int| 0 <= k < steps.len() && k < a.len() implies (#[trigger] steps[k])
        is CreateDir by {
        assert(steps[k] == a[k]);
    }
    assert forall|k: int| 0 <= k < steps.len() && a.len() + d.len() <= k implies is_install(
        #[trigger] steps[k],
    ) by {
        assert(steps[k] == e[k - a.len() - d.len()]);
    }
    assert forall|k: int|
        0 <= k < steps.len() && a.len() <= k < a.len() + d.len() implies #[trigger] steps[k]
        == d[k - a.len()] by {}
    if !p.python_bin_exists {
        assert(steps[a.len() + d.len() - 1] == BootstrapStep::CreateVenv);
    }
    if !p.python_bin_exists && p.venv_dir_exists {
        assert(steps[a.len() as int] == BootstrapStep::RemoveStaleVenv);
    }
    assert forall|i: usize| i < n implies #[trigger] has_step(
        steps,
        BootstrapStep::InstallLockFile(i),
    ) by {
        assert(steps[a.len() + d.len() + i] == e[i as int]);
    }
}

/// The STT plugin's bootstrap (when its lock files are there, the steps
/// `plan_stt` returns) always creates the virtual environment, never removes
/// one first, creates it before any lock file is installed, and installs
/// every lock file.
pub proof fn law_stt_plan_creates_the_venv_before_installing(p: BootstrapProbe)
    ensures
        ({
            let steps = stt_steps(p);
            &&& has_step(steps, BootstrapStep::CreateVenv)
            &&& !has_step(steps, BootstrapStep::RemoveStaleVenv)
            &&& forall|k: int, j: int|
                #![trigger steps[k], steps[j]]
                0 <= k < steps.len() && 0 <= j < steps.len() && steps[k]
                    == BootstrapStep::CreateVenv && is_install(steps[j]) ==> k < j
            &&& forall|i: usize|
                i < p.lock_files@.len() ==> #[trigger] has_step(
                    steps,
                    BootstrapStep::InstallLockFile(i),
                )
        }),
{
    let a = python_dir_step(p);
    let n = p.lock_files@.len();
    let e = install_steps(n);
    let steps = stt_steps(p);
    assert forall|k: int| 0 <= k < a.len() implies (#[trigger] a[k]) is CreateDir by {}
    assert(steps[a.len() as int] == BootstrapStep::CreateVenv);
    assert forall|k: int| 0 <= k < steps.len() && a.len() < k implies is_install(
        #[trigger] steps[k],
    ) by {
        assert(steps[k] == e[k - a.len() - 1]);
    }
    assert forall|k: int| 0 <= k < steps.len() && k < a.len() implies (#[trigger] steps[k])
        is CreateDir by {
        assert(steps[k] == a[k]);
    }
    assert forall|i: usize| i < n implies #[trigger] has_step(
        steps,
        BootstrapStep::InstallLockFile(i),
    ) by {
        assert(steps[a.len() + 1 + i] == e[i as int]);
    }
}

/// The successful answer of a bootstrap.
pub open spec fn completed(r: Result<BootstrapResponse, Error>) -> bool {
    r matches Ok(BootstrapResponse::Ready { details }) && details@ == "Bootstrap complete"@
}

fn push_install_steps(steps: &mut Vec<BootstrapStep>, n: usize)
    ensures
        final(steps)@ == old(steps)@ + install_steps(n as nat),
{
    let ghost start = steps@;
    let mut i: usize = 0;
    while i < n
        invariant
            0 <= i <= n,
            steps@ == start + install_steps(i as nat),
        decreases n - i,
    {
        steps.push(BootstrapStep::InstallLockFile(i));
        assert(steps@ =~= start + install_steps((i + 1) as nat));
        i = i + 1;
    }
}

fn first_missing(locks: &Vec<LockFile>) -> (r: usize)
    ensures
        r as int == first_missing_lock(locks@, 0),
{
    let mut i: usize = 0;
    while i < locks.len() && locks[i].exists
        invariant
            0 <= i <= locks@.len(),
            first_missing_lock(locks@, i as int) == first_missing_lock(locks@, 0),
        decreases locks@.len() - i,
    {
        i = i + 1;
    }
    i
}

/// The answer of a bootstrap whose lock file at index `i` is missing.
fn missing_lock_error(locks: &Vec<LockFile>, i: usize) -> (e: Error)
    requires
        i < locks@.len(),
    ensures
        e.is(ErrorKind::NotReady, "Lock file missing at: "@ + locks@[i as int].path@),
{
    let message = concat_str("Lock file missing at: ", locks[i].path.as_str());
    Error::not_ready(message.as_str())
}

impl BootstrapManager {
    /// The pinned Python version of the voice plugin.
    pub fn voice_python_version() -> (r: &'static str)
        ensures
            r@ == "3.12"@,
    {
        "3.12"
    }

    /// The pinned Python version of the STT plugin.
    pub fn stt_python_version() -> (r: &'static str)
        ensures
            r@ == "3.12"@,
    {
        "3.12"
    }

    /// The voice plugin's lock files, relative to the plugin's sources: STT's, then TTS's.
    pub fn voice_lock_files() -> (r: Vec<&'static str>)
        ensures
            r@.len() == 2,
            r@[0]@ == "requirements/requirements-stt.lock.txt"@,
            r@[1]@ == "requirements/requirements-tts.lock.txt"@,
    {
        let mut r: Vec<&'static str> = Vec::new();
        r.push("requirements/requirements-stt.lock.txt");
        r.push("requirements/requirements-tts.lock.txt");
        r
    }

    /// The STT plugin's lock file, relative to the plugin's sources.
    pub fn stt_lock_file() -> (r: &'static str)
        ensures
            r@ == "requirements/requirements-stt.lock.txt"@,
    {
        "requirements/requirements-stt.lock.txt"
    }

    /// The voice plugin's bootstrap for what the host found. When a lock
    /// file is missing, only the `python` directory is created and the
    /// bootstrap fails with `not_ready` naming the first missing one;
    /// otherwise see [`voice_steps`], after which it is complete.
    pub fn plan_voice(probe: &BootstrapProbe) -> (r: BootstrapPlan)
        ensures
            first_missing_lock(probe.lock_files@, 0) < probe.lock_files@.len() ==> {
                &&& r.steps@ == python_dir_step(*probe)
                &&& fails_with(
                    r.outcome,
                    ErrorKind::NotReady,
                    "Lock file missing at: "@ + probe.lock_files@[first_missing_lock(
                        probe.lock_files@,
                        0,
                    )].path@,
                )
            },
            first_missing_lock(probe.lock_files@, 0) >= probe.lock_files@.len() ==> {
                &&& r.steps@ == voice_steps(*probe)
                &&& completed(r.outcome)
            },
    {
        let mut steps: Vec<BootstrapStep> = Vec::new();
        if !probe.python_dir_exists {
            steps.push(BootstrapStep::CreateDir(RuntimeDir::Python));
        }
        assert(steps@ =~= python_dir_step(*probe));
        let missing = first_missing(&probe.lock_files);
        if missing < probe.lock_files.len() {
            let e = missing_lock_error(&probe.lock_files, missing);
            return BootstrapPlan { steps, outcome: Err(e) };
        }
        let ghost s1 = steps@;
        if !probe.cache_dir_exists {
            steps.push(BootstrapStep::CreateDir(RuntimeDir::Cache));
        }
        let ghost s2 = steps@;
        if !probe.tool_dir_exists {
            steps.push(BootstrapStep::CreateDir(RuntimeDir::Tools));
        }
        let ghost s3 = steps@;
        if !probe.python_bin_exists {
            if probe.venv_dir_exists {
                steps.push(BootstrapStep::RemoveStaleVenv);
            }
            steps.push(BootstrapStep::CreateVenv);
        }
        let ghost s4 = steps@;
        push_install_steps(&mut steps, probe.lock_files.len());
        assert(steps@ =~= voice_steps(*probe));
        BootstrapPlan {
            steps,
            outcome: Ok(BootstrapResponse::Ready { details: String::from_str("Bootstrap complete") }),
        }
    }

    /// The STT plugin's bootstrap for what the host found: like the voice
    /// plugin's when a lock file is missing; otherwise see [`stt_steps`],
    /// after which it is complete.
    pub fn plan_stt(probe: &BootstrapProbe) -> (r: BootstrapPlan)
        ensures
            first_missing_lock(probe.lock_files@, 0) < probe.lock_files@.len() ==> {
                &&& r.steps@ == python_dir_step(*probe)
                &&& fails_with(
                    r.outcome,
                    ErrorKind::NotReady,
                    "Lock file missing at: "@ + probe.lock_files@[first_missing_lock(
                        probe.lock_files@,
                        0,
                    )].path@,
                )
            },
            first_missing_lock(probe.lock_files@, 0) >= probe.lock_files@.len() ==> {
                &&& r.steps@ == stt_steps(*probe)
                &&& completed(r.outcome)
            },
    {
        let mut steps: Vec<BootstrapStep> = Vec::new();
        if !probe.python_dir_exists {
            steps.push(BootstrapStep::CreateDir(RuntimeDir::Python));
        }
        assert(steps@ =~= python_dir_step(*probe));
        let missing = first_missing(&probe.lock_files);
        if missing < probe.lock_files.len() {
            let e = missing_lock_error(&probe.lock_files, missing);
            return BootstrapPlan { steps, outcome: Err(e) };
        }
        steps.push(BootstrapStep::CreateVenv);
        push_install_steps(&mut steps, probe.lock_files.len());
        assert(steps@ =~= stt_steps(*probe));
        BootstrapPlan {
            steps,
            outcome: Ok(BootstrapResponse::Ready { details: String::from_str("Bootstrap complete") }),
        }
    }

    /// The failure of a bootstrap whose app data directory cannot be resolved.
    pub fn app_data_dir_failed(e: &str) -> (r: Error)
        ensures
            r.is(ErrorKind::BootstrapFailed, "Failed to get app data dir: "@ + e@),
    {
        let message = concat_str("Failed to get app data dir: ", e);
        Error::bootstrap_failed(message.as_str())
    }

    /// The failure of a directory step, from the file system's error text:
    /// `bootstrap_failed` "Failed to create <python|cache|tool> dir: <e>" or
    /// "Failed to remove stale venv dir: <e>". `None` for the `uv` steps,
    /// whose own errors are the failure.
    pub fn step_failed(step: BootstrapStep, e: &str) -> (r: Option<Error>)
        ensures
            match step {
                BootstrapStep::CreateDir(RuntimeDir::Python) => r matches Some(x) && x.is(
                    ErrorKind::BootstrapFailed,
                    "Failed to create python dir: "@ + e@,
                ),
                BootstrapStep::CreateDir(RuntimeDir::Cache) => r matches Some(x) && x.is(
                    ErrorKind::BootstrapFailed,
                    "Failed to create cache dir: "@ + e@,
                ),
                BootstrapStep::CreateDir(RuntimeDir::Tools) => r matches Some(x) && x.is(
                    ErrorKind::BootstrapFailed,
                    "Failed to create tool dir: "@ + e@,
                ),
                BootstrapStep::RemoveStaleVenv => r matches Some(x) && x.is(
                    ErrorKind::BootstrapFailed,
                    "Failed to remove stale venv dir: "@ + e@,
                ),
                _ => r is None,
            },
    {
        let prefix = match step {
            BootstrapStep::CreateDir(RuntimeDir::Python) => "Failed to create python dir: ",
            BootstrapStep::CreateDir(RuntimeDir::Cache) => "Failed to create cache dir: ",
            BootstrapStep::CreateDir(RuntimeDir::Tools) => "Failed to create tool dir: ",
            BootstrapStep::RemoveStaleVenv => "Failed to remove stale venv dir: ",
            _ => {
                return None;
            },
        };
        let message = concat_str(prefix, e);
        Some(Error::bootstrap_failed(message.as_str()))
    }

    /// The environment given to `uv`: its cache and tool directories under
    /// the app's `python` directory, and permission to download and install
    /// a Python interpreter.
    pub fn uv_environment(cache_dir: &str, tool_dir: &str) -> (r: Vec<(String, String)>)
        ensures
            r@.len() == 4,
            r@[0].0@ == "UV_CACHE_DIR"@ && r@[0].1@ == cache_dir@,
            r@[1].0@ == "UV_TOOL_DIR"@ && r@[1].1@ == tool_dir@,
            r@[2].0@ == "UV_PYTHON_INSTALL"@ && r@[2].1@ == "1"@,
            r@[3].0@ == "UV_PYTHON_DOWNLOADS"@ && r@[3].1@ == "auto"@,
    {
        let mut r: Vec<(String, String)> = Vec::new();
        r.push((String::from_str("UV_CACHE_DIR"), String::from_str(cache_dir)));
        r.push((String::from_str("UV_TOOL_DIR"), String::from_str(tool_dir)));
        r.push((String::from_str("UV_PYTHON_INSTALL"), String::from_str("1")));
        r.push((String::from_str("UV_PYTHON_DOWNLOADS"), String::from_str("auto")));
        r
    }
}

} // verus!
