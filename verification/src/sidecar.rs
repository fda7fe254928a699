//! Running the `uv` sidecar: the arguments of its two jobs, and how the
//! events it reports decide the job's outcome.

use vstd::prelude::*;

use crate::error::{fails_with, opt_view, Error, ErrorKind};
use crate::text::{concat_str, push_char, signed_decimal, signed_decimal_string};

verus! {

/// Runs `uv` jobs through the bundled sidecar.
pub struct UvSidecarRunner;

/// The two jobs given to `uv`.
#[derive(Clone, Copy, Debug, PartialEq, Eq, Structural)]
pub enum SidecarJob {
    /// `uv venv`: create the virtual environment.
    CreateVenv,
    /// `uv pip install`: install a lock file's packages.
    PipInstall,
}

/// What the sidecar reports while it runs. Output lines arrive decoded as UTF-8.
#[derive(Clone, Debug)]
pub enum SidecarEvent {
    Stdout(String),
    Stderr(String),
    /// The sidecar could not be run, with the error's text.
    Error(String),
    /// The sidecar exited, with its exit code if it had one.
    Terminated(Option<i32>),
    /// Any other report.
    Other,
}

/// The error kind of a job's failures.
pub open spec fn job_error_kind(job: SidecarJob) -> ErrorKind {
    match job {
        SidecarJob::CreateVenv => ErrorKind::BootstrapFailed,
        SidecarJob::PipInstall => ErrorKind::DependencyInstallFailed,
    }
}

/// The lines joined with newlines.
pub open spec fn joined(lines: Seq<Seq<char>>) -> Seq<char>
    decreases lines.len(),
{
    if lines.len() == 0 {
        Seq::empty()
    } else if lines.len() == 1 {
        lines[0]
    } else {
        joined(lines.drop_last()) + seq!['\n'] + lines.last()
    }
}

/// `{:?}` of an optional exit code: "Some(<code>)" or "None".
pub open spec fn code_debug(code: Option<i32>) -> Seq<char> {
    match code {
        Some(c) => "Some("@ + signed_decimal(c as int) + ")"@,
        None => "None"@,
    }
}

/// The message when the sidecar reports an error.
pub open spec fn error_message(job: SidecarJob, err: Seq<char>, stderr: Seq<char>) -> Seq<char> {
    match job {
        SidecarJob::CreateVenv => "uv venv error: "@ + err + "\nStderr: "@ + stderr,
        SidecarJob::PipInstall => "uv pip install error: "@ + err + "\nStderr: "@ + stderr,
    }
}

/// The message when the sidecar exits with a code other than zero.
pub open spec fn exit_message(job: SidecarJob, code: Option<i32>, stderr: Seq<char>) -> Seq<char> {
    match job {
        SidecarJob::CreateVenv => "uv venv exited with code: "@ + code_debug(code) + "\nStderr: "@
            + stderr,
        SidecarJob::PipInstall => "uv pip install exited with code: "@ + code_debug(code)
            + "\nStderr: "@ + stderr,
    }
}

/// The message when the events end without a successful exit.
pub open spec fn incomplete_message(job: SidecarJob, stderr: Seq<char>) -> Seq<char> {
    match job {
        SidecarJob::CreateVenv => "uv venv did not complete successfully. Stderr: "@ + stderr,
        SidecarJob::PipInstall => "uv pip install did not complete successfully\nStderr: "@
            + stderr,
    }
}

/// An event that ends the job with a failure: a reported error, or an exit
/// with a code other than zero (or with none).
pub open spec fn event_fails(e: SidecarEvent) -> bool {
    match e {
        SidecarEvent::Error(_) => true,
        SidecarEvent::Terminated(code) => code != Some(0i32),
        _ => false,
    }
}

/// An exit with code zero.
pub open spec fn event_exits_cleanly(e: SidecarEvent) -> bool {
    e matches SidecarEvent::Terminated(code) && code == Some(0i32)
}

/// Whether a job that has (or has not yet) seen a clean exit ends in success
/// when it is handed `events` in order, each to `on_event`, stopping at the
/// first that ends it, and then, if none did, to `finish`.
pub open spec fn run_succeeds(succeeded: bool, events: Seq<SidecarEvent>) -> bool
    decreases events.len(),
{
    if events.len() == 0 {
        succeeded
    } else if event_fails(events[0]) {
        false
    } else {
        run_succeeds(succeeded || event_exits_cleanly(events[0]), events.drop_first())
    }
}

/// A `uv` job succeeds exactly when the sidecar reports a clean exit and
/// neither an error nor any other exit: for the events a fresh
/// [`SidecarRun`] is handed (see [`run_succeeds`], which follows
/// `on_event` and `finish`), success holds exactly when some event is an
/// exit with code zero and none is an error or an exit with another code.
pub proof fn law_sidecar_succeeds_on_clean_exit_only(events: Seq<SidecarEvent>)
    ensures
        run_succeeds(false, events) <==> ((exists|i: int|
            0 <= i < events.len() && event_exits_cleanly(#[trigger] events[i])) && (forall|i: int|
            0 <= i < events.len() ==> !event_fails(#[trigger] events[i]))),
{
    lemma_run_succeeds(false, events);
}

proof fn lemma_run_succeeds(succeeded: bool, events: Seq<SidecarEvent>)
    ensures
        run_succeeds(succeeded, events) <==> ((succeeded || exists|i: int|
            0 <= i < events.len() && event_exits_cleanly(#[trigger] events[i])) && (forall|i: int|
            0 <= i < events.len() ==> !event_fails(#[trigger] events[i]))),
    decreases events.len(),
{
    if events.len() > 0 {
        let rest = events.drop_first();
        lemma_run_succeeds(succeeded || event_exits_cleanly(events[0]), rest);
        assert forall|i: int| 0 <= i < rest.len() implies #[trigger] rest[i] == events[i + 1] by {}
        if exists|i: int| 0 <= i < events.len() && event_exits_cleanly(#[trigger] events[i]) {
            let i = choose|i: int| 0 <= i < events.len() && event_exits_cleanly(#[trigger] events[i]);
            if i > 0 {
                assert(event_exits_cleanly(rest[i - 1]));
            }
        }
        if exists|i: int| 0 <= i < rest.len() && event_exits_cleanly(#[trigger] rest[i]) {
            let i = choose|i: int| 0 <= i < rest.len() && event_exits_cleanly(#[trigger] rest[i]);
            assert(event_exits_cleanly(events[i + 1]));
        }
        if forall|i: int| 0 <= i < rest.len() ==> !event_fails(#[trigger] rest[i]) {
            if !event_fails(events[0]) {
                assert forall|i: int| 0 <= i < events.len() implies !event_fails(
                    #[trigger] events[i],
                ) by {
                    if i > 0 {
                        assert(events[i] == rest[i - 1]);
                    }
                }
            }
        }
        if forall|i: int| 0 <= i < events.len() ==> !event_fails(#[trigger] events[i]) {
            assert forall|i: int| 0 <= i < rest.len() implies !event_fails(#[trigger] rest[i]) by {
                assert(rest[i] == events[i + 1]);
            }
        }
    }
}

/// The standard-error lines collected so far, and whether the sidecar has
/// exited with code zero.
pub struct SidecarRun {
    pub job: SidecarJob,
    pub stderr_lines: Vec<String>,
    pub succeeded: bool,
}

/// The text of a list of strings, in order.
pub open spec fn lines_view(lines: Seq<String>) -> Seq<Seq<char>> {
    lines.map_values(|s: String| s@)
}

proof fn lemma_lines_push(v: Seq<String>, s: String)
    ensures
        lines_view(v.push(s)) == lines_view(v).push(s@),
{
    let a = lines_view(v.push(s));
    let b = lines_view(v).push(s@);
    assert(a.len() == b.len());
    assert forall|i: int| 0 <= i < a.len() implies a[i] == b[i] by {
        if i < v.len() {
            assert(v.push(s)[i] == v[i]);
        } else {
            assert(v.push(s)[i] == s);
        }
    }
    assert(a =~= b);
}

fn job_error(job: SidecarJob, message: &str) -> (e: Error)
    ensures
        e.is(job_error_kind(job), message@),
{
    match job {
        SidecarJob::CreateVenv => Error::bootstrap_failed(message),
        SidecarJob::PipInstall => Error::dependency_install_failed(message),
    }
}

impl SidecarRun {
    /// A job that has reported nothing yet.
    pub fn new(job: SidecarJob) -> (r: Self)
        ensures
            r.job == job,
            r.stderr_lines@.len() == 0,
            !r.succeeded,
    {
        SidecarRun { job, stderr_lines: Vec::new(), succeeded: false }
    }

    /// The collected standard error, one line per line.
    pub fn stderr_text(&self) -> (r: String)
        ensures
            r@ == joined(lines_view(self.stderr_lines@)),
    {
        let mut r = String::new();
        let mut i: usize = 0;
        let ghost lines = lines_view(self.stderr_lines@);
        while i < self.stderr_lines.len()
            invariant
                0 <= i <= self.stderr_lines@.len(),
                lines == lines_view(self.stderr_lines@),
                r@ == joined(lines.subrange(0, i as int)),
            decreases self.stderr_lines@.len() - i,
        {
            let ghost before = r@;
            if i > 0 {
                push_char(&mut r, '\n');
            }
            r.append(self.stderr_lines[i].as_str());
            proof {
                let sub = lines.subrange(0, i + 1);
                assert(sub.drop_last() =~= lines.subrange(0, i as int));
                assert(sub.last() == self.stderr_lines@[i as int]@);
                if i == 0 {
                    assert(r@ =~= joined(sub));
                } else {
                    assert(r@ =~= joined(sub));
                }
            }
            i = i + 1;
        }
        assert(lines.subrange(0, self.stderr_lines@.len() as int) =~= lines);
        r
    }

    /// Takes one event. A standard-error line is kept; an exit with code zero
    /// marks the job successful. A reported error, or an exit with another
    /// code (or none), ends the job with a failure naming it and the
    /// standard error so far (`Some(Err(..))`). Otherwise the job goes on (`None`).
    pub fn on_event(&mut self, event: SidecarEvent) -> (r: Option<Result<(), Error>>)
        ensures
            final(self).job == old(self).job,
            r is Some <==> event_fails(event),
            r matches Some(out) ==> out is Err,
            r is None ==> final(self).succeeded == (old(self).succeeded || event_exits_cleanly(
                event,
            )),
            match event {
                SidecarEvent::Stderr(line) => {
                    &&& r is None
                    &&& lines_view(final(self).stderr_lines@) == lines_view(
                        old(self).stderr_lines@,
                    ).push(line@)
                    &&& final(self).succeeded == old(self).succeeded
                },
                SidecarEvent::Error(err) => {
                    &&& r matches Some(out) && fails_with(
                        out,
                        job_error_kind(old(self).job),
                        error_message(
                            old(self).job,
                            err@,
                            joined(lines_view(old(self).stderr_lines@)),
                        ),
                    )
                    &&& final(self).stderr_lines@ == old(self).stderr_lines@
                    &&& final(self).succeeded == old(self).succeeded
                },
                SidecarEvent::Terminated(code) => {
                    &&& final(self).stderr_lines@ == old(self).stderr_lines@
                    &&& if code == Some(0i32) {
                        r is None && final(self).succeeded
                    } else {
                        &&& r matches Some(out) && fails_with(
                            out,
                            job_error_kind(old(self).job),
                            exit_message(
                                old(self).job,
                                code,
                                joined(lines_view(old(self).stderr_lines@)),
                            ),
                        )
                        &&& final(self).succeeded == old(self).succeeded
                    }
                },
                _ => {
                    &&& r is None
                    &&& final(self).stderr_lines@ == old(self).stderr_lines@
                    &&& final(self).succeeded == old(self).succeeded
                },
            },
    {
        match event {
            SidecarEvent::Stderr(line) => {
                let ghost before = self.stderr_lines@;
                proof {
                    lemma_lines_push(before, line);
                }
                self.stderr_lines.push(line);
                None
            },
            SidecarEvent::Error(err) => {
                let stderr = self.stderr_text();
                let mut message = match self.job {
                    SidecarJob::CreateVenv => concat_str("uv venv error: ", err.as_str()),
                    SidecarJob::PipInstall => concat_str("uv pip install error: ", err.as_str()),
                };
                message.append("\nStderr: ");
                message.append(stderr.as_str());
                Some(Err(job_error(self.job, message.as_str())))
            },
            SidecarEvent::Terminated(code) => {
                let exit_code = match code {
                    Some(c) => c,
                    None => -1,
                };
                if exit_code == 0 {
                    self.succeeded = true;
                    None
                } else {
                    let stderr = self.stderr_text();
                    let mut message = match self.job {
                        SidecarJob::CreateVenv => String::from_str("uv venv exited with code: "),
                        SidecarJob::PipInstall => String::from_str(
                            "uv pip install exited with code: ",
                        ),
                    };
                    match code {
                        Some(c) => {
                            message.append("Some(");
                            let digits = signed_decimal_string(c as i64);
                            message.append(digits.as_str());
                            message.append(")");
                        },
                        None => {
                            message.append("None");
                        },
                    }
                    message.append("\nStderr: ");
                    message.append(stderr.as_str());
                    assert(message@ =~= exit_message(
                        self.job,
                        code,
                        joined(lines_view(self.stderr_lines@)),
                    ));
                    Some(Err(job_error(self.job, message.as_str())))
                }
            },
            _ => None,
        }
    }

    /// The events are over: the job succeeded if the sidecar exited with code
    /// zero, and failed otherwise, naming the standard error.
    pub fn finish(&self) -> (r: Result<(), Error>)
        ensures
            self.succeeded ==> r is Ok,
            !self.succeeded ==> fails_with(
                r,
                job_error_kind(self.job),
                incomplete_message(self.job, joined(lines_view(self.stderr_lines@))),
            ),
    {
        if self.succeeded {
            return Ok(());
        }
        let stderr = self.stderr_text();
        let message = match self.job {
            SidecarJob::CreateVenv => concat_str(
                "uv venv did not complete successfully. Stderr: ",
                stderr.as_str(),
            ),
            SidecarJob::PipInstall => concat_str(
                "uv pip install did not complete successfully\nStderr: ",
                stderr.as_str(),
            ),
        };
        Err(job_error(self.job, message.as_str()))
    }
}

/// The name of a job's command in messages.
pub open spec fn job_command(job: SidecarJob) -> Seq<char> {
    match job {
        SidecarJob::CreateVenv => "uv venv"@,
        SidecarJob::PipInstall => "uv pip install"@,
    }
}

impl UvSidecarRunner {
    /// The error when the `uv` sidecar cannot be resolved for `job`, with the
    /// resolver's error text.
    pub fn sidecar_unavailable(job: SidecarJob, e: &str) -> (r: Error)
        ensures
            r.is(job_error_kind(job), "Failed to spawn uv sidecar: "@ + e@),
    {
        let message = concat_str("Failed to spawn uv sidecar: ", e);
        job_error(job, message.as_str())
    }

    /// The error when the sidecar cannot be started for `job`, with the
    /// spawn error's text.
    pub fn launch_failed(job: SidecarJob, e: &str) -> (r: Error)
        ensures
            r.is(job_error_kind(job), "Failed to execute "@ + job_command(job) + ": "@ + e@),
    {
        let mut message = String::from_str("Failed to execute ");
        match job {
            SidecarJob::CreateVenv => message.append("uv venv"),
            SidecarJob::PipInstall => message.append("uv pip install"),
        }
        message.append(": ");
        message.append(e);
        job_error(job, message.as_str())
    }

    /// `uv venv <venv_path> --python <python_version> --clear`.
    pub fn create_venv_args(venv_path: &str, python_version: &str) -> (r: Vec<String>)
        ensures
            r@.map_values(|s: String| s@) == seq![
                "venv"@,
                venv_path@,
                "--python"@,
                python_version@,
                "--clear"@,
            ],
    {
        let mut r: Vec<String> = Vec::new();
        r.push(String::from_str("venv"));
        r.push(String::from_str(venv_path));
        r.push(String::from_str("--python"));
        r.push(String::from_str(python_version));
        r.push(String::from_str("--clear"));
        assert(r@.map_values(|s: String| s@) =~= seq![
            "venv"@,
            venv_path@,
            "--python"@,
            python_version@,
            "--clear"@,
        ]);
        r
    }

    /// `uv pip install --python <python_path> -r <lock_file>`.
    pub fn pip_install_args(python_path: &str, lock_file: &str) -> (r: Vec<String>)
        ensures
            r@.map_values(|s: String| s@) == seq![
                "pip"@,
                "install"@,
                "--python"@,
                python_path@,
                "-r"@,
                lock_file@,
            ],
    {
        let mut r: Vec<String> = Vec::new();
        r.push(String::from_str("pip"));
        r.push(String::from_str("install"));
        r.push(String::from_str("--python"));
        r.push(String::from_str(python_path));
        r.push(String::from_str("-r"));
        r.push(String::from_str(lock_file));
        assert(r@.map_values(|s: String| s@) =~= seq![
            "pip"@,
            "install"@,
            "--python"@,
            python_path@,
            "-r"@,
            lock_file@,
        ]);
        r
    }
}

} // verus!
