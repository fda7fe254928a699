//! The plugin's typed error and its stable wire form (`code`, `message`, `details`).

use vstd::prelude::*;

use crate::json;
use crate::text::concat_str;

verus! {

#[verifier::external_type_specification]
#[verifier::external_body]
pub struct ExIoError(std::io::Error);

/// `std::io::Error`'s `Display` text (`to_string`). It rests on the operating
/// system's error messages, so nothing is stated of it.
#[verifier::external_body]
pub fn io_error_text(e: &std::io::Error) -> String {
    e.to_string()
}

/// Errors that plugin commands return.
#[derive(Debug)]
pub enum Error {
    Io(std::io::Error),
    BootstrapFailed { message: String, details: Option<String> },
    DependencyInstallFailed { message: String, details: Option<String> },
    ModelDownloadFailed { message: String, details: Option<String> },
    GenerationFailed { message: String, details: Option<String> },
    InvalidInput { message: String, details: Option<String> },
    NotReady { message: String, details: Option<String> },
    FeatureDisabled { message: String, details: Option<String> },
}

/// The category of an [`Error`], one per wire `code`.
#[derive(Clone, Copy, Debug, PartialEq, Eq, Structural)]
pub enum ErrorKind {
    Internal,
    BootstrapFailed,
    DependencyInstallFailed,
    ModelDownloadFailed,
    GenerationFailed,
    InvalidInput,
    NotReady,
    FeatureDisabled,
}

pub type Result<T> = std::result::Result<T, Error>;

/// The text of an optional string, by view.
pub open spec fn opt_view(o: Option<String>) -> Option<Seq<char>> {
    match o {
        Some(s) => Some(s@),
        None => None,
    }
}

/// A copy of an optional string.
pub fn clone_opt(o: &Option<String>) -> (r: Option<String>)
    ensures
        opt_view(r) == opt_view(*o),
{
    match o {
        Some(s) => Some(s.clone()),
        None => None,
    }
}

impl ErrorKind {
    /// The stable wire code of this kind.
    pub open spec fn code_spec(self) -> Seq<char> {
        match self {
            ErrorKind::Internal => "internal_error"@,
            ErrorKind::BootstrapFailed => "bootstrap_failed"@,
            ErrorKind::DependencyInstallFailed => "dependency_install_failed"@,
            ErrorKind::ModelDownloadFailed => "model_download_failed"@,
            ErrorKind::GenerationFailed => "generation_failed"@,
            ErrorKind::InvalidInput => "invalid_input"@,
            ErrorKind::NotReady => "not_ready"@,
            ErrorKind::FeatureDisabled => "feature_disabled"@,
        }
    }

    /// The words that begin this kind's human-readable message.
    pub open spec fn title_spec(self) -> Seq<char> {
        match self {
            ErrorKind::Internal => ""@,
            ErrorKind::BootstrapFailed => "Bootstrap failed: "@,
            ErrorKind::DependencyInstallFailed => "Dependency install failed: "@,
            ErrorKind::ModelDownloadFailed => "Model download failed: "@,
            ErrorKind::GenerationFailed => "Generation failed: "@,
            ErrorKind::InvalidInput => "Invalid input: "@,
            ErrorKind::NotReady => "Not ready: "@,
            ErrorKind::FeatureDisabled => "Feature disabled: "@,
        }
    }
}

impl Error {
    /// The category of this error.
    pub open spec fn kind(self) -> ErrorKind {
        match self {
            Error::Io(_) => ErrorKind::Internal,
            Error::BootstrapFailed { .. } => ErrorKind::BootstrapFailed,
            Error::DependencyInstallFailed { .. } => ErrorKind::DependencyInstallFailed,
            Error::ModelDownloadFailed { .. } => ErrorKind::ModelDownloadFailed,
            Error::GenerationFailed { .. } => ErrorKind::GenerationFailed,
            Error::InvalidInput { .. } => ErrorKind::InvalidInput,
            Error::NotReady { .. } => ErrorKind::NotReady,
            Error::FeatureDisabled { .. } => ErrorKind::FeatureDisabled,
        }
    }

    /// The message carried by a non-I/O error.
    pub open spec fn message_spec(self) -> Seq<char> {
        match self {
            Error::Io(_) => Seq::empty(),
            Error::BootstrapFailed { message, .. } => message@,
            Error::DependencyInstallFailed { message, .. } => message@,
            Error::ModelDownloadFailed { message, .. } => message@,
            Error::GenerationFailed { message, .. } => message@,
            Error::InvalidInput { message, .. } => message@,
            Error::NotReady { message, .. } => message@,
            Error::FeatureDisabled { message, .. } => message@,
        }
    }

    /// The details carried by the error (never any for an I/O error).
    pub open spec fn details_spec(self) -> Option<Seq<char>> {
        match self {
            Error::Io(_) => None,
            Error::BootstrapFailed { details, .. } => opt_view(details),
            Error::DependencyInstallFailed { details, .. } => opt_view(details),
            Error::ModelDownloadFailed { details, .. } => opt_view(details),
            Error::GenerationFailed { details, .. } => opt_view(details),
            Error::InvalidInput { details, .. } => opt_view(details),
            Error::NotReady { details, .. } => opt_view(details),
            Error::FeatureDisabled { details, .. } => opt_view(details),
        }
    }

    /// The error is of `kind`, carries `msg` and no details.
    pub open spec fn is(self, kind: ErrorKind, msg: Seq<char>) -> bool {
        &&& self.kind() == kind
        &&& kind != ErrorKind::Internal
        &&& self.message_spec() == msg
        &&& self.details_spec() is None
    }

    /// The human-readable text of a non-I/O error: its title, then its message.
    pub open spec fn display_spec(self) -> Seq<char> {
        self.kind().title_spec() + self.message_spec()
    }

    pub fn invalid_input(msg: &str) -> (e: Self)
        ensures
            e.is(ErrorKind::InvalidInput, msg@),
    {
        Error::InvalidInput { message: String::from_str(msg), details: None }
    }

    pub fn not_ready(msg: &str) -> (e: Self)
        ensures
            e.is(ErrorKind::NotReady, msg@),
    {
        Error::NotReady { message: String::from_str(msg), details: None }
    }

    pub fn bootstrap_failed(msg: &str) -> (e: Self)
        ensures
            e.is(ErrorKind::BootstrapFailed, msg@),
    {
        Error::BootstrapFailed { message: String::from_str(msg), details: None }
    }

    pub fn dependency_install_failed(msg: &str) -> (e: Self)
        ensures
            e.is(ErrorKind::DependencyInstallFailed, msg@),
    {
        Error::DependencyInstallFailed { message: String::from_str(msg), details: None }
    }

    pub fn model_download_failed(msg: &str) -> (e: Self)
        ensures
            e.is(ErrorKind::ModelDownloadFailed, msg@),
    {
        Error::ModelDownloadFailed { message: String::from_str(msg), details: None }
    }

    pub fn generation_failed(msg: &str) -> (e: Self)
        ensures
            e.is(ErrorKind::GenerationFailed, msg@),
    {
        Error::GenerationFailed { message: String::from_str(msg), details: None }
    }

    pub fn feature_disabled(msg: &str) -> (e: Self)
        ensures
            e.is(ErrorKind::FeatureDisabled, msg@),
    {
        Error::FeatureDisabled { message: String::from_str(msg), details: None }
    }

    /// The stable wire code: `internal_error` for I/O errors, otherwise the
    /// snake-case name of the variant.
    pub fn code(&self) -> (r: &'static str)
        ensures
            r@ == self.kind().code_spec(),
    {
        match self {
            Error::Io(_) => "internal_error",
            Error::BootstrapFailed { .. } => "bootstrap_failed",
            Error::DependencyInstallFailed { .. } => "dependency_install_failed",
            Error::ModelDownloadFailed { .. } => "model_download_failed",
            Error::GenerationFailed { .. } => "generation_failed",
            Error::InvalidInput { .. } => "invalid_input",
            Error::NotReady { .. } => "not_ready",
            Error::FeatureDisabled { .. } => "feature_disabled",
        }
    }

    /// The wire `message`: the I/O error's text, or the carried message.
    pub fn message(&self) -> (r: String)
        ensures
            !(self is Io) ==> r@ == self.message_spec(),
    {
        match self {
            Error::Io(e) => io_error_text(e),
            Error::BootstrapFailed { message, .. } => message.clone(),
            Error::DependencyInstallFailed { message, .. } => message.clone(),
            Error::ModelDownloadFailed { message, .. } => message.clone(),
            Error::GenerationFailed { message, .. } => message.clone(),
            Error::InvalidInput { message, .. } => message.clone(),
            Error::NotReady { message, .. } => message.clone(),
            Error::FeatureDisabled { message, .. } => message.clone(),
        }
    }

    /// The wire `details`.
    pub fn details(&self) -> (r: Option<String>)
        ensures
            opt_view(r) == self.details_spec(),
    {
        match self {
            Error::Io(_) => None,
            Error::BootstrapFailed { details, .. } => clone_opt(details),
            Error::DependencyInstallFailed { details, .. } => clone_opt(details),
            Error::ModelDownloadFailed { details, .. } => clone_opt(details),
            Error::GenerationFailed { details, .. } => clone_opt(details),
            Error::InvalidInput { details, .. } => clone_opt(details),
            Error::NotReady { details, .. } => clone_opt(details),
            Error::FeatureDisabled { details, .. } => clone_opt(details),
        }
    }

    /// The human-readable text: the I/O error's own text, or
    /// "<Title>: <message>" such as "Not ready: venv missing".
    pub fn to_display_string(&self) -> (r: String)
        ensures
            !(self is Io) ==> r@ == self.display_spec(),
    {
        let title: &str = match self {
            Error::Io(e) => {
                return io_error_text(e);
            },
            Error::BootstrapFailed { .. } => "Bootstrap failed: ",
            Error::DependencyInstallFailed { .. } => "Dependency install failed: ",
            Error::ModelDownloadFailed { .. } => "Model download failed: ",
            Error::GenerationFailed { .. } => "Generation failed: ",
            Error::InvalidInput { .. } => "Invalid input: ",
            Error::NotReady { .. } => "Not ready: ",
            Error::FeatureDisabled { .. } => "Feature disabled: ",
        };
        let message = self.message();
        concat_str(title, message.as_str())
    }

    /// The JSON object that the error serializes to:
    /// `{"code":<code>,"message":<message>,"details":<details or null>}`.
    /// An I/O error has the code `internal_error`, its own text as message
    /// (which rests on the operating system, so it is left open) and no details.
    pub fn to_json(&self) -> (r: String)
        ensures
            !(self is Io) ==> r@ == error_json(
                self.kind().code_spec(),
                self.message_spec(),
                self.details_spec(),
            ),
            self is Io ==> exists|m: Seq<char>| r@ == error_json("internal_error"@, m, None),
    {
        let code = self.code();
        let message = self.message();
        let details = self.details();
        let mut r = String::from_str("{\"code\":");
        let q = json::quote(code);
        r.append(q.as_str());
        r.append(",\"message\":");
        let q = json::quote(message.as_str());
        r.append(q.as_str());
        r.append(",\"details\":");
        match details {
            Some(d) => {
                let q = json::quote(d.as_str());
                r.append(q.as_str());
            },
            None => {
                r.append("null");
            },
        }
        r.append("}");
        assert(self is Io ==> r@ == error_json("internal_error"@, message@, None));
        r
    }
}

/// `r` is an error of `kind` carrying `msg` and no details.
pub open spec fn fails_with<T>(r: std::result::Result<T, Error>, kind: ErrorKind, msg: Seq<char>) -> bool {
    r matches Err(e) && e.is(kind, msg)
}

/// The serialized form of an error with the given code, message and details.
pub open spec fn error_json(code: Seq<char>, message: Seq<char>, details: Option<Seq<char>>) -> Seq<
    char,
> {
    "{\"code\":"@ + json::json_quoted(code) + ",\"message\":"@ + json::json_quoted(message)
        + ",\"details\":"@ + match details {
        Some(d) => json::json_quoted(d),
        None => "null"@,
    } + "}"@
}

} // verus!
