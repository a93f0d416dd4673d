use vstd::prelude::*;

verus! {

/// Which of the filesystem entries that a launch needs.
#[derive(Clone, Copy, Debug, PartialEq, Eq, Structural)]
pub enum PathKind {
    BackendDirectory,
    ConfigFile,
    DataDirectory,
}

/// Why a start did not lead to a managed child process.
#[derive(Debug)]
pub enum BackendError {
    /// The host could not resolve its own application-data directory.
    DirectoryResolution { reason: String },
    /// A required filesystem entry is absent; nothing was spawned.
    PathNotFound { kind: PathKind, path: String },
    /// The operating system did not create the child process.
    Spawn { reason: String },
}

/// A `BackendError` with its texts as sequences of characters.
pub enum BackendErrorView {
    DirectoryResolution { reason: Seq<char> },
    PathNotFound { kind: PathKind, path: Seq<char> },
    Spawn { reason: Seq<char> },
}

/// The text that `{:?}` formatting gives for a string: the string's
/// characters escaped where std escapes them, between double quotes.
pub uninterp spec fn spec_debug_text(text: Seq<char>) -> Seq<char>;

/// Formats `text` with std's `Debug` for `str` (`format!("{:?}", ..)`).
/// Nothing is proved of it: the contract only names what std returns, which
/// depends on the characters of `text` alone.
#[verifier::external_body]
fn debug_text(text: &str) -> (quoted: String)
    ensures
        quoted@ == spec_debug_text(text@),
{
    format!("{:?}", text)
}

impl PathKind {
    /// What the entry is called in messages.
    pub open spec fn spec_description(self) -> Seq<char> {
        match self {
            PathKind::BackendDirectory => "Backend directory"@,
            PathKind::ConfigFile => "Config file"@,
            PathKind::DataDirectory => "Data directory"@,
        }
    }

    /// What the entry is called in messages.
    pub fn description(&self) -> (text: &'static str)
        ensures
            text@ == self.spec_description(),
    {
        match self {
            PathKind::BackendDirectory => "Backend directory",
            PathKind::ConfigFile => "Config file",
            PathKind::DataDirectory => "Data directory",
        }
    }
}

impl BackendErrorView {
    /// The text shown to a caller of a failed start.
    pub open spec fn message(self) -> Seq<char> {
        match self {
            BackendErrorView::DirectoryResolution { reason } => {
                "Failed to get app data directory: "@ + reason
            },
            BackendErrorView::PathNotFound { kind, path } => {
                kind.spec_description() + " not found: "@ + spec_debug_text(path)
            },
            BackendErrorView::Spawn { reason } => reason,
        }
    }

    /// The text shown to a caller of a failed restart.
    pub open spec fn restart_message(self) -> Seq<char> {
        "Failed to restart backend: "@ + self.message()
    }
}

impl View for BackendError {
    type V = BackendErrorView;

    open spec fn view(&self) -> BackendErrorView {
        match *self {
            BackendError::DirectoryResolution { reason } => {
                BackendErrorView::DirectoryResolution { reason: reason@ }
            },
            BackendError::PathNotFound { kind, path } => {
                BackendErrorView::PathNotFound { kind, path: path@ }
            },
            BackendError::Spawn { reason } => BackendErrorView::Spawn { reason: reason@ },
        }
    }
}

impl BackendError {
    /// The text shown to a caller of a failed start: for a missing path the
    /// entry's description and the path as `{:?}` prints it, for a failed
    /// spawn the operating system's reason as it stands.
    pub fn message(&self) -> (text: String)
        ensures
            text@ == self@.message(),
    {
        match self {
            BackendError::DirectoryResolution { reason } => {
                String::from_str("Failed to get app data directory: ").concat(reason.as_str())
            },
            BackendError::PathNotFound { kind, path } => {
                let quoted = debug_text(path.as_str());
                String::from_str(kind.description()).concat(" not found: ").concat(
                    quoted.as_str(),
                )
            },
            BackendError::Spawn { reason } => reason.clone(),
        }
    }

    /// The text shown to a caller of a failed restart.
    pub fn restart_message(&self) -> (text: String)
        ensures
            text@ == self@.restart_message(),
    {
        let inner = self.message();
        String::from_str("Failed to restart backend: ").concat(inner.as_str())
    }
}

} // verus!
