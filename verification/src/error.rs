//! Failure kinds, the error value every operation reports, and the exit
//! status a command-line caller derives from it.
use vstd::prelude::*;

verus! {

/// What went wrong, in the terms a caller can act on.
#[derive(Clone, Copy, Debug, PartialEq, Eq, Structural)]
pub enum ErrorKind {
    InvalidSource,
    InvalidDestination,
    DestinationExists,
    /// The destination would lie inside the source.
    Nested,
    PermissionDenied,
    /// Source and destination are on different filesystems and `Fallback::Fail`.
    CrossFilesystem,
    /// A file could not be cloned on this filesystem and `Fallback::Fail`.
    NotClonable,
    /// A mount point inside the source.
    MountPointInside,
    /// A FIFO, socket or device inside the source.
    SpecialFile,
    InsufficientSpace,
    /// The source changed while it was being copied; the copy was discarded.
    SourceChanged,
    Interrupted,
    Io,
}

/// The classes of operating-system failure the decisions distinguish.
#[derive(Clone, Copy, Debug, PartialEq, Eq, Structural)]
pub enum IoErrorKind {
    NotFound,
    PermissionDenied,
    AlreadyExists,
    Other,
}

/// An operating-system failure, as plain values: its class, its `errno`
/// where there is one, and its message.
#[derive(Clone, Debug)]
pub struct IoFailure {
    pub kind: IoErrorKind,
    pub raw_os_error: Option<i32>,
    pub message: String,
}

/// A failed operation.
#[derive(Clone, Debug)]
pub struct Error {
    pub kind: ErrorKind,
    pub path: Option<String>,
    pub detail: String,
    pub io: Option<IoFailure>,
    /// A failed stage kept because `keep_failed_stage` was set, or because it
    /// could not be removed.
    pub kept_stage: Option<String>,
}

/// The plain-value model of an [`IoFailure`].
pub struct IoFailureModel {
    pub kind: IoErrorKind,
    pub raw_os_error: Option<i32>,
    pub message: Seq<char>,
}

/// The plain-value model of an [`Error`].
pub struct ErrorModel {
    pub kind: ErrorKind,
    pub path: Option<Seq<char>>,
    pub detail: Seq<char>,
    pub io: Option<IoFailureModel>,
    pub kept_stage: Option<Seq<char>>,
}

/// The characters of an optional string.
pub open spec fn opt_view(o: Option<String>) -> Option<Seq<char>> {
    match o {
        Some(s) => Some(s@),
        None => None,
    }
}

/// The characters of an optional string slice.
pub open spec fn opt_str_view(o: Option<&str>) -> Option<Seq<char>> {
    match o {
        Some(s) => Some(s@),
        None => None,
    }
}

impl View for IoFailure {
    type V = IoFailureModel;

    open spec fn view(&self) -> IoFailureModel {
        IoFailureModel { kind: self.kind, raw_os_error: self.raw_os_error, message: self.message@ }
    }
}

impl View for Error {
    type V = ErrorModel;

    open spec fn view(&self) -> ErrorModel {
        ErrorModel {
            kind: self.kind,
            path: opt_view(self.path),
            detail: self.detail@,
            io: match self.io {
                Some(f) => Some(f@),
                None => None,
            },
            kept_stage: opt_view(self.kept_stage),
        }
    }
}

/// The exit status for each kind: distinct where a caller can act on it.
pub open spec fn exit_status(kind: ErrorKind) -> i32 {
    match kind {
        ErrorKind::SourceChanged => 3,
        ErrorKind::CrossFilesystem | ErrorKind::NotClonable => 4,
        ErrorKind::InsufficientSpace => 5,
        ErrorKind::DestinationExists => 6,
        ErrorKind::Interrupted => 130,
        _ => 1,
    }
}

/// The name of a kind as `{:?}` prints it.
pub open spec fn kind_name(kind: ErrorKind) -> Seq<char> {
    match kind {
        ErrorKind::InvalidSource => "InvalidSource"@,
        ErrorKind::InvalidDestination => "InvalidDestination"@,
        ErrorKind::DestinationExists => "DestinationExists"@,
        ErrorKind::Nested => "Nested"@,
        ErrorKind::PermissionDenied => "PermissionDenied"@,
        ErrorKind::CrossFilesystem => "CrossFilesystem"@,
        ErrorKind::NotClonable => "NotClonable"@,
        ErrorKind::MountPointInside => "MountPointInside"@,
        ErrorKind::SpecialFile => "SpecialFile"@,
        ErrorKind::InsufficientSpace => "InsufficientSpace"@,
        ErrorKind::SourceChanged => "SourceChanged"@,
        ErrorKind::Interrupted => "Interrupted"@,
        ErrorKind::Io => "Io"@,
    }
}

/// The message of an error as it is displayed: the detail, then `: ` and the
/// path where there is one.
pub open spec fn error_message(e: ErrorModel) -> Seq<char> {
    match e.path {
        Some(p) => e.detail + ": "@ + p,
        None => e.detail,
    }
}

/// The kind an operating-system failure is reported as.
pub open spec fn io_kind(f: IoFailureModel) -> ErrorKind {
    if f.kind == IoErrorKind::PermissionDenied {
        ErrorKind::PermissionDenied
    } else {
        ErrorKind::Io
    }
}

/// Copies an optional string slice into an owned one.
pub fn owned_path(path: Option<&str>) -> (r: Option<String>)
    ensures
        opt_view(r) == opt_str_view(path),
{
    match path {
        Some(p) => Some(p.to_owned()),
        None => None,
    }
}

impl ErrorKind {
    /// The name of the kind, as `{:?}` prints it.
    pub fn name(&self) -> (r: &'static str)
        ensures
            r@ == kind_name(*self),
    {
        match self {
            ErrorKind::InvalidSource => "InvalidSource",
            ErrorKind::InvalidDestination => "InvalidDestination",
            ErrorKind::DestinationExists => "DestinationExists",
            ErrorKind::Nested => "Nested",
            ErrorKind::PermissionDenied => "PermissionDenied",
            ErrorKind::CrossFilesystem => "CrossFilesystem",
            ErrorKind::NotClonable => "NotClonable",
            ErrorKind::MountPointInside => "MountPointInside",
            ErrorKind::SpecialFile => "SpecialFile",
            ErrorKind::InsufficientSpace => "InsufficientSpace",
            ErrorKind::SourceChanged => "SourceChanged",
            ErrorKind::Interrupted => "Interrupted",
            ErrorKind::Io => "Io",
        }
    }
}

impl Error {
    /// An error of `kind` about `path`, explained by `detail`.
    pub fn new(kind: ErrorKind, path: Option<&str>, detail: String) -> (r: Error)
        ensures
            r@ == (ErrorModel {
                kind,
                path: opt_str_view(path),
                detail: detail@,
                io: None,
                kept_stage: None,
            }),
    {
        Error { kind, path: owned_path(path), detail, io: None, kept_stage: None }
    }

    /// An operating-system failure at `path`: permission problems are
    /// reported as such, everything else as `Io`; the detail is the
    /// failure's own message.
    pub fn io(path: &str, failure: IoFailure) -> (r: Error)
        ensures
            r@ == (ErrorModel {
                kind: io_kind(failure@),
                path: Some(path@),
                detail: failure@.message,
                io: Some(failure@),
                kept_stage: None,
            }),
    {
        let kind = match failure.kind {
            IoErrorKind::PermissionDenied => ErrorKind::PermissionDenied,
            _ => ErrorKind::Io,
        };
        let detail = failure.message.clone();
        Error { kind, path: Some(path.to_owned()), detail, io: Some(failure), kept_stage: None }
    }

    /// Process exit status for this failure; distinct where a caller can act on it.
    pub fn exit_code(&self) -> (r: i32)
        ensures
            r == exit_status(self.kind),
    {
        match self.kind {
            ErrorKind::SourceChanged => 3,
            ErrorKind::CrossFilesystem | ErrorKind::NotClonable => 4,
            ErrorKind::InsufficientSpace => 5,
            ErrorKind::DestinationExists => 6,
            ErrorKind::Interrupted => 130,
            _ => 1,
        }
    }

    /// The message of this error as it is displayed.
    pub fn message(&self) -> (r: String)
        ensures
            r@ == error_message(self@),
    {
        let mut text = self.detail.clone();
        match &self.path {
            Some(p) => {
                text.append(": ");
                text.append(p.as_str());
            },
            None => {},
        }
        text
    }
}

/// Exit statuses: every failure exits with one of 1, 3, 4, 5, 6 or 130, and
/// the kinds a caller can act on each have their own.
pub proof fn lemma_exit_statuses(kind: ErrorKind)
    ensures
        exit_status(kind) == 1 || exit_status(kind) == 3 || exit_status(kind) == 4
            || exit_status(kind) == 5 || exit_status(kind) == 6 || exit_status(kind) == 130,
        exit_status(kind) == 3 <==> kind == ErrorKind::SourceChanged,
        exit_status(kind) == 4 <==> (kind == ErrorKind::CrossFilesystem || kind
            == ErrorKind::NotClonable),
        exit_status(kind) == 5 <==> kind == ErrorKind::InsufficientSpace,
        exit_status(kind) == 6 <==> kind == ErrorKind::DestinationExists,
        exit_status(kind) == 130 <==> kind == ErrorKind::Interrupted,
{
}

} // verus!
