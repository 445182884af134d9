use vstd::prelude::*;

verus! {

/// The error kinds that an I/O failure is sorted into.
#[derive(Debug, Clone, Copy, PartialEq, Eq)]
pub enum IoErrorKind {
    NotFound,
    PermissionDenied,
    Other,
}

/// Application error. Each variant has a stable code (see [`AppError::code`])
/// that callers branch on; the message text is for people only.
#[derive(Debug)]
pub enum AppError {
    NotFound(String),
    PermissionDenied(String),
    Io(String),
    Encoding(String),
    InvalidArg(String),
    Conflict(String),
    Cancelled,
    Unsupported(String),
    Internal(String),
}

/// The stable code of each error variant.
pub open spec fn code_of(e: AppError) -> Seq<char> {
    match e {
        AppError::NotFound(_) => "NOT_FOUND"@,
        AppError::PermissionDenied(_) => "PERMISSION_DENIED"@,
        AppError::Io(_) => "IO_ERROR"@,
        AppError::Encoding(_) => "ENCODING_ERROR"@,
        AppError::InvalidArg(_) => "INVALID_ARG"@,
        AppError::Conflict(_) => "CONFLICT"@,
        AppError::Cancelled => "CANCELLED"@,
        AppError::Unsupported(_) => "UNSUPPORTED"@,
        AppError::Internal(_) => "INTERNAL"@,
    }
}

/// The human-readable message of each error variant: a fixed prefix
/// followed by the detail the variant carries.
pub open spec fn message_of(e: AppError) -> Seq<char> {
    match e {
        AppError::NotFound(s) => "path not found: "@ + s@,
        AppError::PermissionDenied(s) => "permission denied: "@ + s@,
        AppError::Io(s) => "io error: "@ + s@,
        AppError::Encoding(s) => "encoding error: "@ + s@,
        AppError::InvalidArg(s) => "invalid argument: "@ + s@,
        AppError::Conflict(s) => "name conflict: "@ + s@,
        AppError::Cancelled => "operation cancelled"@,
        AppError::Unsupported(s) => "unsupported operation: "@ + s@,
        AppError::Internal(s) => "internal error: "@ + s@,
    }
}

/// The variant an I/O failure of the given kind becomes.
pub open spec fn from_io_spec(kind: IoErrorKind, message: String) -> AppError {
    match kind {
        IoErrorKind::NotFound => AppError::NotFound(message),
        IoErrorKind::PermissionDenied => AppError::PermissionDenied(message),
        IoErrorKind::Other => AppError::Io(message),
    }
}

fn prefixed(prefix: &str, detail: &String) -> (r: String)
    ensures
        r@ == prefix@ + detail@,
{
    String::from_str(prefix).concat(detail.as_str())
}

impl AppError {
    /// Stable error code: callers branch on it, never on the message text.
    pub fn code(&self) -> (r: &'static str)
        ensures
            r@ == code_of(*self),
    {
        match self {
            AppError::NotFound(_) => "NOT_FOUND",
            AppError::PermissionDenied(_) => "PERMISSION_DENIED",
            AppError::Io(_) => "IO_ERROR",
            AppError::Encoding(_) => "ENCODING_ERROR",
            AppError::InvalidArg(_) => "INVALID_ARG",
            AppError::Conflict(_) => "CONFLICT",
            AppError::Cancelled => "CANCELLED",
            AppError::Unsupported(_) => "UNSUPPORTED",
            AppError::Internal(_) => "INTERNAL",
        }
    }

    /// The message shown to people: a fixed prefix and the detail.
    pub fn message(&self) -> (r: String)
        ensures
            r@ == message_of(*self),
    {
        match self {
            AppError::NotFound(s) => prefixed("path not found: ", s),
            AppError::PermissionDenied(s) => prefixed("permission denied: ", s),
            AppError::Io(s) => prefixed("io error: ", s),
            AppError::Encoding(s) => prefixed("encoding error: ", s),
            AppError::InvalidArg(s) => prefixed("invalid argument: ", s),
            AppError::Conflict(s) => prefixed("name conflict: ", s),
            AppError::Cancelled => String::from_str("operation cancelled"),
            AppError::Unsupported(s) => prefixed("unsupported operation: ", s),
            AppError::Internal(s) => prefixed("internal error: ", s),
        }
    }

    /// Sorts an I/O failure: not-found and permission failures keep their
    /// meaning, every other kind becomes an `Io` error.
    pub fn from_io(kind: IoErrorKind, message: String) -> (r: AppError)
        ensures
            r == from_io_spec(kind, message),
    {
        match kind {
            IoErrorKind::NotFound => AppError::NotFound(message),
            IoErrorKind::PermissionDenied => AppError::PermissionDenied(message),
            IoErrorKind::Other => AppError::Io(message),
        }
    }
}

#[verifier::external_type_specification]
#[verifier::external_body]
pub struct ExIoError(std::io::Error);

/// Sorts `std::io::Error::kind` into the three kinds the application
/// distinguishes. Nothing is stated of the result: the kind lives inside
/// an opaque outside value.
#[verifier::external_body]
fn io_error_kind(e: &std::io::Error) -> (r: IoErrorKind) {
    match e.kind() {
        std::io::ErrorKind::NotFound => IoErrorKind::NotFound,
        std::io::ErrorKind::PermissionDenied => IoErrorKind::PermissionDenied,
        _ => IoErrorKind::Other,
    }
}

/// The `Display` text of a `std::io::Error`. Nothing is stated of it.
#[verifier::external_body]
fn io_error_text(e: &std::io::Error) -> (r: String) {
    format!("{}", e)
}

impl From<std::io::Error> for AppError {
    /// Converts through [`AppError::from_io`] with the error's kind and text.
    fn from(e: std::io::Error) -> (r: AppError) {
        let kind = io_error_kind(&e);
        let text = io_error_text(&e);
        AppError::from_io(kind, text)
    }
}

impl vstd::std_specs::convert::FromSpecImpl<std::io::Error> for AppError {
    open spec fn obeys_from_spec() -> bool {
        false
    }

    open spec fn from_spec(v: std::io::Error) -> AppError {
        vstd::pervasive::arbitrary()
    }
}

} // verus!
