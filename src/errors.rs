use vstd::prelude::*;
use crate::text::joined;

verus! {

/// Every way an operation of this library can fail.
#[derive(Debug, Clone, PartialEq, Eq)]
pub enum DomainError {
    NetworkError(String),
    ExtensionNotFound(String),
    InvalidExtensionFormat(String),
    InstallationFailed(String),
    DirectoryNotFound(String),
    /// A filesystem or process failure, with the host's description of it.
    IoError(String),
    ParseError(String),
    Unknown(String),
}

/// Which kind of failure an error is, without its text.
#[derive(Debug, Clone, Copy, PartialEq, Eq, Structural)]
pub enum ErrorKind {
    Network,
    NotFound,
    InvalidFormat,
    Installation,
    Directory,
    Io,
    Parse,
    Unknown,
}

/// An error as a value of the model: its kind and its detail text.
pub struct ErrorView {
    pub kind: ErrorKind,
    pub detail: Seq<char>,
}

impl View for DomainError {
    type V = ErrorView;

    open spec fn view(&self) -> ErrorView {
        ErrorView { kind: error_kind(*self), detail: error_detail(*self) }
    }
}

/// The kind of an error.
pub open spec fn error_kind(e: DomainError) -> ErrorKind {
    match e {
        DomainError::NetworkError(_) => ErrorKind::Network,
        DomainError::ExtensionNotFound(_) => ErrorKind::NotFound,
        DomainError::InvalidExtensionFormat(_) => ErrorKind::InvalidFormat,
        DomainError::InstallationFailed(_) => ErrorKind::Installation,
        DomainError::DirectoryNotFound(_) => ErrorKind::Directory,
        DomainError::IoError(_) => ErrorKind::Io,
        DomainError::ParseError(_) => ErrorKind::Parse,
        DomainError::Unknown(_) => ErrorKind::Unknown,
    }
}

/// The heading that a message for each kind of error starts with.
pub open spec fn error_heading(e: DomainError) -> Seq<char> {
    match e {
        DomainError::NetworkError(_) => "Network error: "@,
        DomainError::ExtensionNotFound(_) => "Extension not found: "@,
        DomainError::InvalidExtensionFormat(_) => "Invalid extension format: "@,
        DomainError::InstallationFailed(_) => "Installation failed: "@,
        DomainError::DirectoryNotFound(_) => "Directory not found: "@,
        DomainError::IoError(_) => "IO error: "@,
        DomainError::ParseError(_) => "Parse error: "@,
        DomainError::Unknown(_) => "Unknown error: "@,
    }
}

/// The detail text that an error carries.
pub open spec fn error_detail(e: DomainError) -> Seq<char> {
    match e {
        DomainError::NetworkError(s) => s@,
        DomainError::ExtensionNotFound(s) => s@,
        DomainError::InvalidExtensionFormat(s) => s@,
        DomainError::InstallationFailed(s) => s@,
        DomainError::DirectoryNotFound(s) => s@,
        DomainError::IoError(s) => s@,
        DomainError::ParseError(s) => s@,
        DomainError::Unknown(s) => s@,
    }
}

impl DomainError {
    /// The text shown to a user for this error: its heading, then its detail.
    pub fn message(&self) -> (r: String)
        ensures
            r@ == error_heading(*self) + error_detail(*self),
    {
        let (heading, detail) = match self {
            DomainError::NetworkError(s) => ("Network error: ", s),
            DomainError::ExtensionNotFound(s) => ("Extension not found: ", s),
            DomainError::InvalidExtensionFormat(s) => ("Invalid extension format: ", s),
            DomainError::InstallationFailed(s) => ("Installation failed: ", s),
            DomainError::DirectoryNotFound(s) => ("Directory not found: ", s),
            DomainError::IoError(s) => ("IO error: ", s),
            DomainError::ParseError(s) => ("Parse error: ", s),
            DomainError::Unknown(s) => ("Unknown error: ", s),
        };
        joined(heading, detail.as_str())
    }
}

} // verus!
