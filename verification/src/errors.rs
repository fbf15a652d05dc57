//! The errors that the parts of the notifier hand up.

use vstd::prelude::*;

verus! {

/// A message that stands on its own as an error.
#[derive(Debug)]
pub struct ErrorString(pub String);

impl ErrorString {
    /// The message, as it is shown.
    pub fn to_string(&self) -> (text: String)
        ensures
            text@ == self.0@,
    {
        self.0.clone()
    }
}

/// Why the operating system refused to read or write.
#[derive(Debug, Clone, Copy, PartialEq, Eq, Structural)]
pub enum IoErrorKind {
    NotFound,
    PermissionDenied,
    ConnectionRefused,
    ConnectionReset,
    ConnectionAborted,
    NotConnected,
    AddrInUse,
    AddrNotAvailable,
    BrokenPipe,
    AlreadyExists,
    WouldBlock,
    InvalidInput,
    InvalidData,
    TimedOut,
    WriteZero,
    Interrupted,
    Unsupported,
    UnexpectedEof,
    OutOfMemory,
    /// Any other reason.
    Other,
}

/// An error of reading or writing.
#[derive(Debug)]
pub struct IoError {
    pub kind: IoErrorKind,
    pub message: String,
}

/// Why JSON could not be read or written.
#[derive(Debug, Clone, Copy, PartialEq, Eq, Structural)]
pub enum JsonErrorKind {
    /// The text could not be read from where it stands, or written there.
    Io(IoErrorKind),
    /// The text is no JSON.
    Syntax,
    /// The text is JSON, but not of the value that was looked for.
    Data,
    /// The text ends too early.
    Eof,
}

/// An error of reading or writing JSON.
#[derive(Debug)]
pub struct JsonError {
    pub kind: JsonErrorKind,
    pub message: String,
}

/// The kind under which an error of reading or writing JSON counts as one of reading or writing.
pub open spec fn io_kind(kind: JsonErrorKind) -> IoErrorKind {
    match kind {
        JsonErrorKind::Io(kind) => kind,
        JsonErrorKind::Syntax | JsonErrorKind::Data => IoErrorKind::InvalidData,
        JsonErrorKind::Eof => IoErrorKind::UnexpectedEof,
    }
}

impl JsonError {
    /// The error as one of reading or writing, for those who know no other.
    pub fn into_io_error(self) -> (error: IoError)
        ensures
            error == (IoError { kind: io_kind(self.kind), message: self.message }),
    {
        let kind = match self.kind {
            JsonErrorKind::Io(kind) => kind,
            JsonErrorKind::Syntax | JsonErrorKind::Data => IoErrorKind::InvalidData,
            JsonErrorKind::Eof => IoErrorKind::UnexpectedEof,
        };
        IoError { kind, message: self.message }
    }
}

/// Why the configuration could not be loaded.
#[derive(Debug)]
pub enum ConfigLoadError {
    /// The file could not be read.
    Io(IoError),
    /// The file is no configuration.
    Toml(String),
}

/// Why the sites could not be loaded or saved.
#[derive(Debug)]
pub enum SitesIoError {
    /// The file could not be read or created.
    TokioIo(IoError),
    /// The sites could not be read out of the file, or written into it.
    Serde(JsonError),
}

/// An error of loading or saving the sites, as one of reading or writing.
pub open spec fn sites_io_error(error: SitesIoError) -> IoError {
    match error {
        SitesIoError::TokioIo(error) => error,
        SitesIoError::Serde(error) => IoError {
            kind: io_kind(error.kind),
            message: error.message,
        },
    }
}

impl SitesIoError {
    /// The error as one of reading or writing, for those who know no other.
    pub fn into_io_error(self) -> (error: IoError)
        ensures
            error == sites_io_error(self),
    {
        match self {
            SitesIoError::TokioIo(error) => error,
            SitesIoError::Serde(error) => error.into_io_error(),
        }
    }
}

/// Why the web server did not start.
#[derive(Debug)]
pub enum WebserverError {
    Config(ConfigLoadError),
    Io(IoError),
}

/// Why the notifier did not start.
#[derive(Debug)]
pub enum RunError {
    Io(IoError),
    Webserver(WebserverError),
}

/// Why a site that was asked for was not added.
#[derive(Debug)]
pub enum AddSiteError {
    Io(IoError),
    RssSitesDb(SitesIoError),
}

impl From<IoError> for ConfigLoadError {
    fn from(error: IoError) -> (wrapped: ConfigLoadError) {
        ConfigLoadError::Io(error)
    }
}

impl vstd::std_specs::convert::FromSpecImpl<IoError> for ConfigLoadError {
    open spec fn obeys_from_spec() -> bool {
        true
    }

    open spec fn from_spec(error: IoError) -> ConfigLoadError {
        ConfigLoadError::Io(error)
    }
}

impl From<IoError> for SitesIoError {
    fn from(error: IoError) -> (wrapped: SitesIoError) {
        SitesIoError::TokioIo(error)
    }
}

impl vstd::std_specs::convert::FromSpecImpl<IoError> for SitesIoError {
    open spec fn obeys_from_spec() -> bool {
        true
    }

    open spec fn from_spec(error: IoError) -> SitesIoError {
        SitesIoError::TokioIo(error)
    }
}

impl From<JsonError> for SitesIoError {
    fn from(error: JsonError) -> (wrapped: SitesIoError) {
        SitesIoError::Serde(error)
    }
}

impl vstd::std_specs::convert::FromSpecImpl<JsonError> for SitesIoError {
    open spec fn obeys_from_spec() -> bool {
        true
    }

    open spec fn from_spec(error: JsonError) -> SitesIoError {
        SitesIoError::Serde(error)
    }
}

impl From<ConfigLoadError> for WebserverError {
    fn from(error: ConfigLoadError) -> (wrapped: WebserverError) {
        WebserverError::Config(error)
    }
}

impl vstd::std_specs::convert::FromSpecImpl<ConfigLoadError> for WebserverError {
    open spec fn obeys_from_spec() -> bool {
        true
    }

    open spec fn from_spec(error: ConfigLoadError) -> WebserverError {
        WebserverError::Config(error)
    }
}

impl From<IoError> for WebserverError {
    fn from(error: IoError) -> (wrapped: WebserverError) {
        WebserverError::Io(error)
    }
}

impl vstd::std_specs::convert::FromSpecImpl<IoError> for WebserverError {
    open spec fn obeys_from_spec() -> bool {
        true
    }

    open spec fn from_spec(error: IoError) -> WebserverError {
        WebserverError::Io(error)
    }
}

impl From<IoError> for RunError {
    fn from(error: IoError) -> (wrapped: RunError) {
        RunError::Io(error)
    }
}

impl vstd::std_specs::convert::FromSpecImpl<IoError> for RunError {
    open spec fn obeys_from_spec() -> bool {
        true
    }

    open spec fn from_spec(error: IoError) -> RunError {
        RunError::Io(error)
    }
}

impl From<WebserverError> for RunError {
    fn from(error: WebserverError) -> (wrapped: RunError) {
        RunError::Webserver(error)
    }
}

impl vstd::std_specs::convert::FromSpecImpl<WebserverError> for RunError {
    open spec fn obeys_from_spec() -> bool {
        true
    }

    open spec fn from_spec(error: WebserverError) -> RunError {
        RunError::Webserver(error)
    }
}

impl From<IoError> for AddSiteError {
    fn from(error: IoError) -> (wrapped: AddSiteError) {
        AddSiteError::Io(error)
    }
}

impl vstd::std_specs::convert::FromSpecImpl<IoError> for AddSiteError {
    open spec fn obeys_from_spec() -> bool {
        true
    }

    open spec fn from_spec(error: IoError) -> AddSiteError {
        AddSiteError::Io(error)
    }
}

impl From<SitesIoError> for AddSiteError {
    fn from(error: SitesIoError) -> (wrapped: AddSiteError) {
        AddSiteError::RssSitesDb(error)
    }
}

impl vstd::std_specs::convert::FromSpecImpl<SitesIoError> for AddSiteError {
    open spec fn obeys_from_spec() -> bool {
        true
    }

    open spec fn from_spec(error: SitesIoError) -> AddSiteError {
        AddSiteError::RssSitesDb(error)
    }
}

} // verus!
