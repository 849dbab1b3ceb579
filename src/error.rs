//! Error types of the protocol layer and of the deployment tool.
use vstd::prelude::*;

verus! {

/// Failure of an exchange on the control or data channel.
#[derive(Debug, Clone, PartialEq, Eq)]
pub enum FtpError {
    /// The underlying stream failed; the text describes the failure.
    Io(String),
    /// A reply or a passive-mode address could not be parsed.
    ParseFail,
    /// A command was answered with a status outside the accepted range.
    UnexpectedStatus(usize),
    /// A command argument holds a line break and would corrupt the command stream.
    InvalidArgument,
    /// An exchange was handed an event that does not answer its last action.
    OutOfSequence,
}

/// Failure of a tool invocation, by the party responsible.
#[derive(Debug, Clone, PartialEq, Eq)]
pub enum Error {
    NoIpFound,
    BadIpAddr,
    NoHomeDir,
    CreateSwitchDirDenied,
    WriteIpDenied,
    NoTitleId,
    /// A title identifier is not a hexadecimal number of at most 64 bits.
    BadTitleId,
    FailWriteNro,
    DownloadError,
    ZipError,
    NoNpdmFileFound,
    IoError(String),
    FtpError(FtpError),
    CargoError(String),
    AbsSwitchPath,
    BadSdPath,
}

} // verus!
