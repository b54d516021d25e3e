//! The ways in which a session can fail.

use crate::process::{Command, CommandView, Output, OutputView};
use crate::text::{decimal, decimal_spec, signed, signed_spec};
use vstd::prelude::*;
use vstd::string::*;

verus! {

/// Why a session ended without its product.
#[derive(Debug, PartialEq, Eq)]
pub enum Error {
    /// The platform knows no cache directory for this user.
    NoCacheDir,
    /// The cache root could not be created.
    CacheRoot { path: String },
    /// The lock file could not be created.
    LockFile { path: String },
    /// The lock was still held elsewhere after `waits` waits of `poll_secs`
    /// seconds each.
    LockTimeout { path: String, waits: u32, poll_secs: u64 },
    /// The command could not be started.
    Launch { command: Command },
    /// The command ran and exited with a non-zero status.
    ExternalCommand { command: Command, output: Output },
    /// The schema file does not exist.
    MissingInput { path: String },
}

/// An [`Error`] as contracts see it.
pub enum ErrorView {
    NoCacheDir,
    CacheRoot { path: Seq<char> },
    LockFile { path: Seq<char> },
    LockTimeout { path: Seq<char>, waits: u32, poll_secs: u64 },
    Launch { command: CommandView },
    ExternalCommand { command: CommandView, output: OutputView },
    MissingInput { path: Seq<char> },
}

/// The five kinds of failure that callers tell apart.
#[derive(Debug, Clone, Copy, PartialEq, Eq, Structural)]
pub enum ErrorKind {
    /// The cache directory, or the lock file in it, cannot be had.
    Environment,
    LockTimeout,
    Launch,
    ExternalCommand,
    MissingInput,
}

impl ErrorView {
    /// The kind of this failure.
    pub open spec fn kind(self) -> ErrorKind {
        match self {
            ErrorView::NoCacheDir => ErrorKind::Environment,
            ErrorView::CacheRoot { .. } => ErrorKind::Environment,
            ErrorView::LockFile { .. } => ErrorKind::Environment,
            ErrorView::LockTimeout { .. } => ErrorKind::LockTimeout,
            ErrorView::Launch { .. } => ErrorKind::Launch,
            ErrorView::ExternalCommand { .. } => ErrorKind::ExternalCommand,
            ErrorView::MissingInput { .. } => ErrorKind::MissingInput,
        }
    }
}

impl ErrorView {
    /// The failure in words.
    pub open spec fn message(self) -> Seq<char> {
        match self {
            ErrorView::NoCacheDir => "Cannot get global cache directory"@,
            ErrorView::CacheRoot { path } => "Failed to create cache directory "@ + path,
            ErrorView::LockFile { path } => "Cannot create lock file "@ + path,
            ErrorView::LockTimeout { path, waits, poll_secs } => "Cannot get lock of "@ + path
                + " in "@ + decimal_spec((waits * poll_secs) as nat) + "s"@,
            ErrorView::Launch { command } => "Command not found: "@ + command.line(),
            ErrorView::ExternalCommand { command, output } => match output.code {
                Some(code) => command.program + " failed with error code: "@ + signed_spec(
                    code as int,
                ),
                None => command.program + " was ended by a signal"@,
            },
            ErrorView::MissingInput { path } => "Flatbuffer file "@ + path
                + " does not exist."@,
        }
    }
}

impl View for Error {
    type V = ErrorView;

    open spec fn view(&self) -> ErrorView {
        match self {
            Error::NoCacheDir => ErrorView::NoCacheDir,
            Error::CacheRoot { path } => ErrorView::CacheRoot { path: path@ },
            Error::LockFile { path } => ErrorView::LockFile { path: path@ },
            Error::LockTimeout { path, waits, poll_secs } => ErrorView::LockTimeout {
                path: path@,
                waits: *waits,
                poll_secs: *poll_secs,
            },
            Error::Launch { command } => ErrorView::Launch { command: command@ },
            Error::ExternalCommand { command, output } => ErrorView::ExternalCommand {
                command: command@,
                output: output@,
            },
            Error::MissingInput { path } => ErrorView::MissingInput { path: path@ },
        }
    }
}

/// The result of a check as contracts see it.
pub open spec fn error_result_view(r: Result<(), Error>) -> Result<(), ErrorView> {
    match r {
        Ok(()) => Ok(()),
        Err(e) => Err(e@),
    }
}

impl Clone for Error {
    fn clone(&self) -> (copy: Self)
        ensures
            copy@ == self@,
    {
        match self {
            Error::NoCacheDir => Error::NoCacheDir,
            Error::CacheRoot { path } => Error::CacheRoot { path: path.clone() },
            Error::LockFile { path } => Error::LockFile { path: path.clone() },
            Error::LockTimeout { path, waits, poll_secs } => Error::LockTimeout {
                path: path.clone(),
                waits: *waits,
                poll_secs: *poll_secs,
            },
            Error::Launch { command } => Error::Launch { command: command.clone() },
            Error::ExternalCommand { command, output } => Error::ExternalCommand {
                command: command.clone(),
                output: output.clone(),
            },
            Error::MissingInput { path } => Error::MissingInput { path: path.clone() },
        }
    }
}

impl Error {
    /// The failure in words, for the user.
    pub fn message(&self) -> (text: String)
        ensures
            text@ == self@.message(),
    {
        match self {
            Error::NoCacheDir => String::from_str("Cannot get global cache directory"),
            Error::CacheRoot { path } => {
                let mut text = String::from_str("Failed to create cache directory ");
                text.append(path.as_str());
                text
            },
            Error::LockFile { path } => {
                let mut text = String::from_str("Cannot create lock file ");
                text.append(path.as_str());
                text
            },
            Error::LockTimeout { path, waits, poll_secs } => {
                assert(0 <= *waits * *poll_secs <= 0xffff_ffff * 0xffff_ffff_ffff_ffff)
                    by (nonlinear_arith)
                    requires
                        0 <= *waits <= 0xffff_ffff,
                        0 <= *poll_secs <= 0xffff_ffff_ffff_ffff,
                ;
                let waited: u128 = (*waits as u128) * (*poll_secs as u128);
                let mut text = String::from_str("Cannot get lock of ");
                text.append(path.as_str());
                text.append(" in ");
                text.append(decimal(waited).as_str());
                text.append("s");
                text
            },
            Error::Launch { command } => {
                let mut text = String::from_str("Command not found: ");
                text.append(command.line().as_str());
                text
            },
            Error::ExternalCommand { command, output } => {
                let mut text = command.program.clone();
                match output.code {
                    Some(code) => {
                        text.append(" failed with error code: ");
                        text.append(signed(code).as_str());
                    },
                    None => {
                        text.append(" was ended by a signal");
                    },
                }
                text
            },
            Error::MissingInput { path } => {
                let mut text = String::from_str("Flatbuffer file ");
                text.append(path.as_str());
                text.append(" does not exist.");
                text
            },
        }
    }

    /// The kind of this failure.
    pub fn kind(&self) -> (kind: ErrorKind)
        ensures
            kind == self@.kind(),
    {
        match self {
            Error::NoCacheDir => ErrorKind::Environment,
            Error::CacheRoot { .. } => ErrorKind::Environment,
            Error::LockFile { .. } => ErrorKind::Environment,
            Error::LockTimeout { .. } => ErrorKind::LockTimeout,
            Error::Launch { .. } => ErrorKind::Launch,
            Error::ExternalCommand { .. } => ErrorKind::ExternalCommand,
            Error::MissingInput { .. } => ErrorKind::MissingInput,
        }
    }
}

} // verus!
