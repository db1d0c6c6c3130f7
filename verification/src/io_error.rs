//! Operating-system failures as plain values.
//!
//! The lifecycle rules never perform I/O. Whoever does hands the outcome in as
//! an [`IoError`], which carries exactly what the rules read: the error kind,
//! the raw OS code when there is one, the message, and the error it wraps.

use vstd::prelude::*;

use crate::win32::{
    ERROR_BROKEN_PIPE, ERROR_HANDLE_EOF, ERROR_NO_DATA, ERROR_PIPE_NOT_CONNECTED,
};

verus! {

/// The category of an [`IoError`], variant for variant `std::io::ErrorKind`.
#[derive(Clone, Copy, Debug, PartialEq, Eq, Structural)]
pub enum IoErrorKind {
    NotFound,
    PermissionDenied,
    ConnectionRefused,
    ConnectionReset,
    HostUnreachable,
    NetworkUnreachable,
    ConnectionAborted,
    NotConnected,
    AddrInUse,
    AddrNotAvailable,
    NetworkDown,
    BrokenPipe,
    AlreadyExists,
    WouldBlock,
    NotADirectory,
    IsADirectory,
    DirectoryNotEmpty,
    ReadOnlyFilesystem,
    StaleNetworkFileHandle,
    InvalidInput,
    InvalidData,
    TimedOut,
    WriteZero,
    StorageFull,
    NotSeekable,
    QuotaExceeded,
    FileTooLarge,
    ResourceBusy,
    ExecutableFileBusy,
    Deadlock,
    CrossesDevices,
    TooManyLinks,
    InvalidFilename,
    ArgumentListTooLong,
    Interrupted,
    Unsupported,
    UnexpectedEof,
    OutOfMemory,
    Other,
    Uncategorized,
}

/// One failed operating-system operation.
#[derive(Debug)]
pub struct IoError {
    /// The category of the failure.
    pub kind: IoErrorKind,
    /// The raw OS code, when the failure came from the operating system.
    pub code: Option<i32>,
    /// The text shown for the failure.
    pub message: String,
    /// The failure this one wraps, if any.
    pub inner: Option<Box<IoError>>,
}

/// Whether `code` is one of the Windows codes for a torn-down connection.
pub open spec fn disconnect_code(code: i32) -> bool {
    ||| code == ERROR_BROKEN_PIPE
    ||| code == ERROR_HANDLE_EOF
    ||| code == ERROR_NO_DATA
    ||| code == ERROR_PIPE_NOT_CONNECTED
}

impl IoError {
    /// Whether this failure means that the other side of the console
    /// connection is gone.
    pub open spec fn is_disconnect(self) -> bool {
        ||| (self.code is Some && disconnect_code(self.code->0))
        ||| self.kind == IoErrorKind::BrokenPipe
        ||| self.kind == IoErrorKind::UnexpectedEof
    }

    /// Creates a failure of `kind` that did not come from the operating system.
    pub fn new(kind: IoErrorKind, message: &str) -> (err: IoError)
        ensures
            err.kind == kind,
            err.code == None::<i32>,
            err.message@ == message@,
            err.inner == None::<Box<IoError>>,
    {
        IoError { kind, code: None, message: message.to_owned(), inner: None }
    }

    /// Creates a failure of kind [`IoErrorKind::Other`].
    pub fn other(message: &str) -> (err: IoError)
        ensures
            err.kind == IoErrorKind::Other,
            err.code == None::<i32>,
            err.message@ == message@,
            err.inner == None::<Box<IoError>>,
    {
        IoError::new(IoErrorKind::Other, message)
    }

    /// Creates a failure reported by the operating system as `code`.
    pub fn from_os(code: i32, kind: IoErrorKind, message: &str) -> (err: IoError)
        ensures
            err.kind == kind,
            err.code == Some(code),
            err.message@ == message@,
            err.inner == None::<Box<IoError>>,
    {
        IoError { kind, code: Some(code), message: message.to_owned(), inner: None }
    }

    /// Wraps `inner` under another kind, keeping its text and dropping its code.
    pub fn wrap(kind: IoErrorKind, inner: IoError) -> (err: IoError)
        ensures
            err.kind == kind,
            err.code == None::<i32>,
            err.message@ == inner.message@,
            err.inner == Some(Box::new(inner)),
    {
        let message = inner.message.as_str().to_owned();
        IoError { kind, code: None, message, inner: Some(Box::new(inner)) }
    }

    /// Returns the category of the failure.
    pub fn kind(&self) -> (kind: IoErrorKind)
        ensures
            kind == self.kind,
    {
        self.kind
    }

    /// Returns the raw OS code, if the failure came from the operating system.
    pub fn raw_os_error(&self) -> (code: Option<i32>)
        ensures
            code == self.code,
    {
        self.code
    }
}

/// Returns whether `err` means "the other side of this console connection is
/// gone": a torn-down pipe, or a console host that has already exited.
///
/// The reader turns these failures into end-of-file and the console turns them
/// into [`IoErrorKind::NotConnected`], so a finished session looks the same
/// from every direction.
pub fn is_disconnect_error(err: &IoError) -> (gone: bool)
    ensures
        gone == err.is_disconnect(),
{
    let raw_matches = match err.code {
        Some(code) => code == ERROR_BROKEN_PIPE as i32 || code == ERROR_HANDLE_EOF as i32 || code
            == ERROR_NO_DATA as i32 || code == ERROR_PIPE_NOT_CONNECTED as i32,
        None => false,
    };
    raw_matches || err.kind == IoErrorKind::BrokenPipe || err.kind == IoErrorKind::UnexpectedEof
}

/// The operating system reports the end of a pipe under four codes, and no other.
pub proof fn four_codes_end_a_pipe(code: i32)
    ensures
        disconnect_code(code) <==> code == 109 || code == 38 || code == 232 || code == 233,
{
}

/// A failure is a disconnect exactly where its code is one of those that end a
/// pipe, or its kind is that of a broken pipe or of an unexpected end.
pub proof fn disconnects_are_known_by_code_or_kind(err: IoError)
    ensures
        err.is_disconnect() <==> {
            ||| err.kind == IoErrorKind::BrokenPipe
            ||| err.kind == IoErrorKind::UnexpectedEof
            ||| err.code == Some(109i32)
            ||| err.code == Some(38i32)
            ||| err.code == Some(232i32)
            ||| err.code == Some(233i32)
        },
{
}

} // verus!
