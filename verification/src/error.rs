//! Error types.

use vstd::prelude::*;
use vstd::string::*;

use crate::io_error::IoError;
use crate::size::Size;
use crate::text::{decimal, push_decimal};
use crate::wide::{decode_lossy, WideString};

verus! {

/// A result whose failure is an [`Error`].
pub type Result<T> = core::result::Result<T, Error>;

/// The operation phase in which an [`Error`] occurred.
#[derive(Debug, Clone, Copy, PartialEq, Eq, Hash, Structural)]
#[non_exhaustive]
pub enum ErrorKind {
    /// Loading or validating the `ConPTY` backend failed.
    Backend,
    /// Creating the pseudoconsole or its pipes failed.
    CreateConsole,
    /// Spawning the root process failed.
    Spawn,
    /// Resizing the pseudoconsole failed.
    Resize,
    /// Clearing the pseudoconsole failed.
    Clear,
    /// The selected backend does not provide a requested capability.
    UnsupportedFeature,
    /// A requested terminal size was invalid.
    InvalidSize,
    /// Waiting for the root process failed.
    Wait,
    /// Terminating the process tree failed.
    Kill,
    /// Reading from or writing to a pseudoconsole pipe failed.
    Io,
}

/// What an [`Error`] holds: its phase together with the context of that phase.
#[derive(Debug)]
pub enum ErrorContext {
    /// The backend failure.
    Backend(BackendError),
    /// The failure of `CreatePseudoConsole` or of a pipe.
    CreateConsole(IoError),
    /// The program that could not be started, and why.
    Spawn { program: WideString, source: IoError },
    /// The failure of `ResizePseudoConsole`.
    Resize(IoError),
    /// The failure of `ClearPseudoConsole`.
    Clear(IoError),
    /// The capability that the backend lacks.
    UnsupportedFeature { feature: &'static str },
    /// The dimensions that were refused.
    InvalidSize { rows: u16, cols: u16 },
    /// The failure of a process wait.
    Wait(IoError),
    /// The failure of a tree termination.
    Kill(IoError),
    /// The failure of a pipe operation.
    Io(IoError),
}

impl ErrorContext {
    /// The phase that the context belongs to.
    pub open spec fn spec_kind(self) -> ErrorKind {
        match self {
            ErrorContext::Backend(_) => ErrorKind::Backend,
            ErrorContext::CreateConsole(_) => ErrorKind::CreateConsole,
            ErrorContext::Spawn { .. } => ErrorKind::Spawn,
            ErrorContext::Resize(_) => ErrorKind::Resize,
            ErrorContext::Clear(_) => ErrorKind::Clear,
            ErrorContext::UnsupportedFeature { .. } => ErrorKind::UnsupportedFeature,
            ErrorContext::InvalidSize { .. } => ErrorKind::InvalidSize,
            ErrorContext::Wait(_) => ErrorKind::Wait,
            ErrorContext::Kill(_) => ErrorKind::Kill,
            ErrorContext::Io(_) => ErrorKind::Io,
        }
    }

    /// The I/O failure that the context holds itself.
    pub open spec fn spec_io_error(self) -> Option<IoError> {
        match self {
            ErrorContext::CreateConsole(source) => Some(source),
            ErrorContext::Spawn { program: _, source } => Some(source),
            ErrorContext::Resize(source) => Some(source),
            ErrorContext::Clear(source) => Some(source),
            ErrorContext::Wait(source) => Some(source),
            ErrorContext::Kill(source) => Some(source),
            ErrorContext::Io(source) => Some(source),
            _ => None,
        }
    }

    /// The text shown for the failure.
    pub open spec fn message(self) -> Seq<char> {
        match self {
            ErrorContext::Backend(_) => "failed to initialize the ConPTY backend"@,
            ErrorContext::CreateConsole(_) => "failed to create pseudoconsole"@,
            ErrorContext::Spawn { program, source: _ } => "failed to spawn `"@ + decode_lossy(
                program@,
            ) + "`"@,
            ErrorContext::Resize(_) => "failed to resize pseudoconsole"@,
            ErrorContext::Clear(_) => "failed to clear pseudoconsole"@,
            ErrorContext::UnsupportedFeature { feature } => "the ConPTY backend does not support "@
                + feature@,
            ErrorContext::InvalidSize { rows, cols } => "invalid pseudoconsole size: "@ + decimal(
                rows as nat,
            ) + " rows x "@ + decimal(cols as nat) + " cols (each dimension must be 1..="@
                + decimal(Size::MAX_DIMENSION as nat) + ")"@,
            ErrorContext::Wait(_) => "failed to wait for child process"@,
            ErrorContext::Kill(_) => "failed to kill child process"@,
            ErrorContext::Io(source) => source.message@,
        }
    }

    /// Returns the phase that the context belongs to.
    fn kind(&self) -> (kind: ErrorKind)
        ensures
            kind == self.spec_kind(),
    {
        match self {
            ErrorContext::Backend(_) => ErrorKind::Backend,
            ErrorContext::CreateConsole(_) => ErrorKind::CreateConsole,
            ErrorContext::Spawn { .. } => ErrorKind::Spawn,
            ErrorContext::Resize(_) => ErrorKind::Resize,
            ErrorContext::Clear(_) => ErrorKind::Clear,
            ErrorContext::UnsupportedFeature { .. } => ErrorKind::UnsupportedFeature,
            ErrorContext::InvalidSize { .. } => ErrorKind::InvalidSize,
            ErrorContext::Wait(_) => ErrorKind::Wait,
            ErrorContext::Kill(_) => ErrorKind::Kill,
            ErrorContext::Io(_) => ErrorKind::Io,
        }
    }
}

/// A failure of this library.
///
/// Use [`Error::kind`] for control flow, [`Error::io_error`] for a directly
/// held OS error, and [`Error::backend_error`] for backend initialization
/// details.
#[derive(Debug)]
pub struct Error {
    kind: ErrorKind,
    context: ErrorContext,
}

impl View for Error {
    type V = ErrorContext;

    closed spec fn view(&self) -> ErrorContext {
        self.context
    }
}

/// The next failure of a source chain.
#[derive(Debug)]
pub enum ErrorSource<'a> {
    /// An operating-system failure.
    Io(&'a IoError),
    /// A backend failure, which may have a source of its own.
    Backend(&'a BackendError),
}

impl Error {
    #[verifier::type_invariant]
    spec fn inv(self) -> bool {
        self.kind == self.context.spec_kind()
    }

    fn from_context(context: ErrorContext) -> (err: Error)
        ensures
            err == (Error { kind: context.spec_kind(), context }),
    {
        Error { kind: context.kind(), context }
    }

    /// Returns the stable classification of this failure.
    pub fn kind(&self) -> (kind: ErrorKind)
        ensures
            kind == self@.spec_kind(),
    {
        proof {
            use_type_invariant(self);
        }
        self.kind
    }

    /// Returns the directly held I/O error, when this failure has one.
    ///
    /// This does not walk the source chain: a backend failure returns `None`.
    pub fn io_error(&self) -> (source: Option<&IoError>)
        ensures
            source is Some <==> self@.spec_io_error() is Some,
            source is Some ==> *source->0 == self@.spec_io_error()->0,
    {
        match &self.context {
            ErrorContext::CreateConsole(source) => Some(source),
            ErrorContext::Spawn { program: _, source } => Some(source),
            ErrorContext::Resize(source) => Some(source),
            ErrorContext::Clear(source) => Some(source),
            ErrorContext::Wait(source) => Some(source),
            ErrorContext::Kill(source) => Some(source),
            ErrorContext::Io(source) => Some(source),
            ErrorContext::UnsupportedFeature { .. } => None,
            ErrorContext::Backend(_) => None,
            ErrorContext::InvalidSize { .. } => None,
        }
    }

    /// Returns the backend failure when initialization or validation failed.
    pub fn backend_error(&self) -> (source: Option<&BackendError>)
        ensures
            source is Some <==> self@ is Backend,
            source is Some ==> *source->0 == self@->Backend_0,
    {
        match &self.context {
            ErrorContext::Backend(source) => Some(source),
            _ => None,
        }
    }

    /// Returns the next failure of the source chain.
    pub fn source(&self) -> (source: Option<ErrorSource<'_>>)
        ensures
            source is Some <==> (self@ is Backend || self@.spec_io_error() is Some),
            self@ is Backend ==> (source matches Some(ErrorSource::Backend(backend)) && *backend
                == self@->Backend_0),
            self@.spec_io_error() is Some ==> (source matches Some(ErrorSource::Io(io)) && *io
                == self@.spec_io_error()->0),
    {
        match self.backend_error() {
            Some(backend) => Some(ErrorSource::Backend(backend)),
            None => match self.io_error() {
                Some(io) => Some(ErrorSource::Io(io)),
                None => None,
            },
        }
    }

    /// A failure of `CreatePseudoConsole` or of a session pipe.
    pub fn create_console(source: IoError) -> (err: Error)
        ensures
            err@ == ErrorContext::CreateConsole(source),
    {
        Error::from_context(ErrorContext::CreateConsole(source))
    }

    /// A failure to start `program`.
    pub fn spawn(program: WideString, source: IoError) -> (err: Error)
        ensures
            err@ == (ErrorContext::Spawn { program, source }),
    {
        Error::from_context(ErrorContext::Spawn { program, source })
    }

    /// A failure of `ResizePseudoConsole`.
    pub fn resize(source: IoError) -> (err: Error)
        ensures
            err@ == ErrorContext::Resize(source),
    {
        Error::from_context(ErrorContext::Resize(source))
    }

    /// A failure of `ClearPseudoConsole`.
    pub fn clear(source: IoError) -> (err: Error)
        ensures
            err@ == ErrorContext::Clear(source),
    {
        Error::from_context(ErrorContext::Clear(source))
    }

    /// A capability that the backend lacks.
    pub fn unsupported_feature(feature: &'static str) -> (err: Error)
        ensures
            err@ == (ErrorContext::UnsupportedFeature { feature }),
    {
        Error::from_context(ErrorContext::UnsupportedFeature { feature })
    }

    /// A refused terminal size.
    pub fn invalid_size(rows: u16, cols: u16) -> (err: Error)
        ensures
            err@ == (ErrorContext::InvalidSize { rows, cols }),
    {
        Error::from_context(ErrorContext::InvalidSize { rows, cols })
    }

    /// A failure of a process wait.
    pub fn wait(source: IoError) -> (err: Error)
        ensures
            err@ == ErrorContext::Wait(source),
    {
        Error::from_context(ErrorContext::Wait(source))
    }

    /// A failure of a tree termination.
    pub fn kill(source: IoError) -> (err: Error)
        ensures
            err@ == ErrorContext::Kill(source),
    {
        Error::from_context(ErrorContext::Kill(source))
    }

    /// Returns the text shown for the failure.
    pub fn to_string(&self) -> (text: String)
        ensures
            text@ == self@.message(),
    {
        match &self.context {
            ErrorContext::Backend(_) => String::from_str("failed to initialize the ConPTY backend"),
            ErrorContext::CreateConsole(_) => String::from_str("failed to create pseudoconsole"),
            ErrorContext::Spawn { program, source: _ } => {
                let mut text = String::from_str("failed to spawn `");
                text.append(program.to_text_lossy().as_str());
                text.append("`");
                text
            },
            ErrorContext::Resize(_) => String::from_str("failed to resize pseudoconsole"),
            ErrorContext::Clear(_) => String::from_str("failed to clear pseudoconsole"),
            ErrorContext::UnsupportedFeature { feature } => {
                let mut text = String::from_str("the ConPTY backend does not support ");
                text.append(feature);
                text
            },
            ErrorContext::InvalidSize { rows, cols } => {
                let mut text = String::from_str("invalid pseudoconsole size: ");
                push_decimal(&mut text, *rows as u64);
                text.append(" rows x ");
                push_decimal(&mut text, *cols as u64);
                text.append(" cols (each dimension must be 1..=");
                push_decimal(&mut text, Size::MAX_DIMENSION as u64);
                text.append(")");
                text
            },
            ErrorContext::Wait(_) => String::from_str("failed to wait for child process"),
            ErrorContext::Kill(_) => String::from_str("failed to kill child process"),
            ErrorContext::Io(source) => String::from_str(source.message.as_str()),
        }
    }
}

impl From<BackendError> for Error {
    fn from(source: BackendError) -> (err: Error)
        ensures
            err@ == ErrorContext::Backend(source),
    {
        Error::from_context(ErrorContext::Backend(source))
    }
}

impl vstd::std_specs::convert::FromSpecImpl<BackendError> for Error {
    open spec fn obeys_from_spec() -> bool {
        true
    }

    closed spec fn from_spec(source: BackendError) -> Error {
        Error { kind: ErrorKind::Backend, context: ErrorContext::Backend(source) }
    }
}

impl From<IoError> for Error {
    fn from(source: IoError) -> (err: Error)
        ensures
            err@ == ErrorContext::Io(source),
    {
        Error::from_context(ErrorContext::Io(source))
    }
}

impl vstd::std_specs::convert::FromSpecImpl<IoError> for Error {
    open spec fn obeys_from_spec() -> bool {
        true
    }

    closed spec fn from_spec(source: IoError) -> Error {
        Error { kind: ErrorKind::Io, context: ErrorContext::Io(source) }
    }
}

/// The failure class reported by a [`BackendError`].
#[derive(Debug, Clone, Copy, PartialEq, Eq, Hash, Structural)]
#[non_exhaustive]
pub enum BackendErrorKind {
    /// A requested `conpty.dll` could not be found or loaded.
    DllNotFound,
    /// A loaded DLL did not export a required function.
    MissingExport,
    /// A bundled DLL had no accompanying `OpenConsole.exe`.
    OpenConsoleMissing,
    /// The DLL and console host were not a validated matching pair.
    VersionMismatch,
    /// The system does not provide the required `ConPTY` API.
    Unsupported,
}

/// What a [`BackendError`] holds.
#[derive(Debug)]
pub enum BackendErrorContext {
    /// The directory that was searched, and why it did not do.
    DllNotFound { dir: WideString, source: IoError },
    /// The library and the export that it lacks.
    MissingExport { dll: WideString, symbol: &'static str },
    /// The library without a console host.
    OpenConsoleMissing { dll: WideString },
    /// The library and the two versions that do not match.
    VersionMismatch { dll: WideString, dll_version: String, exe_version: String },
    /// The operating system is too old.
    Unsupported,
}

impl BackendErrorContext {
    /// The class of the failure.
    pub open spec fn spec_kind(self) -> BackendErrorKind {
        match self {
            BackendErrorContext::DllNotFound { .. } => BackendErrorKind::DllNotFound,
            BackendErrorContext::MissingExport { .. } => BackendErrorKind::MissingExport,
            BackendErrorContext::OpenConsoleMissing { .. } => BackendErrorKind::OpenConsoleMissing,
            BackendErrorContext::VersionMismatch { .. } => BackendErrorKind::VersionMismatch,
            BackendErrorContext::Unsupported => BackendErrorKind::Unsupported,
        }
    }

    /// The text shown for the failure.
    pub open spec fn message(self) -> Seq<char> {
        match self {
            BackendErrorContext::DllNotFound { dir, source: _ } => "conpty.dll not found in `"@
                + decode_lossy(dir@) + "`"@,
            BackendErrorContext::MissingExport { dll, symbol } => "`"@ + decode_lossy(dll@)
                + "` is missing required export `"@ + symbol@ + "`"@,
            BackendErrorContext::OpenConsoleMissing { dll } =>
            "OpenConsole.exe not found next to `"@ + decode_lossy(dll@) + "`"@,
            BackendErrorContext::VersionMismatch { dll, dll_version, exe_version } =>
            "version mismatch: `"@ + decode_lossy(dll@) + "` reports "@ + dll_version@
                + " but its OpenConsole.exe reports "@ + exe_version@,
            BackendErrorContext::Unsupported =>
            "ConPTY is not available on this version of Windows; Windows 10 1809 (build 17763) or later is required"@,
        }
    }

    /// Returns the class of the failure.
    fn kind(&self) -> (kind: BackendErrorKind)
        ensures
            kind == self.spec_kind(),
    {
        match self {
            BackendErrorContext::DllNotFound { .. } => BackendErrorKind::DllNotFound,
            BackendErrorContext::MissingExport { .. } => BackendErrorKind::MissingExport,
            BackendErrorContext::OpenConsoleMissing { .. } => BackendErrorKind::OpenConsoleMissing,
            BackendErrorContext::VersionMismatch { .. } => BackendErrorKind::VersionMismatch,
            BackendErrorContext::Unsupported => BackendErrorKind::Unsupported,
        }
    }
}

/// A failure while locating, loading, or validating a `ConPTY` backend.
#[derive(Debug)]
pub struct BackendError {
    kind: BackendErrorKind,
    context: BackendErrorContext,
}

impl View for BackendError {
    type V = BackendErrorContext;

    closed spec fn view(&self) -> BackendErrorContext {
        self.context
    }
}

impl BackendError {
    #[verifier::type_invariant]
    spec fn inv(self) -> bool {
        self.kind == self.context.spec_kind()
    }

    fn from_context(context: BackendErrorContext) -> (err: BackendError)
        ensures
            err@ == context,
    {
        BackendError { kind: context.kind(), context }
    }

    /// Returns the stable classification of this backend failure.
    pub fn kind(&self) -> (kind: BackendErrorKind)
        ensures
            kind == self@.spec_kind(),
    {
        proof {
            use_type_invariant(self);
        }
        self.kind
    }

    /// Returns the directly held I/O error, which only a missing library has.
    pub fn io_error(&self) -> (found: Option<&IoError>)
        ensures
            found is Some <==> self@ is DllNotFound,
            found is Some ==> *found->0 == self@->DllNotFound_source,
    {
        match &self.context {
            BackendErrorContext::DllNotFound { dir: _, source } => Some(source),
            _ => None,
        }
    }

    /// Returns the next failure of the source chain.
    pub fn source(&self) -> (source: Option<ErrorSource<'_>>)
        ensures
            source is Some <==> self@ is DllNotFound,
            source is Some ==> (source matches Some(ErrorSource::Io(io)) && *io
                == self@->DllNotFound_source),
    {
        match self.io_error() {
            Some(io) => Some(ErrorSource::Io(io)),
            None => None,
        }
    }

    /// No usable `conpty.dll` in `dir`.
    pub fn dll_not_found(dir: WideString, source: IoError) -> (err: BackendError)
        ensures
            err@ == (BackendErrorContext::DllNotFound { dir, source }),
    {
        BackendError::from_context(BackendErrorContext::DllNotFound { dir, source })
    }

    /// `dll` does not export `symbol`.
    pub fn missing_export(dll: WideString, symbol: &'static str) -> (err: BackendError)
        ensures
            err@ == (BackendErrorContext::MissingExport { dll, symbol }),
    {
        BackendError::from_context(BackendErrorContext::MissingExport { dll, symbol })
    }

    /// `dll` has no console host.
    pub fn open_console_missing(dll: WideString) -> (err: BackendError)
        ensures
            err@ == (BackendErrorContext::OpenConsoleMissing { dll }),
    {
        BackendError::from_context(BackendErrorContext::OpenConsoleMissing { dll })
    }

    /// `dll` and its console host report versions that do not match.
    pub fn version_mismatch(dll: WideString, dll_version: String, exe_version: String) -> (err:
        BackendError)
        ensures
            err@ == (BackendErrorContext::VersionMismatch { dll, dll_version, exe_version }),
    {
        BackendError::from_context(
            BackendErrorContext::VersionMismatch { dll, dll_version, exe_version },
        )
    }

    /// The operating system has no `ConPTY`.
    pub fn unsupported() -> (err: BackendError)
        ensures
            err@ == BackendErrorContext::Unsupported,
    {
        BackendError::from_context(BackendErrorContext::Unsupported)
    }

    /// Returns the text shown for the failure.
    pub fn to_string(&self) -> (text: String)
        ensures
            text@ == self@.message(),
    {
        match &self.context {
            BackendErrorContext::DllNotFound { dir, source: _ } => {
                let mut text = String::from_str("conpty.dll not found in `");
                text.append(dir.to_text_lossy().as_str());
                text.append("`");
                text
            },
            BackendErrorContext::MissingExport { dll, symbol } => {
                let mut text = String::from_str("`");
                text.append(dll.to_text_lossy().as_str());
                text.append("` is missing required export `");
                text.append(symbol);
                text.append("`");
                text
            },
            BackendErrorContext::OpenConsoleMissing { dll } => {
                let mut text = String::from_str("OpenConsole.exe not found next to `");
                text.append(dll.to_text_lossy().as_str());
                text.append("`");
                text
            },
            BackendErrorContext::VersionMismatch { dll, dll_version, exe_version } => {
                let mut text = String::from_str("version mismatch: `");
                text.append(dll.to_text_lossy().as_str());
                text.append("` reports ");
                text.append(dll_version.as_str());
                text.append(" but its OpenConsole.exe reports ");
                text.append(exe_version.as_str());
                text
            },
            BackendErrorContext::Unsupported => String::from_str(
                "ConPTY is not available on this version of Windows; Windows 10 1809 (build 17763) or later is required",
            ),
        }
    }
}

/// The kind of an error is that of its context, and tells contexts apart.
pub proof fn kinds_name_their_context(context: ErrorContext)
    ensures
        context is Backend <==> context.spec_kind() == ErrorKind::Backend,
        context is CreateConsole <==> context.spec_kind() == ErrorKind::CreateConsole,
        context is Spawn <==> context.spec_kind() == ErrorKind::Spawn,
        context is Resize <==> context.spec_kind() == ErrorKind::Resize,
        context is Clear <==> context.spec_kind() == ErrorKind::Clear,
        context is UnsupportedFeature <==> context.spec_kind() == ErrorKind::UnsupportedFeature,
        context is InvalidSize <==> context.spec_kind() == ErrorKind::InvalidSize,
        context is Wait <==> context.spec_kind() == ErrorKind::Wait,
        context is Kill <==> context.spec_kind() == ErrorKind::Kill,
        context is Io <==> context.spec_kind() == ErrorKind::Io,
{
}

/// An error that an I/O failure caused gives that failure, whatever it was met
/// with; any other gives none.
pub proof fn causes_are_kept(source: IoError, program: WideString, context: ErrorContext)
    ensures
        ErrorContext::CreateConsole(source).spec_io_error() == Some(source),
        (ErrorContext::Spawn { program, source }).spec_io_error() == Some(source),
        ErrorContext::Resize(source).spec_io_error() == Some(source),
        ErrorContext::Clear(source).spec_io_error() == Some(source),
        ErrorContext::Wait(source).spec_io_error() == Some(source),
        ErrorContext::Kill(source).spec_io_error() == Some(source),
        ErrorContext::Io(source).spec_io_error() == Some(source),
        context is Backend || context is UnsupportedFeature || context is InvalidSize
            ==> context.spec_io_error() is None,
{
}

/// Every error says what failed; one about a program names it, one about a feature
/// or a size shows it, and a plain I/O failure speaks for itself.
pub proof fn messages_say_what_failed(
    backend: BackendError,
    source: IoError,
    program: WideString,
    feature: &'static str,
    rows: u16,
    cols: u16,
)
    ensures
        ErrorContext::Backend(backend).message() == "failed to initialize the ConPTY backend"@,
        ErrorContext::CreateConsole(source).message() == "failed to create pseudoconsole"@,
        (ErrorContext::Spawn { program, source }).message() == "failed to spawn `"@ + decode_lossy(
            program@,
        ) + "`"@,
        ErrorContext::Resize(source).message() == "failed to resize pseudoconsole"@,
        ErrorContext::Clear(source).message() == "failed to clear pseudoconsole"@,
        (ErrorContext::UnsupportedFeature { feature }).message()
            == "the ConPTY backend does not support "@ + feature@,
        (ErrorContext::InvalidSize { rows, cols }).message() == "invalid pseudoconsole size: "@
            + decimal(rows as nat) + " rows x "@ + decimal(cols as nat)
            + " cols (each dimension must be 1..="@ + decimal(32767) + ")"@,
        ErrorContext::Wait(source).message() == "failed to wait for child process"@,
        ErrorContext::Kill(source).message() == "failed to kill child process"@,
        ErrorContext::Io(source).message() == source.message@,
{
}

/// The kind of a backend's error is that of its context, and tells contexts apart.
pub proof fn backend_kinds_name_their_context(context: BackendErrorContext)
    ensures
        context is DllNotFound <==> context.spec_kind() == BackendErrorKind::DllNotFound,
        context is MissingExport <==> context.spec_kind() == BackendErrorKind::MissingExport,
        context is OpenConsoleMissing <==> context.spec_kind()
            == BackendErrorKind::OpenConsoleMissing,
        context is VersionMismatch <==> context.spec_kind() == BackendErrorKind::VersionMismatch,
        context is Unsupported <==> context.spec_kind() == BackendErrorKind::Unsupported,
{
}

/// Every error of a backend names the file or directory that it is about, and what
/// is wrong with it.
pub proof fn backend_messages_say_what_is_wrong(
    path: WideString,
    source: IoError,
    symbol: &'static str,
    dll_version: String,
    exe_version: String,
)
    ensures
        (BackendErrorContext::DllNotFound { dir: path, source }).message()
            == "conpty.dll not found in `"@ + decode_lossy(path@) + "`"@,
        (BackendErrorContext::MissingExport { dll: path, symbol }).message() == "`"@ + decode_lossy(
            path@,
        ) + "` is missing required export `"@ + symbol@ + "`"@,
        (BackendErrorContext::OpenConsoleMissing { dll: path }).message()
            == "OpenConsole.exe not found next to `"@ + decode_lossy(path@) + "`"@,
        (BackendErrorContext::VersionMismatch { dll: path, dll_version, exe_version }).message()
            == "version mismatch: `"@ + decode_lossy(path@) + "` reports "@ + dll_version@
            + " but its OpenConsole.exe reports "@ + exe_version@,
        BackendErrorContext::Unsupported.message()
            == "ConPTY is not available on this version of Windows; Windows 10 1809 (build 17763) or later is required"@,
{
}

} // verus!
