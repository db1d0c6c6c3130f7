//! Pseudoconsole construction, and what its two streams report.

use vstd::prelude::*;

use crate::backend::{clone_choice, same_choice, ConPtyBackend};
use crate::error::{BackendError, Error, ErrorContext, Result};
use crate::io_error::{is_disconnect_error, IoError, IoErrorKind};
use crate::pseudocon::{
    create_flags, CloseAction, CloseState, ConsoleShared, DetachedStep, ReaderState, State,
};
use crate::session::{ConsoleSession, SessionView};
use crate::size::Size;
use crate::win32::PSEUDOCONSOLE_INHERIT_CURSOR;

verus! {

/// Records that end-of-file was seen; returns whether it is the first time, and
/// so has to be reported.
pub fn notify_eof_once(saw_eof: &mut bool) -> (first: bool)
    ensures
        *final(saw_eof),
        first == !*old(saw_eof),
{
    let first = !*saw_eof;
    *saw_eof = true;
    first
}

/// Takes a failure that means that the other end is gone for end-of-file.
///
/// # Errors
///
/// Every other failure, as it is.
pub fn conout_error_as_eof(err: IoError) -> (eof: core::result::Result<(), IoError>)
    ensures
        eof is Ok <==> err.is_disconnect(),
        eof is Err ==> eof->Err_0 == err,
{
    if is_disconnect_error(&err) {
        Ok(())
    } else {
        Err(err)
    }
}

/// What a read of the output calls for.
#[derive(Debug, Clone, Copy, PartialEq, Eq, Structural)]
#[must_use]
pub enum ReadStep {
    /// Nothing is read, and that is no end-of-file.
    Nothing,
    /// Read from the pipe and report the outcome.
    Read,
}

/// Whether the outcome of a read of the pipe, into a buffer that is not empty,
/// is end-of-file.
pub open spec fn is_eof(outcome: core::result::Result<usize, IoError>) -> bool {
    match outcome {
        Ok(read) => read == 0,
        Err(err) => err.is_disconnect(),
    }
}

/// The read end of the output pipe, as far as the session's lifecycle knows it.
#[derive(Debug)]
pub struct ConoutReader {
    open: bool,
    saw_eof: bool,
}

impl ConoutReader {
    /// Whether the pipe is open.
    pub closed spec fn spec_open(&self) -> bool {
        self.open
    }

    /// Whether end-of-file was reported.
    pub closed spec fn spec_saw_eof(&self) -> bool {
        self.saw_eof
    }

    /// The reader of a pipe that was just created.
    pub fn new() -> (reader: ConoutReader)
        ensures
            reader.spec_open(),
            !reader.spec_saw_eof(),
    {
        ConoutReader { open: true, saw_eof: false }
    }

    /// Decides what a read into a buffer with `room` bytes calls for. An empty
    /// buffer must not be mistaken for end-of-file.
    pub fn begin_read(&self, room: usize) -> (step: ReadStep)
        ensures
            step == (if room > 0 && self.spec_open() {
                ReadStep::Read
            } else {
                ReadStep::Nothing
            }),
    {
        if room == 0 || !self.open {
            ReadStep::Nothing
        } else {
            ReadStep::Read
        }
    }

    /// Presents the outcome of a read of the pipe, reporting the first
    /// end-of-file to the console.
    ///
    /// The close that this may claim is safe on the reader's thread: end-of-file
    /// proves that the console host is gone.
    ///
    /// # Errors
    ///
    /// The failure of the read, unless it means that the other end is gone.
    pub fn finish_read(
        &mut self,
        console: &mut ConsoleShared,
        outcome: core::result::Result<usize, IoError>,
    ) -> (read: (core::result::Result<usize, IoError>, CloseAction))
        ensures
            final(self).spec_open() == old(self).spec_open(),
            final(self).spec_saw_eof() == (old(self).spec_saw_eof() || is_eof(outcome)),
            read.0 == (if is_eof(outcome) {
                Ok::<usize, IoError>(0usize)
            } else {
                outcome
            }),
            final(console).same_console(old(console)),
            (is_eof(outcome) && !old(self).spec_saw_eof()) ==> {
                &&& final(console)@ == old(console)@.after_reader_eof()
                &&& read.1 == CloseAction::Close <==> old(console)@.claims_close(final(console)@)
            },
            !(is_eof(outcome) && !old(self).spec_saw_eof()) ==> {
                &&& final(console)@ == old(console)@
                &&& read.1 == CloseAction::Nothing
            },
    {
        match outcome {
            Ok(read) => {
                if read == 0 {
                    (Ok(0), self.on_eof(console))
                } else {
                    (Ok(read), CloseAction::Nothing)
                }
            },
            Err(err) => match conout_error_as_eof(err) {
                Ok(()) => (Ok(0), self.on_eof(console)),
                Err(err) => (Err(err), CloseAction::Nothing),
            },
        }
    }

    /// Reports end-of-file to the console, once.
    fn on_eof(&mut self, console: &mut ConsoleShared) -> (action: CloseAction)
        ensures
            final(self).spec_open() == old(self).spec_open(),
            final(self).spec_saw_eof(),
            final(console).same_console(old(console)),
            !old(self).spec_saw_eof() ==> {
                &&& final(console)@ == old(console)@.after_reader_eof()
                &&& action == CloseAction::Close <==> old(console)@.claims_close(final(console)@)
            },
            old(self).spec_saw_eof() ==> {
                &&& final(console)@ == old(console)@
                &&& action == CloseAction::Nothing
            },
    {
        if notify_eof_once(&mut self.saw_eof) {
            console.notify_reader_eof()
        } else {
            CloseAction::Nothing
        }
    }

    /// Presents the outcome of an asynchronous read of the pipe, `None` while it
    /// is pending, as [`Self::finish_read`] does.
    pub fn finish_poll_read(
        &mut self,
        console: &mut ConsoleShared,
        outcome: Option<core::result::Result<usize, IoError>>,
    ) -> (read: (Option<core::result::Result<usize, IoError>>, CloseAction))
        ensures
            final(self).spec_open() == old(self).spec_open(),
            final(console).same_console(old(console)),
            outcome is None ==> {
                &&& read.0 is None
                &&& read.1 == CloseAction::Nothing
                &&& final(self).spec_saw_eof() == old(self).spec_saw_eof()
                &&& final(console)@ == old(console)@
            },
            outcome is Some ==> {
                let result = outcome->0;
                let first = is_eof(result) && !old(self).spec_saw_eof();
                &&& final(self).spec_saw_eof() == (old(self).spec_saw_eof() || is_eof(result))
                &&& read.0 == Some(
                    if is_eof(result) {
                        Ok::<usize, IoError>(0usize)
                    } else {
                        result
                    },
                )
                &&& final(console)@ == (if first {
                    old(console)@.after_reader_eof()
                } else {
                    old(console)@
                })
                &&& read.1 == CloseAction::Close <==> first && old(console)@.claims_close(
                    final(console)@,
                )
            },
    {
        match outcome {
            None => (None, CloseAction::Nothing),
            Some(outcome) => {
                let (read, action) = self.finish_read(console, outcome);
                (Some(read), action)
            },
        }
    }

    /// Records that the pipe was closed, and tells the console. The pipe has to
    /// be closed first: a close that this claims then cannot wait for the
    /// reader.
    pub fn close(&mut self, console: &mut ConsoleShared) -> (action: CloseAction)
        ensures
            !final(self).spec_open(),
            final(self).spec_saw_eof() == old(self).spec_saw_eof(),
            final(console).same_console(old(console)),
            final(console)@ == old(console)@.after_reader_closed(),
            action == CloseAction::Close <==> old(console)@.claims_close(final(console)@),
    {
        self.open = false;
        console.notify_reader_closed()
    }
}

/// The write end of the input pipe, as far as the session's lifecycle knows it.
#[derive(Debug)]
pub struct ConinWriter {
    open: bool,
}

/// Whether `err` says that the input pipe is closed.
pub open spec fn input_closed(err: IoError, message: Seq<char>) -> bool {
    &&& err.kind == IoErrorKind::BrokenPipe
    &&& err.code == None::<i32>
    &&& err.message@ == message
    &&& err.inner == None::<Box<IoError>>
}

impl ConinWriter {
    /// Whether the pipe is open.
    pub closed spec fn spec_open(&self) -> bool {
        self.open
    }

    /// The writer of a pipe that was just created.
    pub fn new() -> (writer: ConinWriter)
        ensures
            writer.spec_open(),
    {
        ConinWriter { open: true }
    }

    /// Decides whether the pipe may be written to.
    ///
    /// # Errors
    ///
    /// [`IoErrorKind::BrokenPipe`] if and only if the pipe is closed.
    pub fn check_write(&self) -> (open: core::result::Result<(), IoError>)
        ensures
            open is Ok <==> self.spec_open(),
            open is Err ==> input_closed(open->Err_0, "input is closed"@),
    {
        if self.open {
            Ok(())
        } else {
            Err(IoError::new(IoErrorKind::BrokenPipe, "input is closed"))
        }
    }

    /// Decides whether the pipe may be written to asynchronously.
    ///
    /// # Errors
    ///
    /// [`IoErrorKind::BrokenPipe`] if and only if a shutdown closed the pipe.
    pub fn pipe(&self) -> (open: core::result::Result<(), IoError>)
        ensures
            open is Ok <==> self.spec_open(),
            open is Err ==> input_closed(
                open->Err_0,
                "the pseudoconsole input pipe has been shut down"@,
            ),
    {
        if self.open {
            Ok(())
        } else {
            Err(
                IoError::new(
                    IoErrorKind::BrokenPipe,
                    "the pseudoconsole input pipe has been shut down",
                ),
            )
        }
    }

    /// Records that the pipe was closed, and ends a session that has a child.
    /// Closing again does nothing.
    pub fn close(&mut self, session: &mut ConsoleSession) -> (step: Option<DetachedStep>)
        ensures
            !final(self).spec_open(),
            step is Some <==> old(self).spec_open() && old(session)@.attached,
            (step is None || !old(session)@.console.released) ==> final(session).moved(
                old(session),
                old(session)@,
            ),
            (step is Some && !old(session)@.console.released) ==> step == Some(
                DetachedStep::StartWorker,
            ),
            (step is Some && old(session)@.console.released) ==> {
                let after = old(session)@.console.after_close_request();
                &&& final(session).moved(
                    old(session),
                    SessionView { console: after, ..old(session)@ },
                )
                &&& step == Some(
                    DetachedStep::Requested(
                        if old(session)@.console.claims_close(after) {
                            CloseAction::Close
                        } else {
                            CloseAction::Nothing
                        },
                    ),
                )
            },
    {
        if !self.open {
            return None;
        }
        self.open = false;
        session.request_close_after_input()
    }
}

/// Settings of a pseudoconsole.
#[derive(Debug)]
pub struct PtyOptions {
    /// The initial size.
    pub size: Size,
    /// The backend, if it is not selected automatically.
    pub backend: Option<ConPtyBackend>,
    /// Whether the console takes the cursor position of its parent.
    pub inherit_cursor: bool,
    /// Whether a legacy console is closed when the root exits.
    pub eof_on_root_exit: bool,
}

impl PtyOptions {
    /// Whether `other` holds the same settings.
    pub open spec fn same(&self, other: PtyOptions) -> bool {
        &&& self.size == other.size
        &&& same_choice(self.backend, other.backend)
        &&& self.inherit_cursor == other.inherit_cursor
        &&& self.eof_on_root_exit == other.eof_on_root_exit
    }
}

impl Clone for PtyOptions {
    fn clone(&self) -> (copy: PtyOptions)
        ensures
            self.same(copy),
    {
        PtyOptions {
            size: self.size,
            backend: clone_choice(&self.backend),
            inherit_cursor: self.inherit_cursor,
            eof_on_root_exit: self.eof_on_root_exit,
        }
    }
}

impl Default for PtyOptions {
    /// 24 rows by 80 columns, automatic backend selection, no inherited cursor,
    /// and end-of-file on root exit.
    fn default() -> (options: PtyOptions)
        ensures
            options.size.spec_rows() == 24,
            options.size.spec_cols() == 80,
            options.backend is None,
            !options.inherit_cursor,
            options.eof_on_root_exit,
    {
        PtyOptions {
            size: Size::default(),
            backend: None,
            inherit_cursor: false,
            eof_on_root_exit: true,
        }
    }
}

/// A pseudoconsole session with both of its streams.
#[derive(Debug)]
pub struct Pty {
    /// The output.
    pub reader: ConoutReader,
    /// The input.
    pub writer: ConinWriter,
    /// The console.
    pub session: ConsoleSession,
}

impl Pty {
    /// Starts building a session.
    pub fn builder() -> (builder: PtyBuilder)
        ensures
            builder.spec_options().size.spec_rows() == 24,
            builder.spec_options().size.spec_cols() == 80,
            builder.spec_options().backend is None,
            !builder.spec_options().inherit_cursor,
            builder.spec_options().eof_on_root_exit,
    {
        PtyBuilder::default()
    }
}

/// Builder for a [`Pty`].
#[derive(Debug)]
pub struct PtyBuilder {
    options: PtyOptions,
}

impl Clone for PtyBuilder {
    fn clone(&self) -> (copy: PtyBuilder)
        ensures
            self.spec_options().same(copy.spec_options()),
    {
        PtyBuilder { options: self.options.clone() }
    }
}

impl Default for PtyBuilder {
    fn default() -> (builder: PtyBuilder)
        ensures
            builder.spec_options().size.spec_rows() == 24,
            builder.spec_options().size.spec_cols() == 80,
            builder.spec_options().backend is None,
            !builder.spec_options().inherit_cursor,
            builder.spec_options().eof_on_root_exit,
    {
        PtyBuilder { options: PtyOptions::default() }
    }
}

/// The flags with which a console is created.
pub open spec fn flags_of(options: PtyOptions) -> u32 {
    if options.inherit_cursor {
        PSEUDOCONSOLE_INHERIT_CURSOR
    } else {
        0
    }
}

/// Whether `pty` is a session that was just built on `backend` with the handle
/// `hpcon`.
pub open spec fn freshly_built(
    pty: Pty,
    options: PtyOptions,
    backend: ConPtyBackend,
    hpcon: isize,
) -> bool {
    &&& pty.reader.spec_open()
    &&& !pty.reader.spec_saw_eof()
    &&& pty.writer.spec_open()
    &&& pty.session@ == (SessionView {
        console: State::fresh(options.size),
        eof_on_root_exit: options.eof_on_root_exit,
        spawned: false,
        attached: false,
    })
    &&& pty.session.spec_console().spec_backend() == backend
    &&& pty.session.spec_console().spec_hpcon() == hpcon
}

impl PtyBuilder {
    /// The settings so far.
    pub closed spec fn spec_options(&self) -> PtyOptions {
        self.options
    }

    /// Sets the initial size of the pseudoconsole.
    pub fn size(self, size: Size) -> (builder: PtyBuilder)
        ensures
            builder.spec_options() == (PtyOptions { size, ..self.spec_options() }),
    {
        PtyBuilder { options: PtyOptions { size, ..self.options } }
    }

    /// Uses `backend` instead of automatic backend detection.
    pub fn backend(self, backend: ConPtyBackend) -> (builder: PtyBuilder)
        ensures
            builder.spec_options() == (PtyOptions {
                backend: Some(backend),
                ..self.spec_options()
            }),
    {
        PtyBuilder { options: PtyOptions { backend: Some(backend), ..self.options } }
    }

    /// Makes the new pseudoconsole adopt the cursor position of the calling
    /// process's console.
    pub fn inherit_cursor(self, inherit: bool) -> (builder: PtyBuilder)
        ensures
            builder.spec_options() == (PtyOptions {
                inherit_cursor: inherit,
                ..self.spec_options()
            }),
    {
        PtyBuilder { options: PtyOptions { inherit_cursor: inherit, ..self.options } }
    }

    /// Controls whether end-of-file is forced when the root child of a legacy
    /// session exits.
    pub fn eof_on_root_exit(self, eof: bool) -> (builder: PtyBuilder)
        ensures
            builder.spec_options() == (PtyOptions {
                eof_on_root_exit: eof,
                ..self.spec_options()
            }),
    {
        PtyBuilder { options: PtyOptions { eof_on_root_exit: eof, ..self.options } }
    }

    /// Returns the settings.
    pub fn into_options(self) -> (options: PtyOptions)
        ensures
            options == self.spec_options(),
    {
        self.options
    }

    /// Creates the pseudoconsole.
    ///
    /// `resolve_default` selects a backend where none was given, `make_pipes`
    /// creates the pipes, and `create` calls `CreatePseudoConsole` on a backend
    /// with a size and flags, returning the handle. They are called in this
    /// order, each only if the one before succeeded.
    ///
    /// # Errors
    ///
    /// A backend error if and only if no backend was given and none can be
    /// selected, and else a create-console error if and only if the pipes or the
    /// console cannot be created.
    pub fn build<
        R: FnOnce() -> core::result::Result<ConPtyBackend, BackendError>,
        P: FnOnce() -> core::result::Result<(), IoError>,
        C: FnOnce(&ConPtyBackend, Size, u32) -> core::result::Result<isize, IoError>,
    >(self, resolve_default: R, make_pipes: P, create: C) -> (pty: Result<Pty>)
        requires
            self.spec_options().backend is None ==> resolve_default.requires(()),
            self.spec_options().backend is Some ==> make_pipes.requires(()),
            self.spec_options().backend is None ==> forall|selected: ConPtyBackend|
                #[trigger] resolve_default.ensures(
                    (),
                    Ok::<ConPtyBackend, BackendError>(selected),
                ) ==> make_pipes.requires(()),
            make_pipes.ensures((), Ok::<(), IoError>(())) ==> forall|backend: &ConPtyBackend|
                may_select(self.spec_options(), resolve_default, *backend)
                    ==> #[trigger] create.requires(
                    (backend, self.spec_options().size, flags_of(self.spec_options())),
                ),
        ensures
            exists|selected: core::result::Result<ConPtyBackend, BackendError>,
                pipes: core::result::Result<(), IoError>,
                created: core::result::Result<isize, IoError>|
                #[trigger] steps_agree(
                    self.spec_options(),
                    resolve_default,
                    make_pipes,
                    create,
                    selected,
                    pipes,
                    created,
                ) && (if selected is Err {
                    pty is Err && pty->Err_0@ == ErrorContext::Backend(selected->Err_0)
                } else if pipes is Err {
                    pty is Err && pty->Err_0@ == ErrorContext::CreateConsole(pipes->Err_0)
                } else if created is Err {
                    pty is Err && pty->Err_0@ == ErrorContext::CreateConsole(created->Err_0)
                } else {
                    pty is Ok && freshly_built(
                        pty->Ok_0,
                        self.spec_options(),
                        selected->Ok_0,
                        created->Ok_0,
                    )
                }),
    {
        let ghost options = self.options;
        let PtyOptions { size, backend, inherit_cursor, eof_on_root_exit } = self.options;
        let ghost no_pipes: core::result::Result<(), IoError> = arbitrary();
        let ghost no_console: core::result::Result<isize, IoError> = arbitrary();
        let selected: core::result::Result<ConPtyBackend, BackendError> = match backend {
            Some(backend) => Ok(backend),
            None => resolve_default(),
        };
        let backend = match selected {
            Ok(backend) => backend,
            Err(err) => {
                assert(steps_agree(
                    options,
                    resolve_default,
                    make_pipes,
                    create,
                    selected,
                    no_pipes,
                    no_console,
                ));
                return Err(Error::from(err));
            },
        };
        let pipes = make_pipes();
        match pipes {
            Ok(made) => {
                assert(made == ());
                assert(make_pipes.ensures((), Ok::<(), IoError>(())));
            },
            Err(err) => {
                assert(steps_agree(
                    options,
                    resolve_default,
                    make_pipes,
                    create,
                    selected,
                    pipes,
                    no_console,
                ));
                return Err(Error::create_console(err));
            },
        }
        assert(may_select(options, resolve_default, backend));
        let flags: u32 = create_flags(inherit_cursor);
        assert(create.requires((&backend, options.size, flags_of(options))));
        let created = create(&backend, size, flags);
        assert(steps_agree(
            options,
            resolve_default,
            make_pipes,
            create,
            selected,
            pipes,
            created,
        ));
        match created {
            Err(err) => Err(Error::create_console(err)),
            Ok(hpcon) => Ok(
                Pty {
                    reader: ConoutReader::new(),
                    writer: ConinWriter::new(),
                    session: ConsoleSession::new(
                        ConsoleShared::new(backend, size, hpcon),
                        eof_on_root_exit,
                    ),
                },
            ),
        }
    }
}

/// Whether building with `options` can come to run on `backend`: it was given, or
/// none was and it can be selected.
pub open spec fn may_select<R: FnOnce() -> core::result::Result<ConPtyBackend, BackendError>>(
    options: PtyOptions,
    resolve_default: R,
    backend: ConPtyBackend,
) -> bool {
    match options.backend {
        Some(given) => given == backend,
        None => resolve_default.ensures((), Ok::<ConPtyBackend, BackendError>(backend)),
    }
}

/// Whether the outcomes are those of building with `options`: the backend that
/// was given or else selected, then the pipes, then the console, each as far as
/// the ones before succeeded.
pub open spec fn steps_agree<
    R: FnOnce() -> core::result::Result<ConPtyBackend, BackendError>,
    P: FnOnce() -> core::result::Result<(), IoError>,
    C: FnOnce(&ConPtyBackend, Size, u32) -> core::result::Result<isize, IoError>,
>(
    options: PtyOptions,
    resolve_default: R,
    make_pipes: P,
    create: C,
    selected: core::result::Result<ConPtyBackend, BackendError>,
    pipes: core::result::Result<(), IoError>,
    created: core::result::Result<isize, IoError>,
) -> bool {
    &&& match options.backend {
        Some(backend) => selected == Ok::<ConPtyBackend, BackendError>(backend),
        None => resolve_default.ensures((), selected),
    }
    &&& selected is Ok ==> make_pipes.ensures((), pipes)
    &&& selected is Ok && pipes is Ok ==> create.ensures(
        (&selected->Ok_0, options.size, flags_of(options)),
        created,
    )
}

/// Why an asynchronous session cannot be built outside a runtime.
pub const NO_RUNTIME: &'static str =
    "an async Pty must be built from within a Tokio runtime: its pipes are registered with the runtime's I/O driver";

/// Decides whether the pipes of an asynchronous session may be made. It is asked
/// before any resource exists, so that a call outside a runtime fails cleanly.
///
/// # Errors
///
/// [`IoErrorKind::Other`] if and only if there is no runtime.
pub fn check_runtime(in_runtime: bool) -> (checked: core::result::Result<(), IoError>)
    ensures
        checked is Ok <==> in_runtime,
        checked is Err ==> {
            &&& checked->Err_0.kind == IoErrorKind::Other
            &&& checked->Err_0.code == None::<i32>
            &&& checked->Err_0.message@ == NO_RUNTIME@
            &&& checked->Err_0.message@
                == "an async Pty must be built from within a Tokio runtime: its pipes are registered with the runtime's I/O driver"@
            &&& checked->Err_0.inner == None::<Box<IoError>>
        },
{
    if in_runtime {
        Ok(())
    } else {
        Err(IoError::other(NO_RUNTIME))
    }
}

/// A read is the end of the output exactly where it gave nothing or failed by a
/// disconnect.
pub proof fn output_ends_with_an_empty_read_or_a_disconnect(read: usize, err: IoError)
    ensures
        is_eof(Ok(read)) <==> read == 0,
        is_eof(Err(err)) <==> err.is_disconnect(),
{
}

/// Input to a closed end is a broken pipe, and says so in the words given.
pub proof fn closed_input_is_a_broken_pipe(err: IoError, message: Seq<char>)
    requires
        input_closed(err, message),
    ensures
        err.kind == IoErrorKind::BrokenPipe,
        err.code is None,
        err.message@ == message,
        err.inner is None,
{
}

/// A console inherits the cursor exactly where that was asked for.
pub proof fn flags_show_the_cursor(options: PtyOptions)
    ensures
        options.inherit_cursor ==> flags_of(options) == 1,
        !options.inherit_cursor ==> flags_of(options) == 0,
{
}

/// A new session has both of its streams open and hosts nothing yet; its console
/// is the one that was created, on the backend that was selected and with the size
/// that was asked for, neither released nor closed.
pub proof fn new_sessions_are_open(
    pty: Pty,
    options: PtyOptions,
    backend: ConPtyBackend,
    hpcon: isize,
)
    requires
        freshly_built(pty, options, backend, hpcon),
    ensures
        pty.reader.spec_open(),
        !pty.reader.spec_saw_eof(),
        pty.writer.spec_open(),
        pty.session@.console.size == options.size,
        !pty.session@.console.released,
        !pty.session@.console.release_failed,
        pty.session@.console.reader == ReaderState::Open,
        pty.session@.console.close == CloseState::NotRequested,
        pty.session@.eof_on_root_exit == options.eof_on_root_exit,
        !pty.session@.spawned,
        !pty.session@.attached,
        pty.session.spec_console().spec_backend() == backend,
        pty.session.spec_console().spec_hpcon() == hpcon,
{
}

/// A session is built on the backend that was given; only where none was, on the
/// one that automatic selection may return.
pub proof fn given_backends_are_used<
    R: FnOnce() -> core::result::Result<ConPtyBackend, BackendError>,
>(options: PtyOptions, resolve_default: R, backend: ConPtyBackend)
    requires
        may_select(options, resolve_default, backend),
    ensures
        options.backend matches Some(given) ==> backend == given,
        options.backend is None ==> resolve_default.ensures(
            (),
            Ok::<ConPtyBackend, BackendError>(backend),
        ),
{
}

/// The steps of a build follow each other: a backend that was given is taken as it
/// is, pipes are made only for a backend, and a console is created only with both,
/// on that backend, with the size and the cursor that were asked for.
pub proof fn steps_follow_each_other<
    R: FnOnce() -> core::result::Result<ConPtyBackend, BackendError>,
    P: FnOnce() -> core::result::Result<(), IoError>,
    C: FnOnce(&ConPtyBackend, Size, u32) -> core::result::Result<isize, IoError>,
>(
    options: PtyOptions,
    resolve_default: R,
    make_pipes: P,
    create: C,
    selected: core::result::Result<ConPtyBackend, BackendError>,
    pipes: core::result::Result<(), IoError>,
    created: core::result::Result<isize, IoError>,
)
    requires
        steps_agree(options, resolve_default, make_pipes, create, selected, pipes, created),
    ensures
        options.backend matches Some(given) ==> selected == Ok::<ConPtyBackend, BackendError>(
            given,
        ),
        options.backend is None ==> resolve_default.ensures((), selected),
        selected is Ok ==> make_pipes.ensures((), pipes),
        selected is Ok && pipes is Ok ==> create.ensures(
            (
                &selected->Ok_0,
                options.size,
                if options.inherit_cursor {
                    1u32
                } else {
                    0u32
                },
            ),
            created,
        ),
{
}

/// Options are the same exactly where they ask for the same.
pub proof fn options_are_what_they_ask_for(a: PtyOptions, b: PtyOptions)
    ensures
        a.same(b) <==> {
            &&& a.size == b.size
            &&& a.inherit_cursor == b.inherit_cursor
            &&& a.eof_on_root_exit == b.eof_on_root_exit
            &&& same_choice(a.backend, b.backend)
        },
{
}

} // verus!
