use std::cell::Cell;

use conpty_oxide::backend::exports::NamedExport;
use conpty_oxide::child::log_drop_kill_failure;
use conpty_oxide::collect::{CollectAction, Collector, OutputSink};
use conpty_oxide::command::environment::CaseTable;
use conpty_oxide::diagnostics::LogLevel;
use conpty_oxide::io_error::{IoError, IoErrorKind};
use conpty_oxide::pseudocon::{
    CloseAction, ConsoleShared, DetachedClaim, DetachedStep, FinalClose,
};
use conpty_oxide::pty::{
    check_runtime, conout_error_as_eof, notify_eof_once, ConinWriter, ConoutReader, ReadStep,
};
use conpty_oxide::session::{
    log_release_failure, log_spawn_cleanup_failure, should_close_legacy_on_root_exit,
    ConsoleSession, RootChild, CLEAR_FEATURE, KILL_EXIT_CODE,
};
use conpty_oxide::wide::WideString;
use conpty_oxide::{
    BackendError, BackendKind, Child, Command, ConPtyBackend, Error, ErrorKind, ExitStatus, Pty,
    PtyBuilder, SessionOptions, SessionOutput, Size,
};

fn export(name: &str, address: usize) -> NamedExport {
    let mut name = name.as_bytes().to_vec();
    name.push(0);
    NamedExport { name, address }
}

fn exports() -> Vec<NamedExport> {
    vec![
        export("CreatePseudoConsole", 0x1000),
        export("ResizePseudoConsole", 0x2000),
        export("ClosePseudoConsole", 0x3000),
        export("ReleasePseudoConsole", 0x4000),
    ]
}

fn system() -> ConPtyBackend {
    ConPtyBackend::system(Some(&exports()), true, &mut Vec::new()).unwrap()
}

fn clearing() -> ConPtyBackend {
    let mut exports = exports();
    exports.push(export("ClearPseudoConsole", 0x5000));
    ConPtyBackend::system(Some(&exports), true, &mut Vec::new()).unwrap()
}

fn wide(text: &str) -> WideString {
    WideString::from_text(text)
}

fn size(rows: u16, cols: u16) -> Size {
    Size::try_new(rows, cols).unwrap()
}

fn build(builder: PtyBuilder) -> Result<Pty, Error> {
    builder.build(|| Ok(system()), || Ok(()), |_, _, _| Ok(0x77))
}

fn pty() -> Pty {
    build(Pty::builder()).unwrap()
}

fn legacy_pty() -> Pty {
    build(Pty::builder().backend(system().without_release())).unwrap()
}

// Spawns a root child whose creation, release and watcher all succeed.
fn spawn(session: &mut ConsoleSession, kill_on_drop: bool) -> Result<RootChild, Error> {
    let mut log = Vec::new();
    let reserved = session.spawn_root(wide("cmd.exe"), kill_on_drop)?;
    let created = reserved.created(session, Ok(4321))?;
    let released = created.released(
        session,
        |hpcon| {
            assert_eq!(hpcon, 0x77);
            Ok(())
        },
        &mut log,
    );
    assert!(log.is_empty());
    Ok(released.watched(Ok(())).expect("the watcher is armed"))
}

fn resize(session: &mut ConsoleSession, size: Size) -> Result<(), Error> {
    session.resize(size, |hpcon, resized| {
        assert_eq!(hpcon, 0x77);
        assert_eq!(resized, size);
        Ok(())
    })
}

fn clear(session: &ConsoleSession) -> Result<(), Error> {
    session.clear(|hpcon| {
        assert_eq!(hpcon, 0x77);
        Ok(())
    })
}

#[test]
fn builder_defaults_to_24_by_80_with_automatic_backend_selection() {
    let resolved = Cell::new(0);
    let pty = Pty::builder()
        .build(
            || {
                resolved.set(resolved.get() + 1);
                Ok(system())
            },
            || Ok(()),
            |backend, size, flags| {
                assert_eq!(backend.kind(), &BackendKind::System);
                assert_eq!(size, Size::default());
                assert_eq!(flags, 0);
                Ok(0x77)
            },
        )
        .unwrap();
    assert_eq!(resolved.get(), 1);
    assert_eq!(pty.session.size(), Size::default());
    assert_eq!(pty.session.backend_kind(), system().kind());
}

#[test]
fn mod_tests_builder_honours_an_explicit_size_and_backend() {
    let pty = Pty::builder()
        .size(size(50, 132))
        .backend(system())
        .inherit_cursor(false)
        .eof_on_root_exit(true)
        .build(
            || panic!("a backend was given"),
            || Ok(()),
            |_, size, _| {
                assert_eq!((size.rows(), size.cols()), (50, 132));
                Ok(0x77)
            },
        )
        .expect("building must succeed");
    assert_eq!(pty.session.size(), size(50, 132));
}

#[test]
fn building_fails_with_the_first_step_that_fails() {
    let err = Pty::builder()
        .build(
            || Err(BackendError::unsupported()),
            || panic!("no pipes without a backend"),
            |_, _, _| panic!("no console without a backend"),
        )
        .unwrap_err();
    assert_eq!(err.kind(), ErrorKind::Backend);

    let err = Pty::builder()
        .build(
            || Ok(system()),
            || Err(IoError::other("no pipes")),
            |_, _, _| panic!("no console without pipes"),
        )
        .unwrap_err();
    assert_eq!(err.kind(), ErrorKind::CreateConsole);

    let err = Pty::builder()
        .inherit_cursor(true)
        .build(
            || Ok(system()),
            || Ok(()),
            |_, _, flags| {
                assert_eq!(flags, 1);
                Err(IoError::other("no console"))
            },
        )
        .unwrap_err();
    assert_eq!(err.kind(), ErrorKind::CreateConsole);
    assert_eq!(err.io_error().unwrap().message, "no console");
}

#[test]
fn building_outside_a_runtime_is_an_error() {
    let err = Pty::builder()
        .build(
            || Ok(system()),
            || check_runtime(false),
            |_, _, _| panic!("nothing may be created outside a runtime"),
        )
        .expect_err("building without a runtime must fail");
    assert_eq!(err.kind(), ErrorKind::CreateConsole);
    let source = err.io_error().expect("the cause is kept");
    assert!(
        source.message.contains("Tokio runtime"),
        "the error must name the cause, got: {source:?}"
    );
    assert!(check_runtime(true).is_ok());
}

#[test]
fn mod_tests_supports_release_matches_the_backend() {
    let backend = system();
    let expected = backend.supports_release();
    let pty = build(Pty::builder().backend(backend)).expect("building must succeed");
    assert_eq!(pty.session.supports_release(), expected);

    // The query reflects the session's own backend, not the machine.
    assert!(!legacy_pty().session.supports_release());
}

#[test]
fn dropping_the_reader_notifies_the_lifecycle_core() {
    let mut pty = pty();
    assert!(!pty.session.reader_finished());
    assert_eq!(
        pty.reader.close(pty.session.console_mut()),
        CloseAction::Nothing
    );
    assert!(pty.session.reader_finished());
    assert_eq!(pty.reader.begin_read(16), ReadStep::Nothing);
}

#[test]
fn mod_tests_resize_updates_the_reported_size() {
    let mut pty = pty();
    resize(&mut pty.session, size(40, 120)).expect("resize must succeed");
    assert_eq!(pty.session.size(), size(40, 120));
    resize(&mut pty.session, Size::default()).expect("resize must succeed");
    assert_eq!(pty.session.size(), Size::default());
    assert_eq!(pty.session.backend_kind(), &BackendKind::System);
}

#[test]
fn a_failed_resize_keeps_the_size() {
    let mut pty = pty();
    let err = pty
        .session
        .resize(size(40, 120), |_, _| {
            Err(IoError::from_os(
                87,
                IoErrorKind::InvalidInput,
                "The parameter is incorrect.",
            ))
        })
        .unwrap_err();
    assert_eq!(err.kind(), ErrorKind::Resize);
    assert_eq!(err.io_error().unwrap().raw_os_error(), Some(87));
    assert_eq!(pty.session.size(), Size::default());
}

#[test]
fn mod_tests_clear_agrees_with_the_reported_capability() {
    for backend in [system(), clearing()] {
        let pty = build(Pty::builder().backend(backend)).unwrap();
        let supported = pty.session.supports_clear();
        match clear(&pty.session) {
            Ok(()) => assert!(supported, "clear succeeded without a clear export"),
            Err(err) if err.kind() == ErrorKind::UnsupportedFeature => {
                assert!(!supported, "clear refused although the export is present");
                assert!(err.to_string().contains(CLEAR_FEATURE));
            }
            Err(other) => panic!("unexpected error: {other:?}"),
        }
    }
}

#[test]
fn a_missing_capability_is_reported_before_a_closed_console() {
    let mut without = pty();
    assert_eq!(
        without.session.console_mut().request_close(),
        CloseAction::Close
    );
    assert_eq!(
        without
            .session
            .clear(|_| panic!("the export is missing"))
            .unwrap_err()
            .kind(),
        ErrorKind::UnsupportedFeature
    );

    let mut with = build(Pty::builder().backend(clearing())).unwrap();
    assert_eq!(
        with.session.console_mut().request_close(),
        CloseAction::Close
    );
    let err = with
        .session
        .clear(|_| panic!("the console is closed"))
        .unwrap_err();
    assert_eq!(err.kind(), ErrorKind::Clear);
    assert_eq!(err.io_error().unwrap().kind(), IoErrorKind::NotConnected);
}

fn assert_resize_after_session_end_is_not_connected(mut pty: Pty) {
    spawn(&mut pty.session, false).expect("spawning must succeed");
    // End-of-file proves the session is over.
    let (read, action) = pty.reader.finish_read(pty.session.console_mut(), Ok(0));
    assert_eq!(read.unwrap(), 0);
    assert_eq!(action, CloseAction::Close);

    let err = resize(&mut pty.session, size(30, 100))
        .expect_err("resizing a finished session must fail");
    assert_eq!(err.kind(), ErrorKind::Resize);
    let source = err.io_error().expect("resize errors carry an I/O error");
    assert_eq!(
        source.kind(),
        IoErrorKind::NotConnected,
        "a finished session must report NotConnected on every backend, got: {source:?}"
    );
}

#[test]
fn mod_tests_resize_after_the_session_ends_reports_not_connected() {
    assert_resize_after_session_end_is_not_connected(pty());
}

#[test]
fn mod_tests_forced_legacy_resize_after_the_session_ends_reports_not_connected() {
    assert_resize_after_session_end_is_not_connected(legacy_pty());
}

#[test]
fn a_host_that_is_gone_reports_not_connected() {
    let mut pty = pty();
    let err = pty
        .session
        .resize(size(30, 100), |_, _| {
            Err(IoError::from_os(
                109,
                IoErrorKind::BrokenPipe,
                "The pipe has been ended.",
            ))
        })
        .unwrap_err();
    assert_eq!(err.kind(), ErrorKind::Resize);
    assert_eq!(err.io_error().unwrap().kind(), IoErrorKind::NotConnected);
}

#[test]
fn mod_tests_exit_code_is_reported_verbatim() {
    let mut pty = pty();
    let mut child = Child::from_root(spawn(&mut pty.session, false).unwrap());
    let status = child.wait(|| Ok(7)).unwrap();
    assert_eq!(status.code(), 7);
    assert!(!status.success());
}

#[test]
fn mod_tests_kill_terminates_the_tree_and_reports_a_status() {
    let mut pty = pty();
    let mut child = Child::from_root(spawn(&mut pty.session, false).unwrap());

    assert_ne!(child.id(), 0, "a spawned child must have a pid");
    assert!(
        child
            .try_wait(|| Ok(None))
            .expect("polling must succeed")
            .is_none(),
        "a blocked child must not report a status yet"
    );

    let exit = Cell::new(0);
    let terminate = |code: u32| {
        exit.set(code);
        Ok(())
    };
    child.kill(terminate).expect("kill must succeed");
    let status = child.wait(|| Ok(exit.get())).expect("waiting must succeed");
    assert_eq!(status.code(), KILL_EXIT_CODE);
    // A second kill of a dead tree is a documented no-op.
    child
        .kill(terminate)
        .expect("killing a dead tree must succeed");
    assert_eq!(
        child.wait(|| panic!("the status must be cached, not re-read")).unwrap(),
        status
    );

    let err = child.kill(|_| Err(IoError::other("denied"))).unwrap_err();
    assert_eq!(err.kind(), ErrorKind::Kill);
}

#[test]
fn mod_tests_wait_is_repeatable_and_matches_try_wait() {
    let mut child = Child::from_root(RootChild {
        pid: 1,
        kill_on_drop: false,
    });
    let first = child.wait(|| Ok(5)).expect("waiting must succeed");
    assert_eq!(
        child
            .wait(|| panic!("the status is known"))
            .expect("waiting again must succeed"),
        first
    );
    assert_eq!(
        child
            .try_wait(|| panic!("the status is known"))
            .expect("polling must succeed"),
        Some(first)
    );
    assert_eq!(first.code(), 5);
}

#[test]
fn try_wait_observes_exit_and_populates_the_status_cache() {
    let mut child = Child::from_root(RootChild {
        pid: 1,
        kill_on_drop: false,
    });
    assert_eq!(child.try_wait(|| Ok(None)).unwrap(), None);
    assert_eq!(child.status(), None);
    let status = child.try_wait(|| Ok(Some(37))).unwrap().unwrap();
    assert_eq!(status.code(), 37);
    assert_eq!(
        child.try_wait(|| panic!("the status is known")).unwrap(),
        Some(status)
    );
    assert_eq!(
        child.wait(|| panic!("the status is known")).unwrap(),
        status,
        "wait must return try_wait's cached status"
    );
}

#[test]
fn a_failed_wait_is_not_remembered() {
    let mut child = Child::from_root(RootChild {
        pid: 1,
        kill_on_drop: false,
    });
    let err = child.wait(|| Err(IoError::other("denied"))).unwrap_err();
    assert_eq!(err.kind(), ErrorKind::Wait);
    let err = child.try_wait(|| Err(IoError::other("denied"))).unwrap_err();
    assert_eq!(err.kind(), ErrorKind::Wait);
    assert_eq!(child.wait(|| Ok(3)).unwrap().code(), 3);
}

#[test]
fn mod_tests_kill_on_drop_terminates_the_tree() {
    let mut first = pty();
    let child = Child::from_root(spawn(&mut first.session, true).unwrap());
    assert_eq!(
        child.kill_on_drop_code(),
        Some(KILL_EXIT_CODE),
        "dropping a kill-on-drop child must terminate the tree"
    );
    let mut second = pty();
    let child = Child::from_root(spawn(&mut second.session, false).unwrap());
    assert_eq!(child.kill_on_drop_code(), None);
}

#[test]
fn drop_kill_failure_is_logged() {
    let mut events = Vec::new();
    events.push(log_drop_kill_failure(&IoError::other(
        "injected kill failure",
    )));
    assert_eq!(events.len(), 1);
    assert_eq!(events[0].level, LogLevel::Error);
    assert_eq!(events[0].fields[0].value, "injected kill failure");
}

#[test]
fn mod_tests_a_second_spawn_into_the_same_pty_is_rejected() {
    let mut pty = pty();
    spawn(&mut pty.session, false).expect("the first spawn must succeed");

    let err = spawn(&mut pty.session, false).expect_err("a second spawn must be rejected");
    assert_eq!(err.kind(), ErrorKind::Spawn);
    assert_eq!(
        err.io_error()
            .expect("spawn errors carry an I/O error")
            .kind(),
        IoErrorKind::AlreadyExists
    );
}

#[test]
fn mod_tests_a_failed_spawn_leaves_the_session_reusable() {
    let mut pty = pty();
    let err = pty
        .session
        .spawn_root(wide("conpty-oxide-no-such-program.exe"), false)
        .unwrap()
        .created(
            &mut pty.session,
            Err(IoError::from_os(2, IoErrorKind::NotFound, "not found")),
        )
        .expect_err("spawning a missing program must fail");
    assert_eq!(err.kind(), ErrorKind::Spawn);
    assert!(err.to_string().contains("conpty-oxide-no-such-program.exe"));
    assert_eq!(
        err.io_error()
            .expect("spawn errors carry an I/O error")
            .kind(),
        IoErrorKind::NotFound
    );

    // The failed attempt attached nothing, so the session is still good for a
    // real child.
    assert!(spawn(&mut pty.session, false).is_ok());
}

#[test]
fn an_unbuildable_command_line_is_rejected() {
    let mut pty = pty();
    let mut command = Command::new(wide("cmd.exe"));
    command.arg(wide("embedded\0nul"));
    let reserved = pty
        .session
        .spawn_root(command.get_program().clone(), command.get_kill_on_drop())
        .unwrap();
    let source = command
        .build_command_line()
        .expect_err("an unbuildable command line must fail");
    let err = reserved
        .created(&mut pty.session, Err(source))
        .expect_err("an unbuildable command line must fail");
    assert_eq!(err.kind(), ErrorKind::Spawn);
    assert_eq!(
        err.io_error()
            .expect("spawn errors carry an I/O error")
            .kind(),
        IoErrorKind::InvalidInput
    );
}

#[test]
fn spawn_rejects_a_command_line_it_cannot_build() {
    let mut command = Command::new(wide("cmd.exe"));
    command.arg(wide("embedded\0nul"));
    assert!(command
        .build_environment_block(&[], &CaseTable::ascii())
        .unwrap()
        .is_none());
    let err = command
        .build_command_line()
        .expect_err("an unbuildable command line must fail");
    assert_eq!(err.kind(), IoErrorKind::InvalidInput);
}

#[test]
fn mod_tests_reading_an_empty_buffer_is_not_end_of_file() {
    let mut pty = pty();
    assert_eq!(pty.reader.begin_read(0), ReadStep::Nothing);
    assert_eq!(pty.reader.begin_read(1), ReadStep::Read);
    // A zero-length read must not have reported end-of-file, so the session is
    // still open and still resizable.
    resize(&mut pty.session, size(30, 100)).expect("the session must still be open");
}

#[test]
fn a_read_reports_end_of_file_once() {
    let mut console = ConsoleShared::new(system(), Size::default(), 0x77);
    let mut reader = ConoutReader::new();
    let (read, action) = reader.finish_read(&mut console, Ok(12));
    assert_eq!((read.unwrap(), action), (12, CloseAction::Nothing));

    let (read, action) = reader.finish_read(&mut console, Err(IoError::other("denied")));
    assert_eq!(read.unwrap_err().message, "denied");
    assert_eq!(action, CloseAction::Nothing);
    assert!(!console.reader_finished());

    let broken = || IoError::from_os(109, IoErrorKind::BrokenPipe, "ended");
    let (read, action) = reader.finish_read(&mut console, Err(broken()));
    assert_eq!((read.unwrap(), action), (0, CloseAction::Close));
    assert!(console.reader_finished());
    let (read, action) = reader.finish_read(&mut console, Err(broken()));
    assert_eq!((read.unwrap(), action), (0, CloseAction::Nothing));
}

#[test]
fn a_pending_read_reports_nothing() {
    let mut console = ConsoleShared::new(system(), Size::default(), 0x77);
    let mut reader = ConoutReader::new();
    let (read, action) = reader.finish_poll_read(&mut console, None);
    assert!(read.is_none());
    assert_eq!(action, CloseAction::Nothing);
    let (read, action) = reader.finish_poll_read(&mut console, Some(Ok(0)));
    assert_eq!(read.unwrap().unwrap(), 0);
    assert_eq!(action, CloseAction::Close);
}

#[test]
fn dropping_the_write_half_terminates_the_child() {
    let mut pty = pty();
    spawn(&mut pty.session, false).unwrap();
    // A released console defers the close to the reader, which still drains.
    assert_eq!(
        pty.writer.close(&mut pty.session),
        Some(DetachedStep::Requested(CloseAction::Nothing))
    );
    assert!(!pty.session.console().is_closed());
    let (_, action) = pty.reader.finish_read(pty.session.console_mut(), Ok(0));
    assert_eq!(action, CloseAction::Close);
}

#[test]
fn dropping_the_write_half_terminates_a_forced_legacy_child() {
    let mut pty = legacy_pty();
    spawn(&mut pty.session, false).unwrap();
    assert_eq!(
        pty.writer.close(&mut pty.session),
        Some(DetachedStep::StartWorker)
    );
    assert!(matches!(
        pty.session.console_mut().claim_detached(),
        DetachedClaim::HandOff(_)
    ));
    assert_eq!(pty.writer.close(&mut pty.session), None);
}

#[test]
fn writer_drop_requests_close_while_the_controller_keeps_the_session_alive() {
    let mut pty = build(
        Pty::builder()
            .backend(system().without_release())
            .eof_on_root_exit(false),
    )
    .expect("building a forced-legacy pty must succeed");
    spawn(&mut pty.session, true).expect("spawning must succeed");

    assert_eq!(
        pty.reader.close(pty.session.console_mut()),
        CloseAction::Nothing
    );
    assert!(
        !pty.session.console().is_closed(),
        "reader retirement alone must not request pseudoconsole close"
    );
    assert_eq!(
        pty.writer.close(&mut pty.session),
        Some(DetachedStep::StartWorker)
    );
    assert!(matches!(
        pty.session.console_mut().claim_detached(),
        DetachedClaim::HandOff(_)
    ));
    assert!(
        pty.session.console().is_closed(),
        "writer drop must claim pseudoconsole close while the controller keeps it alive"
    );
}

#[test]
fn a_closed_input_is_refused() {
    let mut pty = pty();
    assert!(pty.writer.check_write().is_ok());
    assert!(pty.writer.pipe().is_ok());
    assert_eq!(pty.writer.close(&mut pty.session), None);
    let err = pty.writer.check_write().unwrap_err();
    assert_eq!(
        (err.kind(), err.message.as_str()),
        (IoErrorKind::BrokenPipe, "input is closed")
    );
    let err = pty.writer.pipe().unwrap_err();
    assert_eq!(
        (err.kind(), err.message.as_str()),
        (
            IoErrorKind::BrokenPipe,
            "the pseudoconsole input pipe has been shut down"
        )
    );
    assert!(ConinWriter::new().check_write().is_ok());
}

#[test]
fn eof_notification_runs_exactly_once() {
    let mut saw_eof = false;
    let notifications = Cell::new(0);
    if notify_eof_once(&mut saw_eof) {
        notifications.set(notifications.get() + 1);
    }
    if notify_eof_once(&mut saw_eof) {
        notifications.set(notifications.get() + 1);
    }
    assert!(saw_eof);
    assert_eq!(notifications.get(), 1);
}

#[test]
fn only_disconnect_errors_become_eof() {
    assert!(conout_error_as_eof(IoError::new(IoErrorKind::BrokenPipe, "closed")).is_ok());
    let err = conout_error_as_eof(IoError::new(IoErrorKind::PermissionDenied, "denied"))
        .expect_err("an unrelated I/O failure must not become EOF");
    assert_eq!(err.kind(), IoErrorKind::PermissionDenied);
}

#[test]
fn mod_tests_a_session_without_the_eof_watcher_still_tears_down() {
    let mut pty = build(
        Pty::builder()
            .backend(system().without_release())
            .eof_on_root_exit(false),
    )
    .expect("building must succeed");
    let mut child = Child::from_root(spawn(&mut pty.session, false).unwrap());
    assert!(child.wait(|| Ok(0)).unwrap().success());
    assert_eq!(
        pty.session.console_mut().final_close(),
        FinalClose::Detached
    );
}

#[test]
fn mod_tests_the_controller_keeps_an_idle_session_alive() {
    let mut pty = pty();
    assert_eq!(
        pty.reader.close(pty.session.console_mut()),
        CloseAction::Nothing
    );
    assert_eq!(pty.writer.close(&mut pty.session), None);
    resize(&mut pty.session, size(30, 100))
        .expect("a session with a live controller must still resize");
    assert_eq!(pty.session.size(), size(30, 100));
}

#[test]
fn mod_tests_dropping_the_parts_in_any_order_completes() {
    let mut first = pty();
    assert_eq!(first.writer.close(&mut first.session), None);
    assert_eq!(
        first.reader.close(first.session.console_mut()),
        CloseAction::Nothing
    );
    assert_eq!(
        first.session.console_mut().final_close(),
        FinalClose::Detached
    );

    let mut second = pty();
    spawn(&mut second.session, false).unwrap();
    assert_eq!(
        second.reader.close(second.session.console_mut()),
        CloseAction::Nothing
    );
    assert_eq!(
        second.writer.close(&mut second.session),
        Some(DetachedStep::Requested(CloseAction::Close))
    );
    assert_eq!(
        second.session.console_mut().final_close(),
        FinalClose::Nothing
    );
}

#[test]
fn legacy_close_requires_both_legacy_mode_and_eof_policy() {
    assert!(should_close_legacy_on_root_exit(false, true));
    assert!(!should_close_legacy_on_root_exit(false, false));
    assert!(!should_close_legacy_on_root_exit(true, true));
    assert!(!should_close_legacy_on_root_exit(true, false));
}

#[test]
fn input_retirement_requests_close_only_after_a_child_attaches() {
    let mut session = ConsoleSession::new(
        ConsoleShared::new(system(), Size::default(), 0x77),
        true,
    );
    assert_eq!(
        session.console_mut().notify_reader_closed(),
        CloseAction::Nothing
    );

    assert_eq!(session.request_close_after_input(), None);
    assert!(
        !session.console().is_closed(),
        "an idle session must stay usable when its writer is dropped"
    );

    spawn(&mut session, false).unwrap();
    assert_eq!(
        session.request_close_after_input(),
        Some(DetachedStep::Requested(CloseAction::Close))
    );
    assert!(
        session.console().is_closed(),
        "input retirement after attachment must claim pseudoconsole close"
    );
}

#[test]
fn watcher_handle_duplication_failure_retires_and_kills_the_tree() {
    let mut log = Vec::new();
    let mut session = ConsoleSession::new(
        ConsoleShared::new(system().without_release(), Size::default(), 0x77),
        true,
    );
    let created = session
        .spawn_root(wide("cmd.exe"), false)
        .unwrap()
        .created(&mut session, Ok(4321))
        .unwrap();
    let released = created.released(
        &mut session,
        |_| panic!("the export is missing"),
        &mut log,
    );
    assert!(released.close_legacy());
    let unwatched = released
        .watched(Err(IoError::other(
            "injected watcher handle duplication failure",
        )))
        .expect_err("watcher handle duplication failure must fail the spawn");
    let (error, step) = unwatched.retired(&mut session, Err(IoError::other("denied")), &mut log);
    assert_eq!(error.kind(), ErrorKind::Spawn);
    assert_eq!(
        error.io_error().map(IoError::kind),
        Some(IoErrorKind::Other)
    );
    assert!(error
        .io_error()
        .is_some_and(|source| source.message.contains("injected watcher")));
    assert_eq!(step, DetachedStep::StartWorker);
    assert_eq!(log.len(), 1);
    assert_eq!(log[0].fields[0].value, "denied");

    let reused = spawn(&mut session, false)
        .expect_err("a post-creation failure must retire the pseudoconsole");
    assert_eq!(reused.kind(), ErrorKind::Spawn);
    assert_eq!(
        reused.io_error().map(IoError::kind),
        Some(IoErrorKind::AlreadyExists)
    );
}

#[test]
fn lifecycle_fallback_failures_are_logged() {
    let error = IoError::other("injected lifecycle failure");
    let events = vec![
        log_release_failure(&error),
        log_spawn_cleanup_failure(&error),
    ];
    assert_eq!(events.len(), 2);
    assert_eq!(events[0].level, LogLevel::Warn);
    assert_eq!(events[1].level, LogLevel::Error);
    for event in &events {
        assert_eq!(event.fields[0].value, "injected lifecycle failure");
    }
}

#[test]
fn a_failed_release_is_logged_and_falls_back() {
    let mut log = Vec::new();
    let mut session = ConsoleSession::new(
        ConsoleShared::new(system(), Size::default(), 0x77),
        true,
    );
    let created = session
        .spawn_root(wide("cmd.exe"), false)
        .unwrap()
        .created(&mut session, Ok(4321))
        .unwrap();
    let released = created.released(
        &mut session,
        |_| Err(IoError::other("denied")),
        &mut log,
    );
    assert!(released.close_legacy());
    assert!(session.console().release_failed());
    assert_eq!(log.len(), 1);
}

#[test]
fn session_options_default_to_24_by_80() {
    let (size, backend) = SessionOptions::default().into_parts();
    assert_eq!(size, Size::default());
    assert!(backend.is_none());
    let (size, backend) = SessionOptions::new()
        .size(Size::try_new(50, 132).unwrap())
        .backend(system())
        .into_parts();
    assert_eq!(size.rows(), 50);
    assert_eq!(backend.unwrap().kind(), &BackendKind::System);
}

#[test]
fn session_output_gives_back_what_it_holds() {
    let output = SessionOutput::new(ExitStatus::from_raw(23), b"tail".to_vec());
    assert_eq!(output.status().code(), 23);
    assert_eq!(output.as_bytes(), b"tail");
    assert_eq!(output.into_bytes(), b"tail".to_vec());
}

// Collects from a root that exits with `code` after `polls` fruitless polls, of
// a reader that is done after `waits` fruitless waits, and records the actions.
fn collect(polls: u32, code: u32, waits: u32) -> (Result<SessionOutput, Error>, String) {
    let mut collector = Collector::new();
    let mut trace = String::new();
    let (mut polled, mut waited) = (0, 0);
    loop {
        collector = match collector.action() {
            CollectAction::PollChild => {
                trace.push('p');
                polled += 1;
                if polled > polls {
                    collector.polled(Ok(Some(ExitStatus::from_raw(code))))
                } else {
                    collector.polled(Ok(None))
                }
            }
            CollectAction::AwaitReader => {
                trace.push('a');
                waited += 1;
                collector.reader_waited(waited > waits)
            }
            CollectAction::JoinReader => {
                trace.push('j');
                collector.joined(Ok(b"tail".to_vec()))
            }
            CollectAction::WaitChild => {
                trace.push('w');
                collector.waited(Ok(ExitStatus::from_raw(code)))
            }
            CollectAction::KillTree => {
                trace.push('k');
                collector.killed(Ok(()))
            }
            CollectAction::RetireChild => {
                trace.push('c');
                collector.child_retired()
            }
            CollectAction::RetireInput => {
                trace.push('i');
                collector.input_retired()
            }
            CollectAction::RetireController => {
                trace.push('r');
                collector.controller_retired()
            }
            CollectAction::Finish => return (collector.finish(), trace),
        };
    }
}

#[test]
fn managed_output_keeps_input_open_until_the_real_exit() {
    let (output, trace) = collect(2, 42, 9);
    let output = output.expect("managed output must complete");
    assert_eq!(output.status().code(), 42);
    // The tree is terminated and the input retired only after the status, and
    // the child goes before the input, and the input before the controller.
    assert_eq!(trace, "papapkcirj");
}

#[test]
fn managed_session_try_wait_reports_a_completed_child() {
    let (output, trace) = collect(0, 23, 0);
    let output = output.expect("draining the completed managed session must succeed");
    assert_eq!(output.status().code(), 23);
    assert_eq!(output.as_bytes(), b"tail");
    assert_eq!(trace, "pkcirj");
}

#[test]
fn a_reader_that_ends_first_waits_for_the_root() {
    let (output, trace) = collect(9, 5, 1);
    assert_eq!(output.unwrap().status().code(), 5);
    assert_eq!(trace, "papajwkcir");
}

#[test]
fn a_failed_collection_still_leaves_nothing_behind() {
    // The reader fails: the root's status is given up, and its failure is shown.
    let collector = Collector::new()
        .polled(Ok(None))
        .reader_waited(true)
        .joined(Err(IoError::other("reader")));
    assert_eq!(collector.action(), CollectAction::KillTree);
    let collector = collector
        .killed(Err(Error::kill(IoError::other("kill"))))
        .child_retired()
        .input_retired()
        .controller_retired();
    assert_eq!(collector.action(), CollectAction::Finish);
    let err = collector.finish().unwrap_err();
    assert_eq!(err.kind(), ErrorKind::Io);

    // The poll fails: the output is still drained.
    let collector = Collector::new()
        .polled(Err(Error::wait(IoError::other("poll"))))
        .killed(Ok(()))
        .child_retired()
        .input_retired()
        .controller_retired();
    assert_eq!(collector.action(), CollectAction::JoinReader);
    let err = collector.joined(Ok(Vec::new())).finish().unwrap_err();
    assert_eq!(err.kind(), ErrorKind::Wait);

    // The termination fails: the output is drained, and the failure is shown.
    let err = Collector::new()
        .polled(Ok(Some(ExitStatus::from_raw(0))))
        .killed(Err(Error::kill(IoError::other("kill"))))
        .child_retired()
        .input_retired()
        .controller_retired()
        .joined(Ok(Vec::new()))
        .finish()
        .unwrap_err();
    assert_eq!(err.kind(), ErrorKind::Kill);
}

#[test]
fn output_is_kept_only_where_it_is_collected() {
    let mut kept = OutputSink::new(true);
    kept.accept(b"hello ");
    kept.accept(b"world");
    assert_eq!(kept.into_bytes(), b"hello world");

    let mut discarded = OutputSink::new(false);
    discarded.accept(b"hello world");
    assert!(discarded.into_bytes().is_empty());
}

#[test]
fn a_process_is_attached_only_to_an_open_console() {
    let mut pty = pty();
    let reserved = pty.session.spawn_root(wide("cmd.exe"), false).unwrap();
    assert_eq!(reserved.console_to_attach(&pty.session).unwrap(), 0x77);

    assert_eq!(
        pty.session.console_mut().request_close(),
        CloseAction::Close
    );
    let err = reserved.console_to_attach(&pty.session).unwrap_err();
    assert_eq!(err.kind(), IoErrorKind::NotConnected);
    assert_eq!(err.message, "the pseudoconsole has been closed");
}

#[test]
fn a_known_status_is_not_asked_for_again() {
    let mut child = Child::from_root(RootChild {
        pid: 4321,
        kill_on_drop: false,
    });
    assert_eq!(child.wait(|| Ok(3)).unwrap().code(), 3);
    assert_eq!(
        child.wait(|| panic!("the status is known")).unwrap().code(),
        3
    );
    let status = child.try_wait(|| panic!("the status is known")).unwrap();
    assert_eq!(status.map(|status| status.code()), Some(3));
}

#[test]
fn the_child_of_a_managed_session_never_outlives_its_owner() {
    let mut log = Vec::new();
    let mut pty = pty();
    let root = pty
        .session
        .spawn_managed_root(wide("cmd.exe"))
        .unwrap()
        .created(&mut pty.session, Ok(4321))
        .unwrap()
        .released(&mut pty.session, |_| Ok(()), &mut log)
        .watched(Ok(()))
        .unwrap();
    assert!(root.kill_on_drop);
    assert_eq!(
        Child::from_root(root).kill_on_drop_code(),
        Some(KILL_EXIT_CODE)
    );
    let err = pty
        .session
        .spawn_managed_root(wide("cmd.exe"))
        .unwrap_err();
    assert_eq!(err.io_error().unwrap().kind(), IoErrorKind::AlreadyExists);
}

#[test]
fn clones_hold_the_same_settings() {
    let options = SessionOptions::new().size(size(50, 132)).backend(system());
    let (cloned_size, backend) = options.clone().into_parts();
    assert_eq!(cloned_size, size(50, 132));
    assert_eq!(backend.unwrap().kind(), system().kind());

    let builder = Pty::builder()
        .size(size(40, 100))
        .inherit_cursor(true)
        .eof_on_root_exit(false);
    let options = builder.clone().into_options();
    assert_eq!(options.size, size(40, 100));
    assert!(options.backend.is_none());
    assert!(options.inherit_cursor);
    assert!(!options.eof_on_root_exit);
    assert_eq!(PtyBuilder::default().into_options().size, Size::default());
}
