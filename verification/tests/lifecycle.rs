use conpty_oxide::backend::exports::NamedExport;
use conpty_oxide::diagnostics::LogLevel;
use conpty_oxide::io_error::{IoError, IoErrorKind};
use conpty_oxide::pseudocon::{
    create_flags, log_close_worker_spawn_failure, normalize_session_end, CloseAction,
    CloseClaim, ConsoleShared, DetachedClaim, DetachedStep, FinalClose,
};
use conpty_oxide::{ConPtyBackend, Size};

fn export(name: &str, address: usize) -> NamedExport {
    let mut name = name.as_bytes().to_vec();
    name.push(0);
    NamedExport { name, address }
}

fn backend() -> ConPtyBackend {
    let exports = vec![
        export("CreatePseudoConsole", 0x1000),
        export("ResizePseudoConsole", 0x2000),
        export("ClosePseudoConsole", 0x3000),
        export("ReleasePseudoConsole", 0x4000),
    ];
    ConPtyBackend::system(Some(&exports), true, &mut Vec::new()).unwrap()
}

fn legacy() -> ConPtyBackend {
    backend().without_release()
}

fn size(rows: u16, cols: u16) -> Size {
    Size::try_new(rows, cols).unwrap()
}

fn console(backend: ConPtyBackend) -> ConsoleShared {
    ConsoleShared::new(backend, Size::default(), 0x77)
}

fn released() -> ConsoleShared {
    let mut console = console(backend());
    assert!(console
        .release_after_spawn(|hpcon| {
            assert_eq!(hpcon, 0x77);
            Ok(())
        })
        .expect("ReleasePseudoConsole must succeed"));
    console
}

fn resize(console: &mut ConsoleShared, size: Size) -> Result<(), IoError> {
    console.resize(size, |hpcon, resized| {
        assert_eq!(hpcon, 0x77);
        assert_eq!(resized, size);
        Ok(())
    })
}

fn clear(console: &ConsoleShared) -> Result<(), IoError> {
    console.clear(|hpcon| {
        assert_eq!(hpcon, 0x77);
        Ok(())
    })
}

#[test]
fn create_yields_a_live_console() {
    let console = console(backend());
    assert_ne!(console.hpcon(), 0);
    assert!(!console.is_released());
    assert!(!console.is_closed());
    assert!(!console.release_failed());
    assert_eq!(console.size(), Size::default());
}

#[test]
fn resize_succeeds_while_open_and_fails_after_close() {
    let mut console = console(backend());
    resize(&mut console, size(50, 132)).expect("resize on a live console must succeed");

    // Retire the reader, then close.
    assert_eq!(console.notify_reader_closed(), CloseAction::Nothing);
    assert_eq!(console.request_close(), CloseAction::Close);
    assert!(console.is_closed());

    let err = resize(&mut console, size(30, 100)).expect_err("resize after close must fail");
    assert_eq!(err.kind(), IoErrorKind::NotConnected);
    assert_eq!(console.size(), size(50, 132));
}

#[test]
fn clear_matches_the_backend_capability_and_fails_after_close() {
    let backend = backend();
    let supported = backend.supports_clear();
    let mut console = console(backend);

    match clear(&console) {
        Ok(()) => assert!(supported, "clear succeeded without a clear export"),
        Err(err) if err.kind() == IoErrorKind::Unsupported => {
            assert!(!supported, "clear refused although the export is present");
        }
        Err(err) => panic!("unexpected error: {err:?}"),
    }

    // Retire the reader, then close.
    assert_eq!(console.notify_reader_closed(), CloseAction::Nothing);
    assert_eq!(console.request_close(), CloseAction::Close);
    assert!(console.is_closed());

    let err = clear(&console).expect_err("clear after close must fail");
    assert_eq!(err.kind(), IoErrorKind::NotConnected);
}

#[test]
fn drop_console_before_user_pipe_ends() {
    assert_eq!(
        console(backend()).final_close(),
        FinalClose::Detached,
        "an open legacy reader requires the detached close path"
    );
}

#[test]
fn final_defense_detaches_legacy_close_until_reader_eof() {
    let mut open = console(legacy());
    assert_eq!(open.final_close(), FinalClose::Detached);

    let mut closed = console(legacy());
    assert_eq!(closed.notify_reader_closed(), CloseAction::Nothing);
    assert_eq!(closed.final_close(), FinalClose::Detached);

    // End-of-file retires the handle itself, and a close that is handed back
    // afterwards is prompt.
    let mut drained = console(legacy());
    assert_eq!(drained.notify_reader_eof(), CloseAction::Close);
    assert_eq!(drained.final_close(), FinalClose::Nothing);

    let mut handed_back = console(legacy());
    let claim = handed_off(handed_back.claim_detached());
    assert_eq!(handed_back.notify_reader_eof(), CloseAction::Nothing);
    handed_back.handoff_failed(claim);
    assert_eq!(handed_back.final_close(), FinalClose::Inline);
}

#[test]
fn drop_user_pipe_ends_before_console() {
    // The pipe ends go away without a word to the console.
    let mut console = console(backend());
    assert_eq!(console.final_close(), FinalClose::Detached);
    assert!(console.is_closed());
}

#[test]
fn drop_after_reader_closed_notification() {
    let mut console = console(backend());
    assert_eq!(console.notify_reader_closed(), CloseAction::Nothing);
    assert_eq!(console.final_close(), FinalClose::Detached);
    assert_eq!(console.final_close(), FinalClose::Nothing);
}

#[test]
fn request_close_after_reader_closed_closes_inline() {
    let mut console = console(backend());
    assert_eq!(console.notify_reader_closed(), CloseAction::Nothing);
    assert_eq!(console.request_close(), CloseAction::Close);
    assert!(console.is_closed());
    // A second request is a no-op, not a double close.
    assert_eq!(console.request_close(), CloseAction::Nothing);
    assert_eq!(console.final_close(), FinalClose::Nothing);
}

#[test]
fn legacy_request_close_with_live_reader_completes() {
    let mut console = console(backend());
    // Reader still open and the session was never released: closing is exactly
    // what ends a clientless session.
    assert_eq!(console.request_close(), CloseAction::Close);
    assert!(console.is_closed());
    assert_eq!(console.final_close(), FinalClose::Nothing);
}

#[test]
fn input_close_worker_spawn_failure_keeps_close_retryable() {
    let mut console = console(legacy());

    // The worker cannot be started, so nothing is claimed.
    assert_eq!(console.request_close_detached(), DetachedStep::StartWorker);
    assert!(
        !console.is_closed(),
        "a failed handoff must not claim the live HPCON"
    );
    resize(&mut console, size(40, 100))
        .expect("the live HPCON must remain usable after the failed handoff");

    // A later request can claim the same handle.
    assert_eq!(console.notify_reader_closed(), CloseAction::Nothing);
    assert_eq!(console.request_close_detached(), DetachedStep::StartWorker);
    assert!(matches!(
        console.claim_detached(),
        DetachedClaim::HandOff(_)
    ));
    assert!(console.is_closed());
}

// Returns the claim of a close that is handed over.
fn handed_off(claim: DetachedClaim) -> CloseClaim {
    match claim {
        DetachedClaim::HandOff(claim) => claim,
        other => panic!("nothing was handed over: {other:?}"),
    }
}

#[test]
fn a_worker_gives_its_claim_up_for_the_handle() {
    let mut console = ConsoleShared::new(legacy(), Size::default(), 0x1234);
    let claim = handed_off(console.claim_detached());
    assert_eq!(claim.into_hpcon(), 0x1234);
    assert_eq!(console.request_close(), CloseAction::Nothing);
    assert_eq!(console.final_close(), FinalClose::Nothing);
}

#[test]
fn an_undelivered_handoff_is_taken_back() {
    let mut console = console(legacy());
    let claim = handed_off(console.claim_detached());
    assert_eq!(console.claim_detached(), DetachedClaim::Dismiss);
    console.handoff_failed(claim);
    assert!(!console.is_closed());
    assert_eq!(console.request_close(), CloseAction::Close);
}

#[test]
fn a_worker_for_a_released_console_is_dismissed() {
    let mut deferred = released();
    assert_eq!(
        deferred.claim_detached(),
        DetachedClaim::DismissAnd(CloseAction::Nothing)
    );
    assert_eq!(
        deferred.request_close_detached(),
        DetachedStep::Requested(CloseAction::Nothing)
    );
    assert_eq!(deferred.notify_reader_closed(), CloseAction::Close);

    let mut unread = released();
    assert_eq!(unread.notify_reader_closed(), CloseAction::Nothing);
    assert_eq!(
        unread.claim_detached(),
        DetachedClaim::DismissAnd(CloseAction::Close)
    );
}

#[test]
fn close_worker_spawn_failure_is_logged() {
    let mut events = Vec::new();
    events.push(log_close_worker_spawn_failure(
        &IoError::other("injected close worker failure"),
        "test-close-worker",
        true,
    ));
    assert_eq!(events.len(), 1);
    assert_eq!(events[0].level, LogLevel::Error);
    let shown: Vec<(&str, &str)> = events[0]
        .fields
        .iter()
        .map(|field| (field.name, field.value.as_str()))
        .collect();
    assert_eq!(
        shown,
        vec![
            ("error", "injected close worker failure"),
            ("worker", "test-close-worker"),
            ("retryable", "true"),
        ]
    );
}

#[test]
fn notify_eof_executes_a_deferred_close() {
    let mut console = released();
    assert!(console.is_released());

    // With the reader open, a close request in released mode defers.
    assert_eq!(console.request_close(), CloseAction::Nothing);
    assert!(!console.is_closed());

    // The reader hitting EOF executes the pending close.
    assert_eq!(console.notify_reader_eof(), CloseAction::Close);
    assert!(console.is_closed());
}

#[test]
fn reader_close_executes_a_deferred_close() {
    let mut console = released();
    assert_eq!(console.request_close(), CloseAction::Nothing);
    assert!(!console.is_closed());

    assert_eq!(console.notify_reader_closed(), CloseAction::Close);
    assert!(console.is_closed());
}

#[test]
fn release_after_spawn_is_idempotent() {
    let mut console = released();
    assert!(console
        .release_after_spawn(|_| panic!("the console is released"))
        .unwrap());
    assert!(!console.release_failed());
}

#[test]
fn a_failed_release_leaves_legacy_mode() {
    let mut console = console(backend());
    let err = console
        .release_after_spawn(|_| Err(IoError::other("injected")))
        .unwrap_err();
    assert_eq!(err.message, "injected");
    assert!(console.release_failed());
    assert!(!console.is_released());
    // Legacy mode: a request claims at once, whatever the reader does.
    assert_eq!(console.request_close(), CloseAction::Close);
    assert!(!console
        .release_after_spawn(|_| panic!("the console is closed"))
        .unwrap());
}

#[test]
fn a_closed_console_is_not_called() {
    let mut console = console(backend());
    assert_eq!(console.request_close(), CloseAction::Close);
    let resized = console.resize(size(30, 100), |_, _| panic!("the console is closed"));
    assert_eq!(resized.unwrap_err().kind(), IoErrorKind::NotConnected);
    let cleared = console.clear(|_| panic!("the console is closed"));
    assert_eq!(cleared.unwrap_err().kind(), IoErrorKind::NotConnected);
}

#[test]
fn an_export_that_is_missing_is_not_called() {
    let cleared = console(backend()).clear(|_| panic!("the export is missing"));
    assert_eq!(cleared.unwrap_err().kind(), IoErrorKind::Unsupported);
}

#[test]
fn a_backend_without_the_export_is_never_released() {
    assert!(!console(legacy())
        .release_after_spawn(|_| panic!("the export is missing"))
        .unwrap());
}

#[test]
fn released_console_drops_cleanly_in_any_order() {
    let mut first = released();
    assert_eq!(first.final_close(), FinalClose::Inline);
    assert_eq!(first.notify_reader_closed(), CloseAction::Nothing);

    let mut last = released();
    assert_eq!(last.notify_reader_closed(), CloseAction::Nothing);
    assert_eq!(last.final_close(), FinalClose::Inline);
}

#[test]
fn reader_finished_tracks_notifications() {
    let mut console = console(backend());
    assert!(!console.reader_finished());
    assert_eq!(console.notify_reader_eof(), CloseAction::Close);
    assert!(console.reader_finished());
    assert!(
        console.is_closed(),
        "EOF proves the host exited and must retire the remaining HPCON"
    );
    // Drained -> Closed is a valid forward transition.
    assert_eq!(console.notify_reader_closed(), CloseAction::Nothing);
    assert!(console.reader_finished());
}

// Runs a history of lifecycle events, then the last owner's close, and counts
// the `ClosePseudoConsole` calls that are owed.
fn closes(mut console: ConsoleShared, history: &[u8]) -> usize {
    let mut owed = 0;
    for event in history {
        let action = match *event {
            0 => console.notify_reader_eof(),
            1 => console.notify_reader_closed(),
            2 => console.request_close(),
            _ => match console.request_close_detached() {
                DetachedStep::Requested(action) => action,
                DetachedStep::StartWorker => match console.claim_detached() {
                    DetachedClaim::Dismiss => CloseAction::Nothing,
                    DetachedClaim::DismissAnd(action) => action,
                    DetachedClaim::HandOff(claim) => {
                        assert_eq!(claim.into_hpcon(), console.hpcon());
                        CloseAction::Close
                    }
                },
            },
        };
        if action == CloseAction::Close {
            owed += 1;
        }
    }
    if console.final_close() != FinalClose::Nothing {
        owed += 1;
    }
    owed
}

#[test]
fn the_close_is_called_exactly_once_whatever_happens() {
    for code in 0..256_u32 {
        let history: Vec<u8> = (0..4).map(|i| ((code >> (2 * i)) & 3) as u8).collect();
        assert_eq!(closes(console(backend()), &history), 1, "{history:?}");
        assert_eq!(closes(console(legacy()), &history), 1, "{history:?}");
        assert_eq!(closes(released(), &history), 1, "{history:?}");
    }
}

#[test]
fn a_disconnect_is_shown_as_the_end_of_the_session() {
    let shown = normalize_session_end(IoError::from_os(
        232,
        IoErrorKind::BrokenPipe,
        "The pipe is being closed.",
    ));
    assert_eq!(shown.kind(), IoErrorKind::NotConnected);
    assert_eq!(shown.raw_os_error(), None);
    assert_eq!(shown.message, "The pipe is being closed.");
    assert_eq!(shown.inner.unwrap().raw_os_error(), Some(232));

    let other = normalize_session_end(IoError::from_os(
        87,
        IoErrorKind::InvalidInput,
        "The parameter is incorrect.",
    ));
    assert_eq!(other.raw_os_error(), Some(87));
}

#[test]
fn the_cursor_is_inherited_on_request_only() {
    assert_eq!(create_flags(false), 0);
    assert_eq!(create_flags(true), 1);
}
