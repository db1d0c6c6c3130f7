use conpty_oxide::backend::exports::NamedExport;
use conpty_oxide::diagnostics::LogLevel;
use conpty_oxide::io_error::{IoError, IoErrorKind};
use conpty_oxide::pseudocon::{CloseAction, ConsoleShared};
use conpty_oxide::session::KILL_EXIT_CODE;
use conpty_oxide::wait::registered::{
    callback_unregister_transfers_cleanup, should_replace_waker, RegisteredWaitState, Unregister,
};
use conpty_oxide::wait::{
    log_callback_panic, log_legacy_worker_failure, log_root_watcher_kill_failure,
    log_unregister_failure, polled, root_exit, should_wait_for_legacy_reader, waited, RootExit,
    WaitStep, LEGACY_CLOSE_GRACE_MS,
};
use conpty_oxide::win32::{ERROR_IO_PENDING, WAIT_FAILED, WAIT_OBJECT_0, WAIT_TIMEOUT};
use conpty_oxide::{Child, ConPtyBackend, Size};

fn export(name: &str, address: usize) -> NamedExport {
    let mut name = name.as_bytes().to_vec();
    name.push(0);
    NamedExport { name, address }
}

fn console() -> ConsoleShared {
    let exports = vec![
        export("CreatePseudoConsole", 0x1000),
        export("ResizePseudoConsole", 0x2000),
        export("ClosePseudoConsole", 0x3000),
        export("ReleasePseudoConsole", 0x4000),
    ];
    let backend = ConPtyBackend::system(Some(&exports), true, &mut Vec::new()).unwrap();
    ConsoleShared::new(backend, Size::default(), 0x77)
}

#[test]
fn registered_wait_drop_from_an_inline_waker_does_not_deadlock() {
    let mut state = RegisteredWaitState::new();
    assert!(
        state.poll(1).is_none(),
        "the first poll must leave the process wait pending"
    );

    // The callback publishes and calls the waker, which polls again and drops
    // the wait while the callback is still running.
    assert!(state.callback_enter());
    assert_eq!(state.callback_publish(Ok(3)), Some(1));
    assert_eq!(
        state
            .poll(1)
            .expect("the result is published")
            .expect("the registered wait must report an exit code"),
        3
    );
    assert_eq!(
        state.owner_drop(),
        Unregister::Request,
        "a reentrant drop must not wait for the callback it runs in"
    );
    let pending = i32::try_from(ERROR_IO_PENDING).unwrap();
    assert!(state.unregister_requested(0, Some(pending)));
    assert!(
        state.callback_leave(),
        "the callback tail must reclaim the context"
    );
}

#[test]
fn registered_wait_contains_a_panicking_waker_at_the_ffi_boundary() {
    // A panicking waker ends the callback all the same, after it dropped the
    // wait.
    let mut state = RegisteredWaitState::new();
    assert!(state.poll(7).is_none());
    assert!(state.callback_enter());
    assert_eq!(state.callback_publish(Ok(0)), Some(7));
    assert!(state.poll(7).is_some());
    assert_eq!(state.owner_drop(), Unregister::Request);
    assert!(state.unregister_requested(1, None));
    let report = log_callback_panic("registered process wait");
    assert_eq!(report.fields[0].value, "registered process wait");
    assert!(state.callback_leave());
}

#[test]
fn registered_wait_observes_a_process_that_already_exited() {
    let mut state = RegisteredWaitState::new();
    assert!(state.callback_enter());
    assert_eq!(state.callback_publish(Ok(37)), None, "nobody waits yet");
    assert!(!state.callback_leave());
    assert_eq!(state.poll(1).unwrap().unwrap(), 37);
    assert_eq!(state.owner_drop(), Unregister::Blocking);
}

#[test]
fn dropping_an_untriggered_registered_wait_is_prompt() {
    let mut state = RegisteredWaitState::new();
    assert_eq!(state.owner_drop(), Unregister::Blocking);
    // A callback that raced the drop does not enter, so that the blocking
    // unregistration returns promptly.
    assert!(!state.callback_enter());
}

#[test]
fn an_owner_that_is_going_away_is_told_nothing() {
    let mut state = RegisteredWaitState::new();
    assert!(state.poll(5).is_none());
    assert!(state.callback_enter());
    assert_eq!(state.owner_drop(), Unregister::Request);
    assert!(!state.unregister_requested(0, Some(5)));
    assert_eq!(state.callback_publish(Ok(1)), None);
    assert!(
        !state.callback_leave(),
        "a failed unregistration retains the context"
    );
}

#[test]
fn registered_wait_reuses_only_an_equivalent_waker() {
    let first = 1;
    let same = first;
    let different = 2;
    assert!(!should_replace_waker(Some(first), same));
    assert!(should_replace_waker(Some(first), different));
    assert!(should_replace_waker(None, first));

    let mut state = RegisteredWaitState::new();
    assert!(state.poll(first).is_none());
    assert!(state.poll(different).is_none());
    assert!(state.callback_enter());
    assert_eq!(state.callback_publish(Ok(0)), Some(different));
}

#[test]
fn callback_unregister_cleanup_classifier_covers_every_result() {
    let pending = i32::try_from(ERROR_IO_PENDING).expect("the Win32 code fits i32");
    assert!(callback_unregister_transfers_cleanup(1, None));
    assert!(callback_unregister_transfers_cleanup(0, Some(pending)));
    assert!(!callback_unregister_transfers_cleanup(0, Some(5)));
    assert!(!callback_unregister_transfers_cleanup(0, None));
}

#[test]
fn callback_and_cleanup_failures_are_logged() {
    let events = vec![
        log_callback_panic("injected callback"),
        log_unregister_failure(&IoError::other("injected unregister failure")),
        log_root_watcher_kill_failure(&IoError::other("injected kill failure")),
        log_legacy_worker_failure(&IoError::other("injected worker failure")),
    ];
    assert_eq!(events.len(), 4);
    for event in &events {
        assert_eq!(event.level, LogLevel::Error);
        assert!(event.fields[0].value.starts_with("injected"));
    }
}

#[test]
fn legacy_close_grace_only_waits_for_an_active_reader() {
    assert!(should_wait_for_legacy_reader(false));
    assert!(!should_wait_for_legacy_reader(true));
}

// What `WaitForSingleObject` and `GetExitCodeProcess` answer for a process.
fn wait_for(step: WaitStep, exit_code: u32) -> Result<Option<u32>, IoError> {
    match step {
        WaitStep::ReadExitCode => Ok(Some(exit_code)),
        WaitStep::Running => Ok(None),
        WaitStep::LastOsError => Err(IoError::from_os(6, IoErrorKind::Uncategorized, "os error")),
        WaitStep::Unexpected(err) => Err(err),
    }
}

#[test]
fn wait_reports_the_exit_code() {
    assert_eq!(wait_for(waited(WAIT_OBJECT_0), 7).unwrap(), Some(7));
    // A process handle stays signaled: waiting again is fine.
    assert_eq!(wait_for(waited(WAIT_OBJECT_0), 7).unwrap(), Some(7));
    // And a poll after exit reports the same code.
    assert_eq!(wait_for(polled(WAIT_OBJECT_0), 7).unwrap(), Some(7));
}

#[test]
fn try_wait_is_none_while_running_and_some_after_kill() {
    let mut child = Child::from_root(conpty_oxide::session::RootChild {
        pid: 1,
        kill_on_drop: false,
    });
    assert_eq!(
        child
            .try_wait(|| wait_for(polled(WAIT_TIMEOUT), 259))
            .expect("try_wait must succeed"),
        None,
        "a blocked child must not report an exit code"
    );
    let status = child
        .try_wait(|| wait_for(polled(WAIT_OBJECT_0), 1))
        .unwrap()
        .unwrap();
    assert_ne!(
        status.code(),
        259,
        "an exit code read after the wait must never be STILL_ACTIVE"
    );
}

#[test]
fn failed_and_unexpected_waits_are_errors() {
    assert_eq!(
        wait_for(waited(WAIT_FAILED), 0).unwrap_err().raw_os_error(),
        Some(6)
    );
    assert_eq!(
        wait_for(polled(WAIT_FAILED), 0).unwrap_err().raw_os_error(),
        Some(6)
    );
    assert_eq!(
        wait_for(waited(WAIT_TIMEOUT), 0).unwrap_err().message,
        "unexpected WaitForSingleObject result 0x102 while waiting for child exit"
    );
    assert_eq!(
        wait_for(polled(0x80), 0).unwrap_err().message,
        "unexpected WaitForSingleObject result 0x80 while polling child exit"
    );
}

#[test]
fn legacy_watcher_closes_the_console_after_child_exit() {
    let mut console = console();
    assert_eq!(
        root_exit(true, Some(&console), true, LEGACY_CLOSE_GRACE_MS),
        RootExit {
            terminate: Some(KILL_EXIT_CODE),
            grace_ms: 1000,
            close: true
        }
    );
    assert_eq!(console.request_close(), CloseAction::Close);
    assert!(console.is_closed());

    // A reader that is gone needs no grace.
    assert_eq!(console.notify_reader_closed(), CloseAction::Nothing);
    assert_eq!(
        root_exit(true, Some(&console), true, LEGACY_CLOSE_GRACE_MS).grace_ms,
        0
    );
}

#[test]
fn root_watcher_does_not_close_released_sessions() {
    let mut console = console();
    assert!(console.release_after_spawn(|_| Ok(())).unwrap());
    assert_eq!(
        root_exit(true, Some(&console), false, LEGACY_CLOSE_GRACE_MS),
        RootExit {
            terminate: Some(KILL_EXIT_CODE),
            grace_ms: 0,
            close: false
        }
    );
    assert!(!console.is_closed());
}

#[test]
fn a_watcher_without_its_session_or_job_does_nothing() {
    assert_eq!(
        root_exit(false, None, true, LEGACY_CLOSE_GRACE_MS),
        RootExit {
            terminate: None,
            grace_ms: 0,
            close: false
        }
    );
}
