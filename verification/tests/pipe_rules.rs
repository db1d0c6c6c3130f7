use conpty_oxide::io_error::{IoError, IoErrorKind};
use conpty_oxide::pipes::{
    await_pending_connect, buffers_after_cancel, cancellation_is_still_pending,
    classify_connect_result, classify_pending_wait, confirm_client_connected,
    is_pipe_name_collision, next_attempt, overlapped_result_succeeded, pipe_mode,
    retry_name_collisions, should_retry_name_collision, to_wide_null, Buffers, ConfirmStep,
    ConnectDisposition, PendingStep, PendingWaitDisposition, PipeNames, ServerDirection,
    CANCEL_DRAIN_TIMEOUT_MS, CONNECT_TIMEOUT_MS, PIPE_BUFFER_SIZE, PIPE_NAME_ATTEMPTS,
};
use conpty_oxide::win32::{
    ERROR_ACCESS_DENIED, ERROR_IO_PENDING, ERROR_PIPE_BUSY, ERROR_PIPE_CONNECTED,
    PIPE_READMODE_BYTE, PIPE_REJECT_REMOTE_CLIENTS, PIPE_TYPE_BYTE, PIPE_WAIT, WAIT_FAILED,
    WAIT_OBJECT_0, WAIT_TIMEOUT,
};

fn from_raw_os_error(code: i32) -> IoError {
    IoError::from_os(code, IoErrorKind::Uncategorized, "os error")
}

fn access_denied() -> IoError {
    from_raw_os_error(i32::try_from(ERROR_ACCESS_DENIED).expect("error code must fit"))
}

#[test]
fn back_to_back_creations_do_not_collide() {
    // Every pair is alive at once: a reused name would fail.
    let mut names = PipeNames::new();
    let mut taken: Vec<String> = Vec::new();
    for _ in 0..8 {
        for _ in 0..2 {
            let name = names.unique_pipe_name(4321, 1000);
            assert!(!taken.contains(&name), "{name}");
            taken.push(name);
        }
    }
    assert_eq!(taken[0], r"\\.\pipe\conpty-oxide-4321-0-1000");
    assert_eq!(taken[15], r"\\.\pipe\conpty-oxide-4321-15-1000");
}

#[test]
fn a_squatted_pipe_name_is_rejected_not_joined() {
    // The server asks to be the first instance, so that a name that is taken
    // is refused, and the refusal is recognized.
    assert_ne!(ServerDirection::Inbound.server_open_mode() & 0x0008_0000, 0);
    let err = access_denied();
    assert!(
        is_pipe_name_collision(&err),
        "the rejection must be recognized as a name collision: {err:?}"
    );
    assert!(is_pipe_name_collision(&from_raw_os_error(
        i32::try_from(ERROR_PIPE_BUSY).unwrap()
    )));
    assert!(!is_pipe_name_collision(&IoError::new(
        IoErrorKind::PermissionDenied,
        "not from the system"
    )));
}

#[test]
fn pipe_constants_and_retry_boundaries_are_explicit() {
    assert_eq!(PIPE_BUFFER_SIZE, 128 * 1024);
    assert_eq!(
        pipe_mode(),
        PIPE_TYPE_BYTE | PIPE_READMODE_BYTE | PIPE_WAIT | PIPE_REJECT_REMOTE_CLIENTS
    );
    assert_eq!(next_attempt(0), 1);
    assert_eq!(next_attempt(3), 4);

    let collision = access_denied();
    assert!(should_retry_name_collision(1, &collision));
    assert!(should_retry_name_collision(
        PIPE_NAME_ATTEMPTS - 1,
        &collision
    ));
    assert!(!should_retry_name_collision(PIPE_NAME_ATTEMPTS, &collision));

    let unrelated = from_raw_os_error(2);
    assert!(!should_retry_name_collision(1, &unrelated));
}

#[test]
fn collision_retry_loop_takes_both_error_branches() {
    let (collision_calls, value) = retry_name_collisions(0, |calls, _| {
        let outcome = if calls == 0 {
            Err(access_denied())
        } else {
            Ok(7)
        };
        (calls + 1, outcome)
    });
    assert_eq!(value.expect("one collision must be retried"), 7);
    assert_eq!(collision_calls, 2);

    let (unrelated_calls, error) = retry_name_collisions(0, |calls, _| {
        let outcome = if calls == 0 {
            Err(from_raw_os_error(2))
        } else {
            Ok(7)
        };
        (calls + 1, outcome)
    });
    let error = error.expect_err("an unrelated failure must be returned without a retry");
    assert_eq!(error.raw_os_error(), Some(2));
    assert_eq!(unrelated_calls, 1);
}

#[test]
fn collisions_are_retried_a_bounded_number_of_times() {
    let (attempts, outcome) = retry_name_collisions(0, |attempts, attempt| {
        assert_eq!(attempt, attempts + 1);
        (attempt, Err::<(), IoError>(access_denied()))
    });
    assert!(is_pipe_name_collision(&outcome.unwrap_err()));
    assert_eq!(attempts, PIPE_NAME_ATTEMPTS);
}

#[test]
fn connect_result_classifier_covers_every_documented_outcome() {
    assert_eq!(
        classify_connect_result(1, None),
        ConnectDisposition::Complete
    );
    assert_eq!(
        classify_connect_result(0, Some(ERROR_PIPE_CONNECTED)),
        ConnectDisposition::Complete
    );
    assert_eq!(
        classify_connect_result(0, Some(ERROR_IO_PENDING)),
        ConnectDisposition::Pending
    );
    assert_eq!(
        classify_connect_result(0, Some(ERROR_ACCESS_DENIED)),
        ConnectDisposition::Error
    );
    assert_eq!(classify_connect_result(0, None), ConnectDisposition::Error);
}

#[test]
fn confirming_a_non_pipe_handle_fails() {
    // `ConnectNamedPipe` on a handle that is no pipe fails with
    // `ERROR_INVALID_HANDLE`.
    match confirm_client_connected(0, from_raw_os_error(6)) {
        ConfirmStep::Failed(err) => assert_eq!(err.raw_os_error(), Some(6)),
        other => panic!("unexpected step {other:?}"),
    }
}

#[test]
fn a_connection_is_confirmed_or_awaited() {
    let step = |connected, code| confirm_client_connected(connected, from_raw_os_error(code));
    assert!(matches!(step(1, 0), ConfirmStep::Connected));
    assert!(matches!(step(0, 535), ConfirmStep::Connected));
    assert!(matches!(step(0, 997), ConfirmStep::AwaitPending));
    assert!(matches!(step(0, -535), ConfirmStep::Failed(_)));
    assert!(matches!(
        confirm_client_connected(0, IoError::other("not from the system")),
        ConfirmStep::Failed(_)
    ));
}

#[test]
fn pending_wait_classifiers_cover_completion_and_failure() {
    assert_eq!(
        classify_pending_wait(WAIT_OBJECT_0),
        PendingWaitDisposition::Completed
    );
    assert_eq!(
        classify_pending_wait(WAIT_TIMEOUT),
        PendingWaitDisposition::TimedOut
    );
    assert_eq!(
        classify_pending_wait(WAIT_FAILED),
        PendingWaitDisposition::Failed
    );
    assert_eq!(
        classify_pending_wait(0x1234),
        PendingWaitDisposition::Unexpected(0x1234)
    );
    assert!(!overlapped_result_succeeded(0));
    assert!(overlapped_result_succeeded(1));
    assert!(!cancellation_is_still_pending(WAIT_OBJECT_0));
    assert!(cancellation_is_still_pending(WAIT_TIMEOUT));
}

#[test]
fn pending_connect_checks_the_overlapped_result() {
    assert!(matches!(
        await_pending_connect(WAIT_OBJECT_0, from_raw_os_error(997)),
        PendingStep::CheckResult
    ));
    assert!(!overlapped_result_succeeded(0));
}

#[test]
fn a_connect_that_does_not_finish_is_cancelled() {
    let failure = |wait| match await_pending_connect(wait, from_raw_os_error(6)) {
        PendingStep::Cancel(err) => err,
        PendingStep::CheckResult => panic!("the operation is not over"),
    };
    let err = failure(WAIT_TIMEOUT);
    assert_eq!(err.kind(), IoErrorKind::TimedOut);
    assert_eq!(
        err.message,
        "the named pipe client did not finish connecting in time"
    );
    assert_eq!(failure(WAIT_FAILED).raw_os_error(), Some(6));
    assert_eq!(
        failure(0x1234).message,
        "unexpected wait result 0x1234 while waiting for the pipe client to connect"
    );
    assert_eq!(buffers_after_cancel(WAIT_OBJECT_0), Buffers::Free);
    assert_eq!(buffers_after_cancel(WAIT_TIMEOUT), Buffers::Leak);
    assert_eq!(CONNECT_TIMEOUT_MS, 10_000);
    assert_eq!(CANCEL_DRAIN_TIMEOUT_MS, 5_000);
}

#[test]
fn the_two_ends_mirror_each_other() {
    assert_eq!(ServerDirection::Inbound.server_open_mode(), 0x4008_0001);
    assert_eq!(ServerDirection::Outbound.server_open_mode(), 0x4008_0002);
    assert_eq!(ServerDirection::Inbound.client_desired_access(), 0x4000_0000);
    assert_eq!(
        ServerDirection::Outbound.client_desired_access(),
        0x8000_0000
    );
}

#[test]
fn a_pipe_name_is_widened_with_a_terminator() {
    assert_eq!(to_wide_null(r"\\.\p"), vec![0x5C, 0x5C, 0x2E, 0x5C, 0x70, 0]);
}
