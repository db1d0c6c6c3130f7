//! The rules by which a session's named pipes are made and connected.
//!
//! Each stream is a single-instance named pipe under a name of its own: the
//! server end is ours and overlapped, the client end is synchronous and goes to
//! the pseudoconsole. The client is opened before the server's connect is
//! issued, which makes the connect a mere confirmation.

use vstd::prelude::*;
use vstd::string::*;

use crate::io_error::{IoError, IoErrorKind};
use crate::text::{
    all_digits, decimal, decimal_denotes_its_number, hexadecimal, push_decimal, push_hexadecimal,
};
use crate::wide::{encode, WideString};
use crate::win32::{
    ERROR_ACCESS_DENIED, ERROR_IO_PENDING, ERROR_PIPE_BUSY, ERROR_PIPE_CONNECTED,
    FILE_FLAG_FIRST_PIPE_INSTANCE, FILE_FLAG_OVERLAPPED, GENERIC_READ, GENERIC_WRITE,
    PIPE_ACCESS_INBOUND, PIPE_ACCESS_OUTBOUND, PIPE_READMODE_BYTE, PIPE_REJECT_REMOTE_CLIENTS,
    PIPE_TYPE_BYTE, PIPE_WAIT, WAIT_FAILED, WAIT_OBJECT_0, WAIT_TIMEOUT,
};

verus! {

/// Buffer size, in bytes, of each direction of a named pipe.
pub const PIPE_BUFFER_SIZE: u32 = 131072;

/// How many pipe names to try before giving up on a colliding name.
///
/// Collisions cannot happen accidentally; this bounds the damage that a
/// deliberate name squatter can do.
pub const PIPE_NAME_ATTEMPTS: u32 = 4;

/// How long to wait for a pending connect, in milliseconds.
pub const CONNECT_TIMEOUT_MS: u32 = 10_000;

/// How long to wait for a cancelled connect to acknowledge the cancellation, in
/// milliseconds, before its buffers are leaked instead of freed.
pub const CANCEL_DRAIN_TIMEOUT_MS: u32 = 5_000;

/// Which way bytes flow through one named pipe, from the server's viewpoint.
#[derive(Debug, Clone, Copy, PartialEq, Eq, Structural)]
pub enum ServerDirection {
    /// The server reads and the client writes: the pseudoconsole's output.
    Inbound,
    /// The server writes and the client reads: the pseudoconsole's input.
    Outbound,
}

impl ServerDirection {
    /// Returns the open mode of the server end: its direction, overlapped I/O,
    /// and the detection of a name that is already taken.
    pub fn server_open_mode(self) -> (mode: u32)
        ensures
            mode == match self {
                ServerDirection::Inbound => PIPE_ACCESS_INBOUND,
                ServerDirection::Outbound => PIPE_ACCESS_OUTBOUND,
            } | FILE_FLAG_OVERLAPPED | FILE_FLAG_FIRST_PIPE_INSTANCE,
            mode == match self {
                ServerDirection::Inbound => 0x4008_0001u32,
                ServerDirection::Outbound => 0x4008_0002u32,
            },
    {
        assert(1u32 | 0x4000_0000u32 | 0x0008_0000u32 == 0x4008_0001u32) by (bit_vector);
        assert(2u32 | 0x4000_0000u32 | 0x0008_0000u32 == 0x4008_0002u32) by (bit_vector);
        let access: u32 = match self {
            ServerDirection::Inbound => PIPE_ACCESS_INBOUND,
            ServerDirection::Outbound => PIPE_ACCESS_OUTBOUND,
        };
        access | FILE_FLAG_OVERLAPPED | FILE_FLAG_FIRST_PIPE_INSTANCE
    }

    /// Returns the access of the client end, the mirror image of the server's.
    pub fn client_desired_access(self) -> (access: u32)
        ensures
            access == match self {
                ServerDirection::Inbound => GENERIC_WRITE,
                ServerDirection::Outbound => GENERIC_READ,
            },
            access == match self {
                ServerDirection::Inbound => 0x4000_0000u32,
                ServerDirection::Outbound => 0x8000_0000u32,
            },
    {
        match self {
            ServerDirection::Inbound => GENERIC_WRITE,
            ServerDirection::Outbound => GENERIC_READ,
        }
    }
}

/// Returns the mode of both ends: byte stream, blocking, local clients only.
pub fn pipe_mode() -> (mode: u32)
    ensures
        mode == PIPE_TYPE_BYTE | PIPE_READMODE_BYTE | PIPE_WAIT | PIPE_REJECT_REMOTE_CLIENTS,
        mode == 8,
{
    assert(0u32 | 0u32 | 0u32 | 8u32 == 8u32) by (bit_vector);
    PIPE_TYPE_BYTE | PIPE_READMODE_BYTE | PIPE_WAIT | PIPE_REJECT_REMOTE_CLIENTS
}

/// The name of the pipe with number `seq` of process `pid`, made at `tick`.
pub open spec fn pipe_name(pid: u32, seq: u64, tick: u64) -> Seq<char> {
    r"\\.\pipe\conpty-oxide-"@ + decimal(pid as nat) + "-"@ + decimal(seq as nat) + "-"@ + decimal(
        tick as nat,
    )
}

/// The pipe names of one process, which a counter keeps apart.
#[derive(Debug)]
pub struct PipeNames {
    next_seq: u64,
}

impl PipeNames {
    /// The number of the next name.
    pub closed spec fn spec_next_seq(&self) -> u64 {
        self.next_seq
    }

    /// Starts at number zero.
    pub fn new() -> (names: PipeNames)
        ensures
            names.spec_next_seq() == 0,
    {
        PipeNames { next_seq: 0 }
    }

    /// Returns the next name of process `pid`, made at `tick`.
    pub fn unique_pipe_name(&mut self, pid: u32, tick: u64) -> (name: String)
        ensures
            name@ == pipe_name(pid, old(self).spec_next_seq(), tick),
            final(self).spec_next_seq() == (if old(self).spec_next_seq() == u64::MAX {
                0
            } else {
                (old(self).spec_next_seq() + 1) as u64
            }),
    {
        let seq: u64 = self.next_seq;
        self.next_seq = seq.wrapping_add(1);
        let mut name = String::from_str(r"\\.\pipe\conpty-oxide-");
        push_decimal(&mut name, pid as u64);
        name.append("-");
        push_decimal(&mut name, seq);
        name.append("-");
        push_decimal(&mut name, tick);
        name
    }
}

/// Two texts that are split at their first dash are split alike.
proof fn lemma_split_at_dash(a: Seq<char>, rest_a: Seq<char>, b: Seq<char>, rest_b: Seq<char>)
    requires
        all_digits(a),
        all_digits(b),
        a + "-"@ + rest_a == b + "-"@ + rest_b,
    ensures
        a == b,
        rest_a == rest_b,
{
    reveal_strlit("-");
    let whole = a + "-"@ + rest_a;
    let other = b + "-"@ + rest_b;
    assert(whole[a.len() as int] == '-');
    assert(other[b.len() as int] == '-');
    if a.len() < b.len() {
        assert(other[a.len() as int] == b[a.len() as int]);
    }
    if b.len() < a.len() {
        assert(whole[b.len() as int] == a[b.len() as int]);
    }
    assert(a.len() == b.len());
    assert(a =~= b) by {
        assert forall|i: int| 0 <= i < a.len() implies a[i] == b[i] by {
            assert(whole[i] == a[i]);
            assert(other[i] == b[i]);
        }
    }
    assert(rest_a =~= rest_b) by {
        assert(whole.len() == other.len());
        assert forall|i: int| 0 <= i < rest_a.len() implies rest_a[i] == rest_b[i] by {
            assert(whole[a.len() + 1 + i] == rest_a[i]);
            assert(other[b.len() + 1 + i] == rest_b[i]);
        }
    }
}

/// Pipe names never collide by accident: names that are equal were made for the
/// same process, with the same number, at the same tick.
pub proof fn pipe_names_do_not_collide(
    pid: u32,
    seq: u64,
    tick: u64,
    other_pid: u32,
    other_seq: u64,
    other_tick: u64,
)
    requires
        pipe_name(pid, seq, tick) == pipe_name(other_pid, other_seq, other_tick),
    ensures
        pid == other_pid,
        seq == other_seq,
        tick == other_tick,
{
    let prefix = r"\\.\pipe\conpty-oxide-"@;
    let (p, s, t) = (decimal(pid as nat), decimal(seq as nat), decimal(tick as nat));
    let (p2, s2, t2) = (
        decimal(other_pid as nat),
        decimal(other_seq as nat),
        decimal(other_tick as nat),
    );
    let n = prefix.len() as int;
    assert(pipe_name(pid, seq, tick).skip(n) =~= p + "-"@ + (s + "-"@ + t));
    assert(pipe_name(other_pid, other_seq, other_tick).skip(n) =~= p2 + "-"@ + (s2 + "-"@ + t2));
    decimal_denotes_its_number(pid as nat);
    decimal_denotes_its_number(seq as nat);
    decimal_denotes_its_number(tick as nat);
    decimal_denotes_its_number(other_pid as nat);
    decimal_denotes_its_number(other_seq as nat);
    decimal_denotes_its_number(other_tick as nat);
    lemma_split_at_dash(p, s + "-"@ + t, p2, s2 + "-"@ + t2);
    lemma_split_at_dash(s, t, s2, t2);
}

/// Encodes `s` as a NUL-terminated UTF-16 string.
pub fn to_wide_null(s: &str) -> (wide: Vec<u16>)
    ensures
        wide@ == encode(s@).push(0u16),
{
    let text = WideString::from_text(s);
    let mut wide: Vec<u16> = Vec::new();
    wide.extend_from_slice(text.as_units());
    wide.push(0);
    assert(wide@ =~= encode(s@).push(0u16));
    wide
}

/// Whether a failure to create a pipe means that its name is taken.
pub open spec fn name_collision(err: IoError) -> bool {
    err.code is Some && (err.code->0 == ERROR_ACCESS_DENIED || err.code->0 == ERROR_PIPE_BUSY)
}

/// Returns whether a failure to create a pipe means that its name is taken, so
/// that a retry under a fresh name is worthwhile.
pub fn is_pipe_name_collision(err: &IoError) -> (taken: bool)
    ensures
        taken == name_collision(*err),
{
    match err.code {
        Some(code) => code == ERROR_ACCESS_DENIED as i32 || code == ERROR_PIPE_BUSY as i32,
        None => false,
    }
}

/// Returns the number of the attempt after `attempts` attempts.
pub fn next_attempt(attempts: u32) -> (next: u32)
    requires
        attempts < u32::MAX,
    ensures
        next == attempts + 1,
{
    attempts + 1
}

/// Returns whether to try again after `attempts` attempts, the last of which
/// failed with `err`.
pub fn should_retry_name_collision(attempts: u32, err: &IoError) -> (retry: bool)
    ensures
        retry == (attempts < PIPE_NAME_ATTEMPTS && name_collision(*err)),
        retry == (attempts < 4 && (err.code == Some(5i32) || err.code == Some(231i32))),
{
    attempts < PIPE_NAME_ATTEMPTS && is_pipe_name_collision(err)
}

/// Runs `operation` until it succeeds or fails otherwise than by a name collision,
/// and at most [`PIPE_NAME_ATTEMPTS`] times. It is run again only after a name
/// collision.
///
/// `operation` is given the number of the attempt and the state that the attempt
/// before it left behind, `state` at first; the state that the last one leaves is
/// handed back. That state passes through every run, so that it shows each of
/// them.
///
/// # Errors
///
/// The failure of the last attempt.
pub fn retry_name_collisions<S, T, F: Fn(S, u32) -> (S, Result<T, IoError>)>(
    state: S,
    operation: F,
) -> (end: (S, Result<T, IoError>))
    requires
        operation.requires((state, 1u32)),
        forall|before: S, attempt: u32, after: S, err: IoError|
            1 <= attempt < PIPE_NAME_ATTEMPTS && name_collision(err) && #[trigger]
            operation.ensures((before, attempt), (after, Err::<T, IoError>(err)))
                ==> operation.requires((after, (attempt + 1) as u32)),
    ensures
        exists|states: Seq<S>, outcomes: Seq<Result<T, IoError>>|
            {
                &&& #[trigger] retried(operation, states, outcomes)
                &&& states[0] == state
                &&& states.last() == end.0
                &&& outcomes.last() == end.1
                &&& end.1 is Ok || !name_collision(end.1->Err_0) || outcomes.len()
                    == PIPE_NAME_ATTEMPTS
            },
{
    let mut current: S = state;
    let mut attempts: u32 = 0;
    let ghost mut states: Seq<S> = seq![state];
    let ghost mut outcomes: Seq<Result<T, IoError>> = seq![];
    loop
        invariant
            attempts < PIPE_NAME_ATTEMPTS,
            outcomes.len() == attempts,
            states.len() == attempts + 1,
            states[0] == state,
            states.last() == current,
            operation.requires((current, (attempts + 1) as u32)),
            forall|before: S, attempt: u32, after: S, err: IoError|
                1 <= attempt < PIPE_NAME_ATTEMPTS && name_collision(err) && #[trigger]
                operation.ensures((before, attempt), (after, Err::<T, IoError>(err)))
                    ==> operation.requires((after, (attempt + 1) as u32)),
            forall|i: int|
                #![trigger outcomes[i]]
                0 <= i < outcomes.len() ==> {
                    &&& operation.ensures(
                        (states[i], (i + 1) as u32),
                        (states[i + 1], outcomes[i]),
                    )
                    &&& outcomes[i] is Err
                    &&& name_collision(outcomes[i]->Err_0)
                },
        decreases PIPE_NAME_ATTEMPTS - attempts,
    {
        attempts = next_attempt(attempts);
        let (next, outcome) = operation(current, attempts);
        let ghost longer = states.push(next);
        let ghost extended = outcomes.push(outcome);
        proof {
            assert(retried(operation, longer, extended)) by {
                assert forall|i: int| 0 <= i < extended.len() implies operation.ensures(
                    (longer[i], (i + 1) as u32),
                    (longer[i + 1], #[trigger] extended[i]),
                ) by {
                    assert(longer[i] == states[i]);
                    if i < outcomes.len() {
                        assert(extended[i] == outcomes[i]);
                        assert(longer[i + 1] == states[i + 1]);
                    }
                }
                assert forall|i: int| 0 <= i < extended.len() - 1 implies extended[i] is Err
                    && name_collision((#[trigger] extended[i])->Err_0) by {
                    assert(extended[i] == outcomes[i]);
                }
            }
            assert(longer[0] == state);
            assert(longer.last() == next);
            assert(extended.last() == outcome);
        }
        match outcome {
            Ok(value) => {
                return (next, Ok(value));
            },
            Err(err) => {
                if !should_retry_name_collision(attempts, &err) {
                    return (next, Err(err));
                }
                assert(operation.ensures(
                    (states.last(), attempts),
                    (next, Err::<T, IoError>(err)),
                ));
            },
        }
        proof {
            assert forall|i: int| 0 <= i < extended.len() implies {
                &&& operation.ensures(
                    (longer[i], (i + 1) as u32),
                    (longer[i + 1], #[trigger] extended[i]),
                )
                &&& extended[i] is Err
                &&& name_collision(extended[i]->Err_0)
            } by {}
            states = longer;
            outcomes = extended;
        }
        current = next;
    }
}

/// Whether `outcomes` are what the attempts `1`, `2` and so on returned, each on
/// the state that the one before it left, all but the last of them a name
/// collision.
pub open spec fn retried<S, T, F: Fn(S, u32) -> (S, Result<T, IoError>)>(
    operation: F,
    states: Seq<S>,
    outcomes: Seq<Result<T, IoError>>,
) -> bool {
    &&& 1 <= outcomes.len() <= PIPE_NAME_ATTEMPTS
    &&& states.len() == outcomes.len() + 1
    &&& forall|i: int|
        0 <= i < outcomes.len() ==> operation.ensures(
            (states[i], (i + 1) as u32),
            (states[i + 1], #[trigger] outcomes[i]),
        )
    &&& forall|i: int|
        0 <= i < outcomes.len() - 1 ==> (#[trigger] outcomes[i]) is Err && name_collision(
            outcomes[i]->Err_0,
        )
}

/// What a `ConnectNamedPipe` call came to.
#[derive(Debug, Clone, Copy, PartialEq, Eq, Structural)]
pub enum ConnectDisposition {
    /// The client is connected.
    Complete,
    /// The connect was queued.
    Pending,
    /// The connect failed.
    Error,
}

/// What a `ConnectNamedPipe` call that returned `connected` came to, `error`
/// being the last error. A client that connected first is reported as an error
/// and is a good connection all the same.
pub open spec fn connect_disposition(connected: i32, error: Option<u32>) -> ConnectDisposition {
    if connected != 0 || error == Some(ERROR_PIPE_CONNECTED) {
        ConnectDisposition::Complete
    } else if error == Some(ERROR_IO_PENDING) {
        ConnectDisposition::Pending
    } else {
        ConnectDisposition::Error
    }
}

/// Classifies the outcome of a `ConnectNamedPipe` call.
pub fn classify_connect_result(connected: i32, error: Option<u32>) -> (disposition:
    ConnectDisposition)
    ensures
        disposition == connect_disposition(connected, error),
{
    if connected != 0 {
        return ConnectDisposition::Complete;
    }
    match error {
        Some(code) => {
            if code == ERROR_PIPE_CONNECTED {
                ConnectDisposition::Complete
            } else if code == ERROR_IO_PENDING {
                ConnectDisposition::Pending
            } else {
                ConnectDisposition::Error
            }
        },
        None => ConnectDisposition::Error,
    }
}

/// The raw code of a failure as the operating system counts it.
pub open spec fn os_code(err: IoError) -> Option<u32> {
    if err.code is Some && err.code->0 >= 0 {
        Some(err.code->0 as u32)
    } else {
        None
    }
}

/// What confirming a connection calls for.
#[derive(Debug)]
#[must_use]
pub enum ConfirmStep {
    /// The client is connected.
    Connected,
    /// Wait for the queued connect.
    AwaitPending,
    /// The connect failed.
    Failed(IoError),
}

/// Decides what a `ConnectNamedPipe` call that returned `connected`, with `err`
/// as the last error, calls for.
pub fn confirm_client_connected(connected: i32, err: IoError) -> (step: ConfirmStep)
    ensures
        step == match connect_disposition(connected, os_code(err)) {
            ConnectDisposition::Complete => ConfirmStep::Connected,
            ConnectDisposition::Pending => ConfirmStep::AwaitPending,
            ConnectDisposition::Error => ConfirmStep::Failed(err),
        },
{
    let error: Option<u32> = match err.code {
        Some(code) => if code >= 0 {
            Some(code as u32)
        } else {
            None
        },
        None => None,
    };
    match classify_connect_result(connected, error) {
        ConnectDisposition::Complete => ConfirmStep::Connected,
        ConnectDisposition::Pending => ConfirmStep::AwaitPending,
        ConnectDisposition::Error => ConfirmStep::Failed(err),
    }
}

/// What a wait for a queued connect came to.
#[derive(Debug, Clone, Copy, PartialEq, Eq, Structural)]
pub enum PendingWaitDisposition {
    /// The operation is over.
    Completed,
    /// It is not over in time.
    TimedOut,
    /// The wait failed.
    Failed,
    /// The wait returned something that it never should.
    Unexpected(u32),
}

/// What a wait that returned `wait` came to.
pub open spec fn pending_wait(wait: u32) -> PendingWaitDisposition {
    if wait == WAIT_OBJECT_0 {
        PendingWaitDisposition::Completed
    } else if wait == WAIT_TIMEOUT {
        PendingWaitDisposition::TimedOut
    } else if wait == WAIT_FAILED {
        PendingWaitDisposition::Failed
    } else {
        PendingWaitDisposition::Unexpected(wait)
    }
}

/// Classifies the result of a wait for a queued connect.
pub fn classify_pending_wait(wait: u32) -> (disposition: PendingWaitDisposition)
    ensures
        disposition == pending_wait(wait),
{
    if wait == WAIT_OBJECT_0 {
        PendingWaitDisposition::Completed
    } else if wait == WAIT_TIMEOUT {
        PendingWaitDisposition::TimedOut
    } else if wait == WAIT_FAILED {
        PendingWaitDisposition::Failed
    } else {
        PendingWaitDisposition::Unexpected(wait)
    }
}

/// Returns whether `GetOverlappedResult` reports success.
pub fn overlapped_result_succeeded(ok: i32) -> (succeeded: bool)
    ensures
        succeeded == (ok != 0),
{
    ok != 0
}

/// Returns whether a cancelled operation is still in flight after a wait that
/// returned `wait`.
pub fn cancellation_is_still_pending(wait: u32) -> (pending: bool)
    ensures
        pending == (wait != WAIT_OBJECT_0),
        pending == (wait != 0),
{
    wait != WAIT_OBJECT_0
}

/// What waiting for a queued connect calls for.
#[derive(Debug)]
#[must_use]
pub enum PendingStep {
    /// The operation is over: ask for its result.
    CheckResult,
    /// Cancel it and wait for the cancellation; this is the failure to report.
    Cancel(IoError),
}

/// Decides what a wait of [`CONNECT_TIMEOUT_MS`] for a queued connect calls for,
/// `last_error` being the last error.
///
/// The failure is settled before the cancellation, which overwrites the last
/// error.
pub fn await_pending_connect(wait: u32, last_error: IoError) -> (step: PendingStep)
    ensures
        step is CheckResult <==> pending_wait(wait) is Completed,
        pending_wait(wait) is TimedOut ==> {
            &&& step->Cancel_0.kind == IoErrorKind::TimedOut
            &&& step->Cancel_0.code == None::<i32>
            &&& step->Cancel_0.message@
                == "the named pipe client did not finish connecting in time"@
            &&& step->Cancel_0.inner == None::<Box<IoError>>
        },
        pending_wait(wait) is Failed ==> step == PendingStep::Cancel(last_error),
        pending_wait(wait) is Unexpected ==> {
            &&& step->Cancel_0.kind == IoErrorKind::Other
            &&& step->Cancel_0.code == None::<i32>
            &&& step->Cancel_0.message@ == "unexpected wait result 0x"@ + hexadecimal(wait as nat)
                + " while waiting for the pipe client to connect"@
            &&& step->Cancel_0.inner == None::<Box<IoError>>
        },
{
    match classify_pending_wait(wait) {
        PendingWaitDisposition::Completed => PendingStep::CheckResult,
        PendingWaitDisposition::TimedOut => PendingStep::Cancel(
            IoError::new(
                IoErrorKind::TimedOut,
                "the named pipe client did not finish connecting in time",
            ),
        ),
        PendingWaitDisposition::Failed => PendingStep::Cancel(last_error),
        PendingWaitDisposition::Unexpected(other) => {
            let mut message = String::from_str("unexpected wait result 0x");
            push_hexadecimal(&mut message, other as u64);
            message.append(" while waiting for the pipe client to connect");
            PendingStep::Cancel(IoError::other(message.as_str()))
        },
    }
}

/// What becomes of the buffers of a connect.
#[derive(Debug, Clone, Copy, PartialEq, Eq, Structural)]
#[must_use]
pub enum Buffers {
    /// The operation is over: they are freed.
    Free,
    /// The operation is still in flight and will write to them: they are leaked.
    Leak,
}

/// Decides what becomes of the buffers of a cancelled connect after a wait of
/// [`CANCEL_DRAIN_TIMEOUT_MS`] that returned `drained`. A leak is safe; memory
/// freed under the operation is not.
pub fn buffers_after_cancel(drained: u32) -> (buffers: Buffers)
    ensures
        buffers == Buffers::Free <==> drained == WAIT_OBJECT_0,
        buffers == Buffers::Free <==> drained == 0,
{
    if cancellation_is_still_pending(drained) {
        Buffers::Leak
    } else {
        Buffers::Free
    }
}

/// A pipe is named after this library, its process, its number and its time, in
/// decimal and with dashes between.
pub proof fn pipe_names_show_their_parts(pid: u32, seq: u64, tick: u64)
    ensures
        ({
            let front = r"\\.\pipe\conpty-oxide-"@;
            let name = pipe_name(pid, seq, tick);
            &&& name.len() >= front.len()
            &&& name.take(front.len() as int) == front
            &&& name.skip(front.len() as int) == decimal(pid as nat) + "-"@ + decimal(seq as nat)
                + "-"@ + decimal(tick as nat)
        }),
{
    let front = r"\\.\pipe\conpty-oxide-"@;
    let name = pipe_name(pid, seq, tick);
    assert(name.take(front.len() as int) =~= front);
    assert(name.skip(front.len() as int) =~= decimal(pid as nat) + "-"@ + decimal(seq as nat)
        + "-"@ + decimal(tick as nat));
}

/// A name is taken exactly where the failure is that access was denied, or that
/// the pipe is busy.
pub proof fn taken_names_are_known_by_their_code(err: IoError)
    ensures
        name_collision(err) <==> err.code == Some(5i32) || err.code == Some(231i32),
{
}

/// An attempt is made at most four times, each on what the one before it left, and
/// one that is not the last failed because its name was taken.
pub proof fn attempts_are_bounded<S, T, F: Fn(S, u32) -> (S, Result<T, IoError>)>(
    operation: F,
    states: Seq<S>,
    outcomes: Seq<Result<T, IoError>>,
    i: int,
)
    requires
        retried(operation, states, outcomes),
    ensures
        1 <= outcomes.len() <= 4,
        states.len() == outcomes.len() + 1,
        0 <= i < outcomes.len() ==> operation.ensures(
            (states[i], (i + 1) as u32),
            (states[i + 1], outcomes[i]),
        ),
        0 <= i < outcomes.len() - 1 ==> outcomes[i] is Err && (outcomes[i]->Err_0.code == Some(5i32)
            || outcomes[i]->Err_0.code == Some(231i32)),
{
    if 0 <= i < outcomes.len() - 1 {
        assert(name_collision(outcomes[i]->Err_0));
    }
}

/// A connect is complete exactly where the call succeeded or found the client
/// connected, and pending exactly where it was queued.
pub proof fn connects_are_classified(connected: i32, error: Option<u32>)
    ensures
        connect_disposition(connected, error) == ConnectDisposition::Complete <==> connected != 0
            || error == Some(535u32),
        connect_disposition(connected, error) == ConnectDisposition::Pending <==> connected == 0
            && error == Some(997u32),
        connect_disposition(connected, error) == ConnectDisposition::Error <==> connected == 0
            && error != Some(535u32) && error != Some(997u32),
{
}

/// A failure has the code of the operating system, if it has one that is none
/// below zero.
pub proof fn codes_of_the_system_are_not_negative(err: IoError, code: u32)
    ensures
        os_code(err) == Some(code) <==> err.code is Some && err.code->0 == code,
        os_code(err) is None <==> err.code is None || err.code->0 < 0,
{
}

/// A wait for a queued connect is over, too long, failed, or returned what it
/// never should, which is kept.
pub proof fn waits_are_classified(wait: u32)
    ensures
        pending_wait(wait) == PendingWaitDisposition::Completed <==> wait == 0,
        pending_wait(wait) == PendingWaitDisposition::TimedOut <==> wait == 258,
        pending_wait(wait) == PendingWaitDisposition::Failed <==> wait == 0xFFFF_FFFF,
        wait != 0 && wait != 258 && wait != 0xFFFF_FFFF ==> pending_wait(wait)
            == PendingWaitDisposition::Unexpected(wait),
{
}

} // verus!
