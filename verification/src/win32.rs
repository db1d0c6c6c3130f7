//! The Windows SDK values that the lifecycle rules compare against.

use vstd::prelude::*;

verus! {

/// The operation was refused for lack of access.
pub const ERROR_ACCESS_DENIED: u32 = 5;

/// End of file was reached on a handle.
pub const ERROR_HANDLE_EOF: u32 = 38;

/// The other end of a pipe was closed.
pub const ERROR_BROKEN_PIPE: u32 = 109;

/// Every instance of a named pipe is in use.
pub const ERROR_PIPE_BUSY: u32 = 231;

/// The pipe is being closed.
pub const ERROR_NO_DATA: u32 = 232;

/// No process is on the other end of the pipe.
pub const ERROR_PIPE_NOT_CONNECTED: u32 = 233;

/// A client connected before the server started waiting for one.
pub const ERROR_PIPE_CONNECTED: u32 = 535;

/// Overlapped I/O was started and has not completed.
pub const ERROR_IO_PENDING: u32 = 997;

/// The waited-for object is signalled.
pub const WAIT_OBJECT_0: u32 = 0;

/// The wait's time-out elapsed first.
pub const WAIT_TIMEOUT: u32 = 258;

/// The wait itself failed.
pub const WAIT_FAILED: u32 = 0xFFFF_FFFF;

/// Asks `CreatePseudoConsole` to take the cursor position from its parent.
pub const PSEUDOCONSOLE_INHERIT_CURSOR: u32 = 1;

/// The server of a named pipe only reads.
pub const PIPE_ACCESS_INBOUND: u32 = 1;

/// The server of a named pipe only writes.
pub const PIPE_ACCESS_OUTBOUND: u32 = 2;

/// I/O on the handle is overlapped.
pub const FILE_FLAG_OVERLAPPED: u32 = 0x4000_0000;

/// Creating a further instance of the pipe fails.
pub const FILE_FLAG_FIRST_PIPE_INSTANCE: u32 = 0x0008_0000;

/// Access to read.
pub const GENERIC_READ: u32 = 0x8000_0000;

/// Access to write.
pub const GENERIC_WRITE: u32 = 0x4000_0000;

/// The pipe carries bytes.
pub const PIPE_TYPE_BYTE: u32 = 0;

/// The pipe is read as bytes.
pub const PIPE_READMODE_BYTE: u32 = 0;

/// Operations on the pipe block.
pub const PIPE_WAIT: u32 = 0;

/// Clients from other machines are refused.
pub const PIPE_REJECT_REMOTE_CLIENTS: u32 = 8;

/// A new process's environment block is UTF-16.
pub const CREATE_UNICODE_ENVIRONMENT: u32 = 0x0000_0400;

/// A new process's start-up information has attributes.
pub const EXTENDED_STARTUPINFO_PRESENT: u32 = 0x0008_0000;

} // verus!
