//! Windows pseudoconsole (`ConPTY`) sessions: the rules that decide when a
//! pseudoconsole is created, released, resized, cleared, and closed, how a
//! command line and an environment block are built, and how output is
//! collected.
//!
//! The library performs no system call. It tells its caller which call to make
//! next and takes the outcome back, so that every rule is stated over plain
//! values.

pub mod api;
pub mod backend;
pub mod child;
pub mod collect;
pub mod command;
pub mod diagnostics;
pub mod error;
pub mod io_error;
pub mod path;
pub mod pipes;
pub mod pseudocon;
pub mod pty;
pub mod session;
pub mod size;
pub mod status;
pub mod text;
pub mod wait;
pub mod wide;
pub mod win32;

pub use crate::api::{SessionOptions, SessionOutput};
pub use crate::backend::{BackendKind, ConPtyBackend};
pub use crate::child::Child;
pub use crate::command::Command;
pub use crate::error::{BackendError, BackendErrorKind, Error, ErrorKind, Result};
pub use crate::pty::{Pty, PtyBuilder};
pub use crate::size::Size;
pub use crate::status::ExitStatus;
