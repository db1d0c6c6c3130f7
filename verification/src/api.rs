//! What a managed session is made with, and what it gives back.

use vstd::prelude::*;

use crate::backend::{clone_choice, same_choice, ConPtyBackend};
use crate::size::Size;
use crate::status::ExitStatus;

verus! {

/// Configuration of a managed pseudoconsole session: its initial size and its
/// backend.
#[derive(Debug)]
pub struct SessionOptions {
    size: Size,
    backend: Option<ConPtyBackend>,
}

impl SessionOptions {
    /// The initial terminal size.
    pub closed spec fn spec_size(&self) -> Size {
        self.size
    }

    /// The backend, if it is not selected automatically.
    pub closed spec fn spec_backend(&self) -> Option<ConPtyBackend> {
        self.backend
    }

    /// Creates options with an 80x24 terminal and automatic backend selection.
    pub fn new() -> (options: SessionOptions)
        ensures
            options.spec_size().spec_rows() == 24,
            options.spec_size().spec_cols() == 80,
            options.spec_backend() is None,
    {
        SessionOptions { size: Size::default(), backend: None }
    }

    /// Sets the initial terminal size.
    pub fn size(self, size: Size) -> (options: SessionOptions)
        ensures
            options.spec_size() == size,
            options.spec_backend() == self.spec_backend(),
    {
        SessionOptions { size, backend: self.backend }
    }

    /// Selects a `ConPTY` backend for this session.
    pub fn backend(self, backend: ConPtyBackend) -> (options: SessionOptions)
        ensures
            options.spec_size() == self.spec_size(),
            options.spec_backend() == Some(backend),
    {
        SessionOptions { size: self.size, backend: Some(backend) }
    }

    /// Takes the options apart.
    pub fn into_parts(self) -> (parts: (Size, Option<ConPtyBackend>))
        ensures
            parts == (self.spec_size(), self.spec_backend()),
    {
        (self.size, self.backend)
    }
}

impl Clone for SessionOptions {
    fn clone(&self) -> (copy: SessionOptions)
        ensures
            copy.spec_size() == self.spec_size(),
            same_choice(self.spec_backend(), copy.spec_backend()),
    {
        SessionOptions { size: self.size, backend: clone_choice(&self.backend) }
    }
}

impl Default for SessionOptions {
    fn default() -> (options: SessionOptions)
        ensures
            options.spec_size().spec_rows() == 24,
            options.spec_size().spec_cols() == 80,
            options.spec_backend() is None,
    {
        SessionOptions::new()
    }
}

/// Virtual-terminal output collected from a managed session.
///
/// There is one rendered byte stream rather than distinct stdout and stderr
/// channels.
#[derive(Debug)]
#[must_use]
pub struct SessionOutput {
    status: ExitStatus,
    bytes: Vec<u8>,
}

impl SessionOutput {
    /// The root process's exit status.
    pub closed spec fn spec_status(&self) -> ExitStatus {
        self.status
    }

    /// The byte stream.
    pub closed spec fn spec_bytes(&self) -> Seq<u8> {
        self.bytes@
    }

    /// Puts a status and a byte stream together.
    pub fn new(status: ExitStatus, bytes: Vec<u8>) -> (output: SessionOutput)
        ensures
            output.spec_status() == status,
            output.spec_bytes() == bytes@,
    {
        SessionOutput { status, bytes }
    }

    /// Returns the root process's exit status.
    pub fn status(&self) -> (status: ExitStatus)
        ensures
            status == self.spec_status(),
    {
        self.status
    }

    /// Borrows the rendered byte stream.
    pub fn as_bytes(&self) -> (bytes: &[u8])
        ensures
            bytes@ == self.spec_bytes(),
    {
        self.bytes.as_slice()
    }

    /// Consumes the result and returns the rendered byte stream.
    pub fn into_bytes(self) -> (bytes: Vec<u8>)
        ensures
            bytes@ == self.spec_bytes(),
    {
        self.bytes
    }
}

} // verus!
