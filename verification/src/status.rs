//! Exit statuses of root processes.

use vstd::prelude::*;
use vstd::string::*;

use crate::text::{decimal, hexadecimal, push_decimal, push_hexadecimal};

verus! {

/// The exit status of a root process.
#[derive(Debug, Clone, Copy, PartialEq, Eq, Hash, Structural)]
#[must_use]
pub struct ExitStatus(u32);

/// The text shown for an exit code: hexadecimal for codes with the high bit set,
/// which is the range of `NTSTATUS` failures, and decimal for all others.
pub open spec fn status_text(code: u32) -> Seq<char> {
    if code >= 0x8000_0000 {
        "exit code: 0x"@ + hexadecimal(code as nat)
    } else {
        "exit code: "@ + decimal(code as nat)
    }
}

impl ExitStatus {
    /// The raw exit code.
    pub closed spec fn spec_code(&self) -> u32 {
        self.0
    }

    /// Wraps a raw exit code obtained from `GetExitCodeProcess`.
    pub fn from_raw(code: u32) -> (status: ExitStatus)
        ensures
            status.spec_code() == code,
    {
        ExitStatus(code)
    }

    /// Returns the raw exit code.
    ///
    /// A Windows process always has one, including when it was terminated.
    pub fn code(&self) -> (code: u32)
        ensures
            code == self.spec_code(),
    {
        self.0
    }

    /// Returns whether the process exited with code `0`.
    pub fn success(&self) -> (success: bool)
        ensures
            success == (self.spec_code() == 0),
    {
        self.0 == 0
    }

    /// Returns the status as text.
    pub fn to_string(&self) -> (text: String)
        ensures
            text@ == status_text(self.spec_code()),
    {
        let code: u32 = self.0;
        assert((code & 0x8000_0000 != 0) == (code >= 0x8000_0000)) by (bit_vector);
        if code & 0x8000_0000 != 0 {
            let mut text = String::from_str("exit code: 0x");
            push_hexadecimal(&mut text, code as u64);
            text
        } else {
            let mut text = String::from_str("exit code: ");
            push_decimal(&mut text, code as u64);
            text
        }
    }
}

/// A status is shown in decimal where it is below the codes that the operating
/// system fails with, and in hexadecimal from there on.
pub proof fn statuses_show_their_code(code: u32)
    ensures
        code < 0x8000_0000 ==> status_text(code) == "exit code: "@ + decimal(code as nat),
        code >= 0x8000_0000 ==> status_text(code) == "exit code: 0x"@ + hexadecimal(code as nat),
{
}

} // verus!
