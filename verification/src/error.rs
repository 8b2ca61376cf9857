//! The engine's status channel and the one error kind built from it.

use vstd::prelude::*;

verus! {

/// An error reported by the engine. It carries the text that the engine's
/// last-error mechanism held when the failing call returned.
#[derive(Debug)]
pub struct XGBError {
    desc: String,
}

/// The result of an operation that the engine may fail.
pub type XGBResult<T> = Result<T, XGBError>;

impl View for XGBError {
    type V = Seq<char>;

    /// The message, as a sequence of characters.
    closed spec fn view(&self) -> Seq<char> {
        self.desc@
    }
}

impl XGBError {
    /// An error with the given message.
    pub fn new(desc: String) -> (e: XGBError)
        ensures
            e@ == desc@,
    {
        XGBError { desc }
    }

    /// The message this error carries.
    pub fn description(&self) -> (s: &str)
        ensures
            s@ == self@,
    {
        self.desc.as_str()
    }

    /// The message this error carries, as an owned string.
    pub fn to_string(&self) -> (s: String)
        ensures
            s@ == self@,
    {
        self.desc.clone()
    }
}

/// The engine refused to release a matrix that it had given out.
///
/// The engine promises that a handle it created can always be freed, so
/// this is no ordinary error: nothing sensible is left to do with the
/// handle, and a caller is expected to stop rather than to carry on.
#[derive(Debug)]
pub struct ReleaseFailure {
    desc: String,
}

impl View for ReleaseFailure {
    type V = Seq<char>;

    /// The message, as a sequence of characters.
    closed spec fn view(&self) -> Seq<char> {
        self.desc@
    }
}

impl ReleaseFailure {
    /// The message that the engine gave when it refused.
    pub fn description(&self) -> (s: &str)
        ensures
            s@ == self@,
    {
        self.desc.as_str()
    }
}

/// What the engine said at the end of one call: its return code, and the
/// text of its last-error message as read right after the call.
///
/// The message means something only where the code reports a failure.
#[derive(Debug)]
pub struct Status {
    pub code: i32,
    pub message: String,
}

/// Whether a return code reports success. The engine returns zero on
/// success; every other code is a failure.
pub open spec fn succeeded(code: i32) -> bool {
    code == 0
}

impl Status {
    /// A status from a return code and the last-error text.
    pub fn new(code: i32, message: String) -> (s: Status)
        ensures
            s.code == code,
            s.message@ == message@,
    {
        Status { code, message }
    }

    /// Whether this status reports success.
    pub fn is_ok(&self) -> (ok: bool)
        ensures
            ok == succeeded(self.code),
    {
        self.code == 0
    }

    /// Turns the status into a result: `Ok` exactly on a zero code, and
    /// otherwise an error that carries the engine's message unchanged.
    pub fn check(self) -> (r: XGBResult<()>)
        ensures
            r is Ok <==> succeeded(self.code),
            r matches Err(e) ==> e@ == self.message@,
    {
        if self.code == 0 {
            Ok(())
        } else {
            Err(XGBError::new(self.message))
        }
    }

    /// Turns the status of a release into a result: `Ok` exactly on a zero
    /// code, and otherwise a failure that carries the engine's message
    /// unchanged.
    pub fn check_release(self) -> (r: Result<(), ReleaseFailure>)
        ensures
            r is Ok <==> succeeded(self.code),
            r matches Err(e) ==> e@ == self.message@,
    {
        if self.code == 0 {
            Ok(())
        } else {
            Err(ReleaseFailure { desc: self.message })
        }
    }
}

} // verus!
