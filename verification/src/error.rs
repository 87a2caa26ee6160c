//! The error kinds of the bridge, and the status code that the directory
//! server is given for each.

use vstd::prelude::*;

verus! {

/// Why the registration of a plugin failed.
#[derive(Debug, Clone, Copy, PartialEq, Eq, Structural)]
pub enum PluginRegistrationError {
    /// An unknown error occured.
    Unknown,
    /// An error occured registering the post search function.
    PostSearchFN,
    /// An error occured attempting to log a message.
    LoggingError,
}

impl PluginRegistrationError {
    /// The status code of this error: a small negative number of its own.
    pub open spec fn code(self) -> int {
        match self {
            PluginRegistrationError::LoggingError => -1,
            PluginRegistrationError::Unknown => -2,
            PluginRegistrationError::PostSearchFN => -3,
        }
    }

    /// Convert the error to the status code that the directory server
    /// interprets.
    pub fn as_ds_isize(self) -> (code: isize)
        ensures
            code == self.code(),
            code < 0,
    {
        match self {
            PluginRegistrationError::LoggingError => -1,
            PluginRegistrationError::Unknown => -2,
            PluginRegistrationError::PostSearchFN => -3,
        }
    }
}

/// Why a plugin operation, such as a post search, failed. It is returned to
/// the directory server as a status code.
#[derive(Debug, Clone, Copy, PartialEq, Eq, Structural)]
pub enum PluginOperationError {
    /// An unknown error occured.
    Unknown,
    /// An error occured attempting to log a message.
    LoggingError,
    /// Unwilling to perform
    UnwillingToPerform,
}

impl PluginOperationError {
    /// The status code of this error. `UnwillingToPerform` has the code
    /// that LDAP gives it; the others are small negative numbers.
    pub open spec fn code(self) -> int {
        match self {
            PluginOperationError::Unknown => -1,
            PluginOperationError::LoggingError => -2,
            PluginOperationError::UnwillingToPerform => 0x35,
        }
    }

    /// Convert the error to the status code that the directory server
    /// interprets.
    pub fn as_ds_isize(self) -> (code: isize)
        ensures
            code == self.code(),
            code != 0,
    {
        match self {
            PluginOperationError::Unknown => -1,
            PluginOperationError::LoggingError => -2,
            PluginOperationError::UnwillingToPerform => 0x35,
        }
    }
}

/// Why an access to the parameter block failed.
#[derive(Debug, Clone, Copy, PartialEq, Eq, Structural)]
pub enum PBlockError {
    /// An unknown error occured.
    Unknown,
    /// An error occured setting a value into the parameter block.
    SetFail,
    /// An error occured getting a value from the parameter block.
    GetFail,
    /// An error occured destroying a value in the parameter block.
    DestroyFail,
}

impl PBlockError {
    /// The status code of this error.
    pub open spec fn code(self) -> int {
        match self {
            PBlockError::Unknown => -1,
            PBlockError::SetFail => -2,
            PBlockError::GetFail => -3,
            PBlockError::DestroyFail => -4,
        }
    }

    /// Convert the error to the status code that the directory server
    /// interprets.
    pub fn as_ds_isize(self) -> (code: isize)
        ensures
            code == self.code(),
            code < 0,
    {
        match self {
            PBlockError::Unknown => -1,
            PBlockError::SetFail => -2,
            PBlockError::GetFail => -3,
            PBlockError::DestroyFail => -4,
        }
    }
}

/// Why a message could not be sent to the directory server's log.
#[derive(Debug, Clone, Copy, PartialEq, Eq, Structural)]
pub enum LoggingError {
    /// An unknown error occured.
    Unknown,
}

/// Within each kind of error, the status codes of two different errors
/// differ: the directory server can tell from the code which error it was.
/// The errors of the bridge itself, those of registration and of the
/// parameter block, have negative codes; no error has the success code.
pub proof fn lemma_codes_tell_errors_apart(
    a: PluginOperationError,
    b: PluginOperationError,
    c: PBlockError,
    d: PBlockError,
    e: PluginRegistrationError,
    f: PluginRegistrationError,
)
    ensures
        a.code() == b.code() <==> a == b,
        c.code() == d.code() <==> c == d,
        e.code() == f.code() <==> e == f,
        a.code() != 0,
        c.code() < 0,
        e.code() < 0,
{
}

} // verus!
