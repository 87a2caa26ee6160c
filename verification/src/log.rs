//! Sending a message to the directory server's error log.
//!
//! The call into the directory server is handed in by the caller as a
//! function from severity number, subsystem name and message to a status
//! code. What is decided here is what that status means.

use vstd::prelude::*;
use crate::constants::LogLevel;
use crate::constants::LDAP_SUCCESS;
use crate::error::LoggingError;
use crate::error::PluginOperationError;

verus! {

/// What the status of a logging call means: success for the success code,
/// and an unknown logging error for every other status.
pub open spec fn log_result(status: isize) -> Result<(), LoggingError> {
    if status == LDAP_SUCCESS {
        Ok(())
    } else {
        Err(LoggingError::Unknown)
    }
}

/// Turns the status that a logging call returned into a result.
pub fn slapi_r_log_status(status: isize) -> (logged: Result<(), LoggingError>)
    ensures
        logged == log_result(status),
{
    if status == LDAP_SUCCESS {
        Ok(())
    } else {
        Err(LoggingError::Unknown)
    }
}

/// Write a message to the directory server's error log, through
/// `transport`. The directory server performs no formatting of the message.
///
/// `transport` is called once, with the severity number of `level`, with
/// `subsystem` and with `message`; the result says what its status means.
///
/// # Failures
/// If a failure occurs, you should wrap this into a correct error type for
/// your plugin or operation, ie `PluginOperationError::LoggingError`.
pub fn slapi_r_log_error<L: Fn(isize, &str, String) -> isize>(
    transport: &L,
    level: LogLevel,
    subsystem: &str,
    message: String,
) -> (logged: Result<(), LoggingError>)
    requires
        call_requires(transport, (level.code() as isize, subsystem, message)),
    ensures
        exists|status: isize|
            call_ensures(transport, (level.code() as isize, subsystem, message), status) && logged
                == log_result(status),
{
    let status: isize = transport(level.as_isize(), subsystem, message);
    slapi_r_log_status(status)
}

/// The way in which a handler of a plugin takes a logging failure: as the
/// operation error `LoggingError`, on which the handler stops.
pub fn slapi_r_log_error_plugin(logged: Result<(), LoggingError>) -> (outcome: Result<
    (),
    PluginOperationError,
>)
    ensures
        logged is Ok ==> outcome == Ok::<(), PluginOperationError>(()),
        logged is Err ==> outcome == Err::<(), PluginOperationError>(
            PluginOperationError::LoggingError,
        ),
{
    match logged {
        Ok(_) => Ok(()),
        Err(_) => Err(PluginOperationError::LoggingError),
    }
}

/// The way in which a caller takes a logging failure that it does not
/// mean to act on: the result is looked at and given up, whichever it is.
/// It is good for quick development; a handler that should stop when the
/// directory server cannot log uses `slapi_r_log_error_plugin`.
pub fn slapi_r_log_error_unchecked(logged: Result<(), LoggingError>) {
    match logged {
        Ok(_) => {},
        Err(_) => {},
    }
}

} // verus!
