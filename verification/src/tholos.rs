//! What a consumer needs to know of the Tholos contract that it calls.

use soroban_sdk::{Env, Val};
use vstd::prelude::*;

verus! {

/// A value as the host hands it over, in the host's own encoding.
#[verifier::external_type_specification]
#[verifier::external_body]
pub struct ExVal(Val);

/// The errors of Tholos, as far as a consumer tells them apart.
#[derive(Clone, Copy, Debug, PartialEq, Eq, Structural)]
pub enum Error {
    /// The Tholos instance has not been initialized.
    NotInitialized,
    /// The Tholos instance is paused.
    Paused,
    /// No assertion exists under the id that was asked for.
    AssertionNotFound,
    /// Any other error, with its number.
    Other(u32),
}

/// The numbers under which a build of Tholos reports the errors that a consumer tells apart.
#[derive(Clone, Copy, Debug, PartialEq, Eq, Structural)]
pub struct ErrorCodes {
    pub not_initialized: u32,
    pub paused: u32,
    pub assertion_not_found: u32,
}

/// How an invocation can fail without returning a value.
#[derive(Clone, Copy, Debug, PartialEq, Eq, Structural)]
pub enum InvokeError {
    /// The invocation was aborted: a trap, a missing contract or function, a failure of the host.
    Abort,
    /// The invoked contract returned an error of its own, with this number.
    Contract(u32),
}

/// What the host hands back from an invocation: a value, which may fail to decode, or a failure.
pub type Received<T> = Result<Result<T, ()>, InvokeError>;

/// What comes back from an invocation of Tholos: a value, which may fail to decode, or an error of
/// Tholos, or a failure that is none of Tholos's errors.
pub type Reply<T> = Result<Result<T, ()>, Result<Error, InvokeError>>;

impl Error {
    /// The error that a failed invocation reports: the number of a contract error, looked up among
    /// the known ones; an aborted invocation reports none.
    pub open spec fn reported(codes: ErrorCodes, failure: InvokeError) -> Result<
        Error,
        InvokeError,
    > {
        match failure {
            InvokeError::Abort => Err(InvokeError::Abort),
            InvokeError::Contract(code) => Ok(
                if code == codes.not_initialized {
                    Error::NotInitialized
                } else if code == codes.paused {
                    Error::Paused
                } else if code == codes.assertion_not_found {
                    Error::AssertionNotFound
                } else {
                    Error::Other(code)
                },
            ),
        }
    }

    /// Looks up the error that a failed invocation reports.
    pub fn from_failure(codes: &ErrorCodes, failure: InvokeError) -> (error: Result<
        Error,
        InvokeError,
    >)
        ensures
            error == Error::reported(*codes, failure),
    {
        match failure {
            InvokeError::Abort => Err(InvokeError::Abort),
            InvokeError::Contract(code) => {
                if code == codes.not_initialized {
                    Ok(Error::NotInitialized)
                } else if code == codes.paused {
                    Ok(Error::Paused)
                } else if code == codes.assertion_not_found {
                    Ok(Error::AssertionNotFound)
                } else {
                    Ok(Error::Other(code))
                }
            },
        }
    }
}

/// Whether `decode` makes `decoded` of what the host handed back, where the host stands at `env`: a
/// value is what it decodes to, or fails to decode; a failure stays what it was.
pub open spec fn decodes<T, D: Fn(&Env, &Val) -> Result<T, ()>>(
    decode: D,
    env: Env,
    received: Received<Val>,
    decoded: Received<T>,
) -> bool {
    match received {
        Ok(Ok(value)) => decoded matches Ok(result) && call_ensures(decode, (&env, &value), result),
        Ok(Err(())) => decoded == Ok::<_, InvokeError>(Err::<T, ()>(())),
        Err(failure) => decoded == Err::<Result<T, ()>, _>(failure),
    }
}

/// The reply that Tholos gave, from what the host handed back.
pub open spec fn reply_from<T>(codes: ErrorCodes, received: Received<T>) -> Reply<T> {
    match received {
        Ok(value) => Ok(value),
        Err(failure) => Err(Error::reported(codes, failure)),
    }
}

/// Makes out the reply that Tholos gave from what the host handed back.
pub fn decode_reply<T>(codes: &ErrorCodes, received: Received<T>) -> (reply: Reply<T>)
    ensures
        reply == reply_from(*codes, received),
{
    match received {
        Ok(value) => Ok(value),
        Err(failure) => Err(Error::from_failure(codes, failure)),
    }
}

} // verus!
