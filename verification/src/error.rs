//! The errors of the consumer contract.

use vstd::prelude::*;

use crate::tholos;
use crate::tholos::InvokeError;

verus! {

/// What an entry point of the consumer can fail with. The states of the consumer's own life cycle
/// stand beside the errors passed on from Tholos, so that a caller handles both in one place.
#[derive(Clone, Copy, Debug, PartialEq, Eq, PartialOrd, Ord, Structural)]
pub enum Error {
    /// The pinned Tholos address did not resolve to an instance that can be invoked (a wrong
    /// address, other code, a trap, or a return value that does not decode), or the call failed
    /// for a reason that none of the variants below covers.
    InvalidTholosId,
    /// The Tholos instance has not been initialized yet.
    TholosNotInitialized,
    /// The Tholos instance is paused.
    TholosPaused,
    /// No assertion exists under the given id on the Tholos instance.
    AssertionNotFound,
    /// The consumer has not been initialized yet.
    NotInitialized,
    /// The consumer has already been initialized.
    AlreadyInitialized,
}

impl Error {
    /// The number under which the contract reports this error.
    pub open spec fn number(self) -> u32 {
        match self {
            Error::InvalidTholosId => 1,
            Error::TholosNotInitialized => 2,
            Error::TholosPaused => 3,
            Error::AssertionNotFound => 4,
            Error::NotInitialized => 5,
            Error::AlreadyInitialized => 6,
        }
    }

    /// The number under which the contract reports this error.
    pub fn code(self) -> (code: u32)
        ensures
            code == self.number(),
    {
        match self {
            Error::InvalidTholosId => 1,
            Error::TholosNotInitialized => 2,
            Error::TholosPaused => 3,
            Error::AssertionNotFound => 4,
            Error::NotInitialized => 5,
            Error::AlreadyInitialized => 6,
        }
    }

    /// What the consumer makes of an error that an invocation of Tholos ended with.
    pub open spec fn of_failure(failure: Result<tholos::Error, InvokeError>) -> Error {
        if failure == Ok::<tholos::Error, InvokeError>(tholos::Error::NotInitialized) {
            Error::TholosNotInitialized
        } else if failure == Ok::<tholos::Error, InvokeError>(tholos::Error::Paused) {
            Error::TholosPaused
        } else if failure == Ok::<tholos::Error, InvokeError>(tholos::Error::AssertionNotFound) {
            Error::AssertionNotFound
        } else {
            Error::InvalidTholosId
        }
    }

    /// What the consumer returns for a reply from Tholos.
    pub open spec fn answer<T, C>(
        reply: Result<Result<T, C>, Result<tholos::Error, InvokeError>>,
    ) -> Result<T, Error> {
        match reply {
            Ok(Ok(value)) => Ok(value),
            Ok(Err(_)) => Err(Error::InvalidTholosId),
            Err(failure) => Err(Error::of_failure(failure)),
        }
    }

    /// Maps a reply from Tholos into what the consumer returns. Only the errors that the two entry
    /// points in use can give are told apart; every other failure, whether Tholos reported it or
    /// the call never got that far, is `InvalidTholosId`: to a caller they all mean that the call
    /// did not work as expected.
    pub fn from_tholos_call<T, C>(
        result: Result<Result<T, C>, Result<tholos::Error, InvokeError>>,
    ) -> (answer: Result<T, Error>)
        ensures
            answer == Error::answer(result),
    {
        match result {
            Ok(Ok(value)) => Ok(value),
            Ok(Err(_conversion_error)) => Err(Error::InvalidTholosId),
            Err(Ok(tholos::Error::NotInitialized)) => Err(Error::TholosNotInitialized),
            Err(Ok(tholos::Error::Paused)) => Err(Error::TholosPaused),
            Err(Ok(tholos::Error::AssertionNotFound)) => Err(Error::AssertionNotFound),
            Err(Ok(_other_tholos_error)) => Err(Error::InvalidTholosId),
            Err(Err(_invoke_error)) => Err(Error::InvalidTholosId),
        }
    }
}

} // verus!
