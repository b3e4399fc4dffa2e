//! What the loop of a virtual CPU does next.

use crate::error::Error;
use vstd::prelude::*;

verus! {

/// The outcome of one step of a virtual CPU's loop.
#[derive(Debug, Clone, PartialEq, Eq)]
pub enum Action {
    /// Enter the guest again.
    Continue,
    /// Leave the loop; the virtual CPU has come to its regular end.
    Stop,
    /// Leave the loop; the virtual CPU cannot go on.
    Fail(Error),
}

impl Action {
    /// The action that follows an operation which ended with `result`: go on after
    /// a success, fail with the operation's error otherwise.
    pub fn from(result: Result<(), Error>) -> (action: Action)
        ensures
            action == match result {
                Ok(_) => Action::Continue,
                Err(error) => Action::Fail(error),
            },
    {
        match result {
            Ok(_) => Action::Continue,
            Err(error) => Action::Fail(error),
        }
    }

    /// The error that this action stands for. An action that is no error gives
    /// `ActionNotError`.
    pub fn into(self) -> (error: Error)
        ensures
            error == match self {
                Action::Fail(inner) => inner,
                _ => Error::ActionNotError,
            },
    {
        match self {
            Action::Fail(inner) => inner,
            _ => Error::ActionNotError,
        }
    }
}

} // verus!
