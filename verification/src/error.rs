use vstd::prelude::*;

use crate::accounts::AccountRuntimeFailure;

verus! {

/// An error of the runtime: a configuration problem with its message, or an account that
/// cannot be acted for.
#[derive(Debug, Clone, PartialEq, Eq)]
pub enum RuntimeError {
    Config(String),
    Account(AccountRuntimeFailure),
}

impl RuntimeError {
    /// The text of the message this error carries.
    pub open spec fn message_view(self) -> Seq<char> {
        match self {
            RuntimeError::Config(m) => m@,
            RuntimeError::Account(f) => f.message_view(),
        }
    }

    /// The message, as it is printed.
    pub fn message(&self) -> (r: String)
        ensures
            r@ == self.message_view(),
    {
        match self {
            RuntimeError::Config(m) => m.clone(),
            RuntimeError::Account(f) => f.message(),
        }
    }
}

/// A `Result` that failed with a configuration error whose message is `m`.
pub open spec fn is_config_err<T>(r: Result<T, RuntimeError>, m: Seq<char>) -> bool {
    r matches Err(RuntimeError::Config(e)) && e@ == m
}

/// A result with its error replaced by the error's message.
pub open spec fn rview<T>(r: Result<T, RuntimeError>) -> Result<T, Seq<char>> {
    match r {
        Ok(v) => Ok(v),
        Err(e) => Err(e.message_view()),
    }
}

} // verus!
