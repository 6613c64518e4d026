//! The library's error type.

use vstd::prelude::*;

verus! {

/// An application error carrying a human-readable message.
#[derive(Debug, Clone)]
pub enum AppError {
    Message(String),
}

impl AppError {
    /// The message of the error, as `Display` would print it.
    pub fn message(&self) -> (res: String)
        ensures
            match self {
                AppError::Message(m) => res@ == m@,
            },
    {
        match self {
            AppError::Message(m) => m.clone(),
        }
    }
}

/// An error with the given message.
pub fn app_error(message: &str) -> (res: AppError)
    ensures
        res matches AppError::Message(m) && m@ == message@,
{
    AppError::Message(message.to_owned())
}

} // verus!
