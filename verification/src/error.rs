//! Error type shared by the whole crate.

use vstd::prelude::*;

verus! {

/// Every failure of the library is one of these.
///
/// `Message` carries a user-facing description of a validation, resolution
/// or filesystem problem; `Io` carries the text of an I/O failure; and
/// `Subprocess` carries the exit code of a failed engine invocation together
/// with a description.
#[derive(Debug, Clone)]
pub enum AppError {
    Message(String),
    Io(String),
    Subprocess(i32, String),
}

impl AppError {
    /// Exit code the process should end with for this error: the engine's
    /// own code for a subprocess failure, 1 for everything else.
    pub fn exit_code(&self) -> (r: i32)
        ensures
            r == (match self {
                AppError::Subprocess(code, _) => *code,
                _ => 1,
            }),
    {
        match self {
            AppError::Subprocess(code, _) => *code,
            _ => 1,
        }
    }

    /// Wraps a description into the `Message` variant.
    pub fn message(msg: String) -> (r: AppError)
        ensures
            r == AppError::Message(msg),
    {
        AppError::Message(msg)
    }

    /// The human-readable text of the error.
    pub fn text(&self) -> (r: &String)
        ensures
            r == (match self {
                AppError::Message(msg) => msg,
                AppError::Io(msg) => msg,
                AppError::Subprocess(_, msg) => msg,
            }),
    {
        match self {
            AppError::Message(msg) => msg,
            AppError::Io(msg) => msg,
            AppError::Subprocess(_, msg) => msg,
        }
    }
}

} // verus!
