//! The errors that the bot's commands and checks end with.

use vstd::prelude::*;

verus! {

/// Why a command or a check stopped.
#[derive(Debug)]
pub enum SunnyError {
    /// Something went wrong that only the log is told of.
    Log(String),
    /// The user did something the bot does not accept; they are told why.
    User(String),
    /// The user is told the first text, the log the second.
    UserAndLog(String, String),
}

/// Whether `e` is a log-only error with the text `text`.
pub open spec fn is_log(e: SunnyError, text: Seq<char>) -> bool {
    e matches SunnyError::Log(m) && m@ == text
}

/// Whether `e` is a user error with the text `text`.
pub open spec fn is_user(e: SunnyError, text: Seq<char>) -> bool {
    e matches SunnyError::User(m) && m@ == text
}

/// A log-only error with the text `text`.
pub fn log_error(text: &str) -> (r: SunnyError)
    ensures
        is_log(r, text@),
{
    SunnyError::Log(String::from_str(text))
}

/// A user error with the text `text`.
pub fn user_error(text: &str) -> (r: SunnyError)
    ensures
        is_user(r, text@),
{
    SunnyError::User(String::from_str(text))
}

} // verus!
