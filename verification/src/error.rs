//! Why an event leads to nothing.

use vstd::prelude::*;

verus! {

/// Why an event was dropped.
#[derive(Clone, Copy, Debug, PartialEq, Eq, Structural)]
pub enum ReactError {
    /// The message was written by an automated account.
    SenderIsBot,
    /// Something other than white space follows the introduction.
    ExtraWords,
    /// The message was written outside any group, where nobody can be
    /// renamed.
    MissingGroup,
    /// The pattern for introductions could not be compiled.
    Pattern,
    /// The service did not carry out the rename.
    RenameFailed,
    /// The service did not take the reply.
    ReplyFailed,
}

impl ReactError {
    /// The error in words.
    pub fn message(&self) -> (text: String)
        ensures
            text@ == match *self {
                ReactError::SenderIsBot => "Sender is a bot"@,
                ReactError::ExtraWords => "More than one word follows, no match"@,
                ReactError::MissingGroup => "No guild_id present"@,
                ReactError::Pattern => "Invalid pattern"@,
                ReactError::RenameFailed => "Failed to set nickname"@,
                ReactError::ReplyFailed => "Could not send reply"@,
            },
    {
        match self {
            ReactError::SenderIsBot => "Sender is a bot".to_owned(),
            ReactError::ExtraWords => "More than one word follows, no match".to_owned(),
            ReactError::MissingGroup => "No guild_id present".to_owned(),
            ReactError::Pattern => "Invalid pattern".to_owned(),
            ReactError::RenameFailed => "Failed to set nickname".to_owned(),
            ReactError::ReplyFailed => "Could not send reply".to_owned(),
        }
    }
}

} // verus!
