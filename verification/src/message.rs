//! What comes in from the messaging service and what goes out to it, as
//! plain values.

use vstd::prelude::*;

verus! {

/// A message that somebody wrote.
#[derive(Clone, Debug, PartialEq, Eq)]
pub struct InboundMessage {
    /// The message's own identifier, by which a reply refers to it.
    pub id: u64,
    /// The author's identifier.
    pub author_id: u64,
    /// The name that the author shows.
    pub author_name: String,
    /// The text as it was written.
    pub content: String,
    /// The group in which it was written; `None` for a message outside any
    /// group.
    pub group_id: Option<u64>,
    /// Whether the author is an automated account.
    pub author_is_bot: bool,
}

/// An [`InboundMessage`] in specifications.
pub ghost struct MessageView {
    pub id: u64,
    pub author_id: u64,
    pub author_name: Seq<char>,
    pub content: Seq<char>,
    pub group_id: Option<u64>,
    pub author_is_bot: bool,
}

impl View for InboundMessage {
    type V = MessageView;

    open spec fn view(&self) -> MessageView {
        MessageView {
            id: self.id,
            author_id: self.author_id,
            author_name: self.author_name@,
            content: self.content@,
            group_id: self.group_id,
            author_is_bot: self.author_is_bot,
        }
    }
}

/// A request to show a member of a group under a new name.
#[derive(Clone, Debug, PartialEq, Eq)]
pub struct RenameRequest {
    /// Whom to rename.
    pub user_id: u64,
    /// The group in which the new name is shown.
    pub group_id: u64,
    /// The new name.
    pub new_name: String,
    /// The reason that the service records with the change.
    pub reason: String,
}

/// A [`RenameRequest`] in specifications.
pub ghost struct RenameView {
    pub user_id: u64,
    pub group_id: u64,
    pub new_name: Seq<char>,
    pub reason: Seq<char>,
}

impl View for RenameRequest {
    type V = RenameView;

    open spec fn view(&self) -> RenameView {
        RenameView {
            user_id: self.user_id,
            group_id: self.group_id,
            new_name: self.new_name@,
            reason: self.reason@,
        }
    }
}

/// An answer to a message, which refers to it and notifies its author.
#[derive(Clone, Debug, PartialEq, Eq)]
pub struct Reply {
    /// The message that is answered.
    pub message_id: u64,
    /// The answer's text.
    pub text: String,
}

/// A [`Reply`] in specifications.
pub ghost struct ReplyView {
    pub message_id: u64,
    pub text: Seq<char>,
}

impl View for Reply {
    type V = ReplyView;

    open spec fn view(&self) -> ReplyView {
        ReplyView { message_id: self.message_id, text: self.text@ }
    }
}

/// What the bot does for somebody who introduced themselves: first the
/// rename, then the reply.
#[derive(Clone, Debug, PartialEq, Eq)]
pub struct Greeting {
    pub rename: RenameRequest,
    pub reply: Reply,
}

/// A [`Greeting`] in specifications.
pub ghost struct GreetingView {
    pub rename: RenameView,
    pub reply: ReplyView,
}

impl View for Greeting {
    type V = GreetingView;

    open spec fn view(&self) -> GreetingView {
        GreetingView { rename: self.rename@, reply: self.reply@ }
    }
}

/// What the messaging service reports.
#[derive(Clone, Debug, PartialEq, Eq)]
pub enum Event {
    /// The connection stands, and the bot is logged in under this name.
    Ready { bot_name: String },
    /// Somebody wrote a message.
    Message(InboundMessage),
    /// Anything else.
    Other,
}

} // verus!
