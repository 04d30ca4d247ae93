//! The reaction to an event: whom to rename and what to answer when
//! somebody introduces themselves.

use crate::error::ReactError;
use crate::message::{
    Event, Greeting, GreetingView, InboundMessage, MessageView, RenameRequest, RenameView, Reply,
    ReplyView,
};
use crate::pattern::{regex_captures, regex_compiles, search, Found};
use crate::text::{blank, chars_between, chars_from, is_blank, slice_between, slice_from};
use crate::Data;
use vstd::prelude::*;
use vstd::string::StringExecFns;

verus! {

/// What to do about an event.
#[derive(Clone, Debug, PartialEq, Eq)]
pub enum Reaction {
    /// Nothing is sent.
    Nothing,
    /// The author is renamed and answered.
    Greet(Greeting),
}

/// A [`Reaction`] in specifications.
pub ghost enum ReactionView {
    Nothing,
    Greet(GreetingView),
}

impl View for Reaction {
    type V = ReactionView;

    open spec fn view(&self) -> ReactionView {
        match self {
            Reaction::Nothing => ReactionView::Nothing,
            Reaction::Greet(greeting) => ReactionView::Greet(greeting@),
        }
    }
}

/// The view of a handler's result.
pub open spec fn outcome_view(r: Result<Reaction, ReactError>) -> Result<ReactionView, ReactError> {
    match r {
        Ok(reaction) => Ok(reaction@),
        Err(e) => Err(e),
    }
}

/// The regular expression that finds an introduction: "I'm" or "I am" in
/// any case, beginning at a word's edge, then white space and a word. The
/// word is the name, and the only group.
pub const INTRO_PATTERN: &'static str = "(?i)\\b(?:i'm|i am)\\s+(\\w+)\\b";

/// The number of the group that captures the name.
pub const NAME_GROUP: usize = 1;

/// The reason recorded with every rename.
pub open spec fn rename_reason() -> Seq<char> {
    "Hi back I'm bot"@
}

/// The answer to somebody who goes by `name` from now on.
pub open spec fn greeting_text(name: Seq<char>) -> Seq<char> {
    "Hi "@ + name + ", I'm bot!"@
}

/// The rename and the reply for the author of `msg`, written in `group`, who
/// introduced themselves as `name`.
pub open spec fn greeting_for(msg: MessageView, group: u64, name: Seq<char>) -> GreetingView {
    GreetingView {
        rename: RenameView {
            user_id: msg.author_id,
            group_id: group,
            new_name: name,
            reason: rename_reason(),
        },
        reply: ReplyView { message_id: msg.id, text: greeting_text(name) },
    }
}

/// What is done about `msg` when the search for an introduction in its text
/// came back with `found`.
///
/// An automated author is turned away first. Without a match, or without a
/// captured name, nothing happens. Anything but white space behind the match
/// is an error, and so is a clean introduction outside a group. Otherwise the
/// author is renamed to the captured word and greeted by it.
pub open spec fn verdict(msg: MessageView, found: Option<Found>) -> Result<
    ReactionView,
    ReactError,
> {
    if msg.author_is_bot {
        Err(ReactError::SenderIsBot)
    } else if found is None || found->0.group is None {
        Ok(ReactionView::Nothing)
    } else if !is_blank(chars_from(msg.content, found->0.end as int)) {
        Err(ReactError::ExtraWords)
    } else if msg.group_id is None {
        Err(ReactError::MissingGroup)
    } else {
        let span = found->0.group->0;
        let name = chars_between(msg.content, span.start as int, span.end as int);
        Ok(ReactionView::Greet(greeting_for(msg, msg.group_id->0, name)))
    }
}

/// Decides what to do about `msg`, given where the search for an
/// introduction matched in its text.
pub fn react(msg: &InboundMessage, found: Option<Found>) -> (r: Result<Reaction, ReactError>)
    requires
        found matches Some(f) ==> f.fits(msg.content@),
    ensures
        outcome_view(r) == verdict(msg@, found),
{
    if msg.author_is_bot {
        return Err(ReactError::SenderIsBot);
    }
    let (end, span) = match found {
        Some(Found { end, group: Some(span) }) => (end, span),
        _ => { return Ok(Reaction::Nothing); },
    };
    let text = msg.content.as_str();
    if !blank(slice_from(text, end)) {
        return Err(ReactError::ExtraWords);
    }
    let group_id = match msg.group_id {
        Some(id) => id,
        None => { return Err(ReactError::MissingGroup); },
    };
    let name = slice_between(text, span.start, span.end);
    let mut answer = "Hi ".to_owned();
    answer.append(name);
    answer.append(", I'm bot!");
    Ok(
        Reaction::Greet(
            Greeting {
                rename: RenameRequest {
                    user_id: msg.author_id,
                    group_id,
                    new_name: name.to_owned(),
                    reason: "Hi back I'm bot".to_owned(),
                },
                reply: Reply { message_id: msg.id, text: answer },
            },
        ),
    )
}

/// What is done about a message: an automated author is turned away, a
/// pattern that does not compile is an error, and else the [`verdict`] is
/// given on what the pattern finds in the text.
pub open spec fn handled(msg: MessageView) -> Result<ReactionView, ReactError> {
    if msg.author_is_bot {
        Err(ReactError::SenderIsBot)
    } else if regex_compiles(INTRO_PATTERN@) {
        verdict(msg, introduction_in(msg.content))
    } else {
        Err(ReactError::Pattern)
    }
}

/// Handles one event. Only a message can lead to anything: its text is
/// searched for an introduction, and [`react`] decides on what was found.
pub fn event_handler(event: &Event, _data: &Data) -> (r: Result<Reaction, ReactError>)
    ensures
        match *event {
            Event::Message(msg) => outcome_view(r) == handled(msg@),
            _ => r matches Ok(Reaction::Nothing),
        },
{
    match event {
        Event::Message(msg) => {
            if msg.author_is_bot {
                return Err(ReactError::SenderIsBot);
            }
            match search(INTRO_PATTERN, msg.content.as_str(), NAME_GROUP) {
                Ok(found) => react(msg, found),
                Err(e) => Err(e),
            }
        },
        _ => Ok(Reaction::Nothing),
    }
}

/// Whether `found` is an introduction with nothing but white space behind it.
pub open spec fn clean_introduction(text: Seq<char>, found: Option<Found>) -> bool {
    &&& found is Some
    &&& found->0.group is Some
    &&& is_blank(chars_from(text, found->0.end as int))
}

/// The name that `found` captured in `text`.
pub open spec fn captured_name(text: Seq<char>, found: Found) -> Seq<char>
    recommends
        found.group is Some,
{
    chars_between(text, found.group->0.start as int, found.group->0.end as int)
}

/// Somebody who is no automated account and introduces themselves in a
/// group, with nothing but white space behind the name, is renamed to that
/// name and greeted by it, in a reply to their message.
pub proof fn lemma_introduction_is_greeted(msg: MessageView, found: Found)
    requires
        !msg.author_is_bot,
        msg.group_id is Some,
        clean_introduction(msg.content, Some(found)),
    ensures
        verdict(msg, Some(found)) matches Ok(ReactionView::Greet(greeting)) && {
            &&& greeting.rename.user_id == msg.author_id
            &&& greeting.rename.group_id == msg.group_id->0
            &&& greeting.rename.new_name == captured_name(msg.content, found)
            &&& greeting.rename.reason == rename_reason()
            &&& greeting.reply.message_id == msg.id
            &&& greeting.reply.text == greeting_text(captured_name(msg.content, found))
        },
{
}

/// The greeting holds the name, right behind "Hi ".
pub proof fn lemma_greeting_holds_name(name: Seq<char>)
    ensures
        greeting_text(name).len() == name.len() + 13,
        greeting_text(name).subrange(3, 3 + name.len() as int) == name,
{
    reveal_strlit("Hi ");
    reveal_strlit(", I'm bot!");
    assert(greeting_text(name).subrange(3, 3 + name.len() as int) =~= name);
}

/// An introduction with anything but white space behind it leads to no
/// greeting: the message is turned away.
pub proof fn lemma_extra_words_are_dropped(msg: MessageView, found: Found)
    requires
        found.group is Some,
        !is_blank(chars_from(msg.content, found.end as int)),
    ensures
        verdict(msg, Some(found)) == Err::<ReactionView, ReactError>(
            if msg.author_is_bot {
                ReactError::SenderIsBot
            } else {
                ReactError::ExtraWords
            },
        ),
{
}

/// A text in which the pattern matches nowhere leads to no greeting.
pub proof fn lemma_no_match_no_greeting(msg: MessageView)
    ensures
        verdict(msg, None) == if msg.author_is_bot {
            Err::<ReactionView, ReactError>(ReactError::SenderIsBot)
        } else {
            Ok(ReactionView::Nothing)
        },
{
}

/// An automated account is never greeted, whatever it wrote.
pub proof fn lemma_bot_is_never_greeted(msg: MessageView, found: Option<Found>)
    requires
        msg.author_is_bot,
    ensures
        verdict(msg, found) == Err::<ReactionView, ReactError>(ReactError::SenderIsBot),
{
}

/// A greeting is decided on for clean introductions that a person wrote in a
/// group, and for nothing else.
pub proof fn lemma_greeted_only_when_introduced(msg: MessageView, found: Option<Found>)
    ensures
        verdict(msg, found) matches Ok(ReactionView::Greet(_)) <==> {
            &&& !msg.author_is_bot
            &&& msg.group_id is Some
            &&& clean_introduction(msg.content, found)
        },
{
}

/// The match that the handler works on: what the pattern finds in `text`.
pub open spec fn introduction_in(text: Seq<char>) -> Option<Found> {
    regex_captures(INTRO_PATTERN@, text, NAME_GROUP)
}

/// Where the pattern compiles, the handler renames and greets a person who
/// wrote, in a group, a text in which the pattern finds an introduction with
/// nothing but white space behind it: the rename carries the captured name,
/// and the reply greets by it.
pub proof fn lemma_handler_greets_introduction(msg: MessageView)
    requires
        regex_compiles(INTRO_PATTERN@),
        !msg.author_is_bot,
        msg.group_id is Some,
        clean_introduction(msg.content, introduction_in(msg.content)),
    ensures
        handled(msg) == Ok::<ReactionView, ReactError>(
            ReactionView::Greet(
                greeting_for(
                    msg,
                    msg.group_id->0,
                    captured_name(msg.content, introduction_in(msg.content)->0),
                ),
            ),
        ),
{
}

/// The handler decides on a greeting for nothing else: not for an automated
/// author, not outside a group, not where the pattern finds nothing, and not
/// where anything but white space follows what it finds.
pub proof fn lemma_handler_greets_nothing_else(msg: MessageView)
    ensures
        handled(msg) matches Ok(ReactionView::Greet(_)) <==> {
            &&& regex_compiles(INTRO_PATTERN@)
            &&& !msg.author_is_bot
            &&& msg.group_id is Some
            &&& clean_introduction(msg.content, introduction_in(msg.content))
        },
        msg.author_is_bot ==> handled(msg) == Err::<ReactionView, ReactError>(
            ReactError::SenderIsBot,
        ),
        regex_compiles(INTRO_PATTERN@) && !msg.author_is_bot && introduction_in(msg.content)
            is None ==> handled(msg) == Ok::<ReactionView, ReactError>(ReactionView::Nothing),
        regex_compiles(INTRO_PATTERN@) && !msg.author_is_bot && introduction_in(msg.content)
            is Some && introduction_in(msg.content)->0.group is Some && !is_blank(
            chars_from(msg.content, introduction_in(msg.content)->0.end as int),
        ) ==> handled(msg) == Err::<ReactionView, ReactError>(ReactError::ExtraWords),
{
}

} // verus!
