//! Plain chat messages: which of them the bot reacts to, and how.
//!
//! The triggers are tried in a fixed order and the first that matches
//! decides: messages of bots are passed over, then come the two maintenance
//! triggers, which only the maintainer can pull, then the keywords.

use crate::services::{completion_text, read_completion, CompletionReply};
use crate::replies::mention_failure_text;
use crate::text::{includes, lowercase_of, lowercased, occurs_in, same_text};
use vstd::prelude::*;
use vstd::string::StringExecFns;

verus! {

/// The one user who can pull the maintenance triggers.
pub const MAINTAINER_ID: u64 = 241614046913101825;

/// What a chat message sets off.
#[derive(Clone, Copy, Debug, PartialEq, Eq, Structural)]
pub enum Trigger {
    /// The message comes from a bot and is passed over.
    FromBot,
    /// Set up the pronoun role message.
    SetupPronouns,
    /// Set up the event-notification role message.
    SetupEvents,
    /// The message names Istanbul.
    Constantinople,
    /// The message names the bot: answer it in persona.
    Mention,
    /// The message sets nothing off.
    Nothing,
}

/// What a message sets off: the first that applies of bot author, the two
/// maintenance triggers, the keyword `istanbul` and the keyword `nuggies`,
/// the keywords in any mix of upper and lower case.
pub open spec fn trigger_for(author_is_bot: bool, author_id: u64, content: Seq<char>) -> Trigger {
    trigger_with(author_is_bot, author_id, content, lowercase_of(content))
}

/// What a message sets off, given its content and the lower-case form of
/// its content: the maintenance triggers are read off the content as it
/// is, the keywords off the lower-case form.
pub open spec fn trigger_with(
    author_is_bot: bool,
    author_id: u64,
    content: Seq<char>,
    lowered: Seq<char>,
) -> Trigger {
    if author_is_bot {
        Trigger::FromBot
    } else if author_id == MAINTAINER_ID && content == "assignrole:gender"@ {
        Trigger::SetupPronouns
    } else if author_id == MAINTAINER_ID && content == "assignrole:fcevents"@ {
        Trigger::SetupEvents
    } else if occurs_in("istanbul"@, lowered) {
        Trigger::Constantinople
    } else if occurs_in("nuggies"@, lowered) {
        Trigger::Mention
    } else {
        Trigger::Nothing
    }
}

/// Decides what a chat message sets off, with the lower-case form of its
/// content already made.
pub fn triage_lowered(author_is_bot: bool, author_id: u64, content: &str, lowered: &str) -> (trigger:
    Trigger)
    ensures
        trigger == trigger_with(author_is_bot, author_id, content@, lowered@),
{
    if author_is_bot {
        return Trigger::FromBot;
    }
    if author_id == MAINTAINER_ID {
        if same_text(content, "assignrole:gender") {
            return Trigger::SetupPronouns;
        }
        if same_text(content, "assignrole:fcevents") {
            return Trigger::SetupEvents;
        }
    }
    if includes(lowered, "istanbul") {
        Trigger::Constantinople
    } else if includes(lowered, "nuggies") {
        Trigger::Mention
    } else {
        Trigger::Nothing
    }
}

/// Decides what a chat message sets off.
pub fn triage(author_is_bot: bool, author_id: u64, content: &str) -> (trigger: Trigger)
    ensures
        trigger == trigger_for(author_is_bot, author_id, content@),
{
    let lowered = lowercased(content);
    triage_lowered(author_is_bot, author_id, content, lowered.as_str())
}

/// The picture that goes with the answer to `istanbul`.
pub fn constantinople_image() -> (path: &'static str)
    ensures
        path@ == "constantinople.png"@,
{
    "constantinople.png"
}

/// The answer to `istanbul`, with the picture or without.
pub open spec fn constantinople_text(image_found: bool) -> Seq<char> {
    if image_found {
        "That's Constantinople!"@
    } else {
        "That's Constantinople! (but I couldn't find the image)"@
    }
}

pub fn constantinople_reply(image_found: bool) -> (text: String)
    ensures
        text@ == constantinople_text(image_found),
{
    if image_found {
        String::from_str("That's Constantinople!")
    } else {
        String::from_str("That's Constantinople! (but I couldn't find the image)")
    }
}

/// The answer to a message that names the bot: the completion, or a fixed
/// text if the service failed.
pub open spec fn mention_text(answer: Option<CompletionReply>) -> Seq<char> {
    match answer {
        Some(reply) => completion_text(reply),
        None => mention_failure_text(),
    }
}

pub fn mention_reply(answer: &Option<CompletionReply>) -> (text: String)
    ensures
        text@ == mention_text(*answer),
{
    match answer {
        Some(reply) => read_completion(reply),
        None => String::from_str("My circuits are fried."),
    }
}

} // verus!
