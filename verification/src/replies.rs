//! What the bot says: every text that ends a command, fixed or filled in.

use crate::daily::ClaimOutcome;
use crate::slots::{spec_glyph, Reels, SlotOutcome};
use crate::text::{numeral_i64, numeral_of, numeral_of_nat, numeral_u64};
use vstd::prelude::*;
use vstd::string::StringExecFns;

verus! {

/// The answer to a command that the bot does not know.
pub open spec fn unknown_command_text() -> Seq<char> {
    "Unknown command."@
}

/// The list of commands.
pub open spec fn help_text() -> Seq<char> {
    "Here's a list of my commands:\n\n**/nuggies `[message]`**: Chat with Nuggies AI.\n**/ask `[question]`**: Ask the AI a question.\n**/fox**: Get a random fox GIF.\n**/translate `[language]` `[text]`**: Translate text to a specified language.\n**/daily**: Claim your daily nuggets.\n**/nuggetbox**: Check your personal amount of nuggets.\n**/slots**: Spend 5 nuggets for a chance to win big!\n**/help**: Shows this help message."@
}

/// The answer to a chat command without a message.
pub open spec fn missing_message_text() -> Seq<char> {
    "Please provide a message for Nuggies."@
}

/// The answer to a question command without a question.
pub open spec fn missing_question_text() -> Seq<char> {
    "Please provide a question."@
}

/// The answer to a translation command that lacks the language or the text.
pub open spec fn missing_translation_text() -> Seq<char> {
    "Please provide both a language and text."@
}

/// Said in place of a persona answer when the completion service fails.
pub open spec fn chat_failure_text() -> Seq<char> {
    "Sorry, I couldn't get a response from Nuggies right now."@
}

/// Said in place of an answer when the completion service fails.
pub open spec fn ask_failure_text() -> Seq<char> {
    "Sorry, I couldn't get a response right now."@
}

/// Said in place of a translation when the completion service fails.
pub open spec fn translate_failure_text() -> Seq<char> {
    "Sorry, I couldn't translate that."@
}

/// Said in place of a reply to a chat message when the completion service
/// fails.
pub open spec fn mention_failure_text() -> Seq<char> {
    "My circuits are fried."@
}

/// Stands in for the quip after a play when the completion service fails.
pub open spec fn quip_failure_text() -> Seq<char> {
    "..."@
}

/// The completion when the service answered without a text.
pub open spec fn overloaded_text() -> Seq<char> {
    "Sorry, the Endpoint is currently overloaded, please try again."@
}

/// The completion when the service answered without candidates.
pub open spec fn no_candidates_text() -> Seq<char> {
    "I couldn't come up with a response. Perhaps the topic was too spicy?"@
}

/// The picture shown when the media search fails or finds nothing.
pub open spec fn default_gif_url() -> Seq<char> {
    "https://media.tenor.com/YxT1w3VX5BAAAAAM/fox-dance.gif"@
}

/// The answer to a claim on a day that is already claimed.
pub open spec fn already_claimed_text() -> Seq<char> {
    "You have already claimed your daily nuggets. Please try again tomorrow."@
}

/// The answer to a user who has no account yet.
pub open spec fn no_account_text() -> Seq<char> {
    "You don't have a nuggetbox yet! Use `/daily` to get your first nuggets."@
}

/// The answer to a play that the balance does not cover.
pub open spec fn insufficient_funds_text() -> Seq<char> {
    "You don't have enough nuggets to play the slots! You need at least 5."@
}

/// The answer to a command of the economy when the store cannot be read or
/// written.
pub open spec fn store_failure_text() -> Seq<char> {
    "I can't reach your nuggetbox right now. Please try again later."@
}

/// The answer to a claim when the day cannot be told from the clock.
pub open spec fn clock_failure_text() -> Seq<char> {
    "I can't tell what day it is right now. Please try again later."@
}

/// The answer to a claim.
pub open spec fn claim_text(outcome: ClaimOutcome) -> Seq<char> {
    match outcome {
        ClaimOutcome::FirstBonus { amount, new_balance } => "Welcome! You received your first "@
            + numeral_of(amount as int) + " nuggets!"@,
        ClaimOutcome::Claimed { amount, new_balance } => "You received "@ + numeral_of(
            amount as int,
        ) + " nuggets!"@,
        ClaimOutcome::AlreadyClaimed { balance } => already_claimed_text(),
    }
}

/// The answer to a balance query.
pub open spec fn balance_text(balance: Option<i64>) -> Seq<char> {
    match balance {
        Some(nuggets) => "You have "@ + numeral_of(nuggets as int) + " nuggets in your nuggetbox."@,
        None => no_account_text(),
    }
}

/// The reels as they are shown.
pub open spec fn reels_text(reels: Reels) -> Seq<char> {
    "[ "@ + spec_glyph(reels.left) + " | "@ + spec_glyph(reels.middle) + " | "@ + spec_glyph(
        reels.right,
    ) + " ]"@
}

/// The answer to a play: the reels, what was won if anything was, and the
/// quip.
pub open spec fn play_text(outcome: SlotOutcome, quip: Seq<char>) -> Seq<char> {
    if outcome.payout > 5 {
        reels_text(outcome.reels) + "\n\nYou won "@ + numeral_of(outcome.payout as int)
            + " nuggets!\n"@ + quip
    } else if outcome.payout == 5 {
        reels_text(outcome.reels) + "\n\nYou get your 5 nuggets back.\n"@ + quip
    } else {
        reels_text(outcome.reels) + "\n\n"@ + quip
    }
}

/// The answer to a question or a chat message: who asked what, and the
/// answer.
pub open spec fn asked_text(user_id: u64, question: Seq<char>, answer: Seq<char>) -> Seq<char> {
    "<@"@ + numeral_of_nat(user_id as nat) + "> asked: "@ + question + "\n\n"@ + answer
}

pub fn render_claim(outcome: ClaimOutcome) -> (text: String)
    ensures
        text@ == claim_text(outcome),
{
    match outcome {
        ClaimOutcome::FirstBonus { amount, new_balance } => {
            let mut text = String::from_str("Welcome! You received your first ");
            text.append(numeral_i64(amount).as_str());
            text.append(" nuggets!");
            text
        },
        ClaimOutcome::Claimed { amount, new_balance } => {
            let mut text = String::from_str("You received ");
            text.append(numeral_i64(amount).as_str());
            text.append(" nuggets!");
            text
        },
        ClaimOutcome::AlreadyClaimed { balance } => String::from_str(
            "You have already claimed your daily nuggets. Please try again tomorrow.",
        ),
    }
}

pub fn render_balance(balance: Option<i64>) -> (text: String)
    ensures
        text@ == balance_text(balance),
{
    match balance {
        Some(nuggets) => {
            let mut text = String::from_str("You have ");
            text.append(numeral_i64(nuggets).as_str());
            text.append(" nuggets in your nuggetbox.");
            text
        },
        None => String::from_str(
            "You don't have a nuggetbox yet! Use `/daily` to get your first nuggets.",
        ),
    }
}

pub fn render_reels(reels: Reels) -> (text: String)
    ensures
        text@ == reels_text(reels),
{
    let mut text = String::from_str("[ ");
    text.append(reels.left.glyph());
    text.append(" | ");
    text.append(reels.middle.glyph());
    text.append(" | ");
    text.append(reels.right.glyph());
    text.append(" ]");
    text
}

pub fn render_play(outcome: SlotOutcome, quip: &str) -> (text: String)
    ensures
        text@ == play_text(outcome, quip@),
{
    let mut text = render_reels(outcome.reels);
    if outcome.payout > 5 {
        text.append("\n\nYou won ");
        text.append(numeral_i64(outcome.payout).as_str());
        text.append(" nuggets!\n");
    } else if outcome.payout == 5 {
        text.append("\n\nYou get your 5 nuggets back.\n");
    } else {
        text.append("\n\n");
    }
    text.append(quip);
    text
}

pub fn render_asked(user_id: u64, question: &str, answer: &str) -> (text: String)
    ensures
        text@ == asked_text(user_id, question@, answer@),
{
    let mut text = String::from_str("<@");
    text.append(numeral_u64(user_id).as_str());
    text.append("> asked: ");
    text.append(question);
    text.append("\n\n");
    text.append(answer);
    text
}

pub fn render_help() -> (text: String)
    ensures
        text@ == help_text(),
{
    String::from_str(
        "Here's a list of my commands:\n\n**/nuggies `[message]`**: Chat with Nuggies AI.\n**/ask `[question]`**: Ask the AI a question.\n**/fox**: Get a random fox GIF.\n**/translate `[language]` `[text]`**: Translate text to a specified language.\n**/daily**: Claim your daily nuggets.\n**/nuggetbox**: Check your personal amount of nuggets.\n**/slots**: Spend 5 nuggets for a chance to win big!\n**/help**: Shows this help message.",
    )
}

} // verus!
