//! The persona that flavours the bot's completions, and the prompts that
//! are sent to the completion service.

use crate::slots::{SlotOutcome, Tier};
use crate::text::{numeral_i64, numeral_of};
use vstd::prelude::*;
use vstd::string::StringExecFns;

verus! {

/// The character description that opens every persona-flavoured prompt.
pub open spec fn persona_text() -> Seq<char> {
    "You are an Female AI assistant called 'Nuggies'.You have a somewhat friendly, slightly norse nordic, slightly pagan, sarcastic, gothic and somewhat unhinged personality.dont Roleplay"@
}

/// The prompt for a message sent with the chat command.
pub open spec fn chat_prompt_text(message: Seq<char>) -> Seq<char> {
    persona_text() + "\nRespond to the following message as Nuggies:\n\n"@ + message
}

/// The prompt for a chat message that mentions the bot.
pub open spec fn mention_prompt_text(message: Seq<char>) -> Seq<char> {
    persona_text()
        + "\nRespond to the following message as Nuggies and keep the response at one or 2 sentences:\n\n"@
        + message
}

/// The prompt for a question.
pub open spec fn ask_prompt_text(question: Seq<char>) -> Seq<char> {
    question + "\n\nKeep your answer below 1800 characters."@
}

/// The prompt for a translation.
pub open spec fn translate_prompt_text(language: Seq<char>, text: Seq<char>) -> Seq<char> {
    "Translate the following text to "@ + language
        + " exactly and only output the translated text:\n\n"@ + text
}

/// The prompt for the quip that follows a play.
pub open spec fn quip_prompt_text(outcome: SlotOutcome) -> Seq<char> {
    match outcome.tier {
        Tier::Jackpot => persona_text()
            + "\nAs Nuggies, write a witty and sarcastic short one-liner for a user who just won "@
            + numeral_of(outcome.payout as int) + " nuggets at a slot machine."@,
        Tier::BreakEven => persona_text()
            + "\nAs Nuggies, write a witty and sarcastic short one-liner for a user who just broke even at a slot machine, getting their bet back."@,
        Tier::Loss => persona_text()
            + "\nAs Nuggies, write a witty and sarcastic short one-liner for a user who just lost at a slot machine."@,
    }
}

pub fn get_nuggies_personality_prompt() -> (prompt: &'static str)
    ensures
        prompt@ == persona_text(),
{
    "You are an Female AI assistant called 'Nuggies'.You have a somewhat friendly, slightly norse nordic, slightly pagan, sarcastic, gothic and somewhat unhinged personality.dont Roleplay"
}

pub fn chat_prompt(message: &str) -> (prompt: String)
    ensures
        prompt@ == chat_prompt_text(message@),
{
    let mut prompt = String::from_str(get_nuggies_personality_prompt());
    prompt.append("\nRespond to the following message as Nuggies:\n\n");
    prompt.append(message);
    prompt
}

pub fn mention_prompt(message: &str) -> (prompt: String)
    ensures
        prompt@ == mention_prompt_text(message@),
{
    let mut prompt = String::from_str(get_nuggies_personality_prompt());
    prompt.append(
        "\nRespond to the following message as Nuggies and keep the response at one or 2 sentences:\n\n",
    );
    prompt.append(message);
    prompt
}

pub fn ask_prompt(question: &str) -> (prompt: String)
    ensures
        prompt@ == ask_prompt_text(question@),
{
    let mut prompt = String::from_str(question);
    prompt.append("\n\nKeep your answer below 1800 characters.");
    prompt
}

pub fn translate_prompt(language: &str, text: &str) -> (prompt: String)
    ensures
        prompt@ == translate_prompt_text(language@, text@),
{
    let mut prompt = String::from_str("Translate the following text to ");
    prompt.append(language);
    prompt.append(" exactly and only output the translated text:\n\n");
    prompt.append(text);
    prompt
}

pub fn quip_prompt(outcome: &SlotOutcome) -> (prompt: String)
    ensures
        prompt@ == quip_prompt_text(*outcome),
{
    let mut prompt = String::from_str(get_nuggies_personality_prompt());
    match outcome.tier {
        Tier::Jackpot => {
            prompt.append(
                "\nAs Nuggies, write a witty and sarcastic short one-liner for a user who just won ",
            );
            prompt.append(numeral_i64(outcome.payout).as_str());
            prompt.append(" nuggets at a slot machine.");
        },
        Tier::BreakEven => {
            prompt.append(
                "\nAs Nuggies, write a witty and sarcastic short one-liner for a user who just broke even at a slot machine, getting their bet back.",
            );
        },
        Tier::Loss => {
            prompt.append(
                "\nAs Nuggies, write a witty and sarcastic short one-liner for a user who just lost at a slot machine.",
            );
        },
    }
    prompt
}

} // verus!
