use nuggies::chat::{
    constantinople_image, constantinople_reply, mention_reply, triage, triage_lowered, Trigger,
    MAINTAINER_ID,
};
use nuggies::daily::ClaimOutcome;
use nuggies::persona::{
    ask_prompt, chat_prompt, get_nuggies_personality_prompt, mention_prompt, quip_prompt,
    translate_prompt,
};
use nuggies::services::{gif_or_default, gif_urls, pick_gif, read_completion, CompletionReply};
use nuggies::replies::{
    render_asked, render_balance, render_claim, render_help, render_play, render_reels,
};
use nuggies::slots::{Reels, SlotOutcome, Symbol, Tier};
use nuggies::text::{numeral_i64, numeral_u64};

const PERSONA: &str = "You are an Female AI assistant called 'Nuggies'.You have a somewhat friendly, slightly norse nordic, slightly pagan, sarcastic, gothic and somewhat unhinged personality.dont Roleplay";

fn outcome(tier: Tier, reels: Reels, payout: i64) -> SlotOutcome {
    SlotOutcome { reels, tier, payout, new_balance: 100 - 5 + payout }
}

fn text(value: &str) -> Option<String> {
    Some(value.to_string())
}

#[test]
fn numerals_of_unsigned_numbers() {
    assert_eq!(numeral_u64(0), "0");
    assert_eq!(numeral_u64(7), "7");
    assert_eq!(numeral_u64(10), "10");
    assert_eq!(numeral_u64(1234567890), "1234567890");
    assert_eq!(numeral_u64(241614046913101825), "241614046913101825");
    assert_eq!(numeral_u64(u64::MAX), "18446744073709551615");
}

#[test]
fn numerals_of_signed_numbers() {
    assert_eq!(numeral_i64(0), "0");
    assert_eq!(numeral_i64(15), "15");
    assert_eq!(numeral_i64(-1), "-1");
    assert_eq!(numeral_i64(-250), "-250");
    assert_eq!(numeral_i64(i64::MAX), "9223372036854775807");
    assert_eq!(numeral_i64(i64::MIN), "-9223372036854775808");
}

#[test]
fn numerals_agree_with_the_standard_library() {
    for number in [1u64, 9, 19, 99, 100, 101, 999, 1000, 65535, 4294967296] {
        assert_eq!(numeral_u64(number), number.to_string());
        assert_eq!(numeral_i64(-(number as i64)), (-(number as i64)).to_string());
    }
}

#[test]
fn persona_is_the_fixed_description() {
    assert_eq!(get_nuggies_personality_prompt(), PERSONA);
}

#[test]
fn prompts_wrap_the_users_text() {
    assert_eq!(
        chat_prompt("hi there"),
        format!("{}\nRespond to the following message as Nuggies:\n\nhi there", PERSONA)
    );
    assert_eq!(
        mention_prompt("hey Nuggies"),
        format!(
            "{}\nRespond to the following message as Nuggies and keep the response at one or 2 sentences:\n\nhey Nuggies",
            PERSONA
        )
    );
    assert_eq!(
        ask_prompt("Why is the sky blue?"),
        "Why is the sky blue?\n\nKeep your answer below 1800 characters."
    );
    assert_eq!(
        translate_prompt("French", "good morning"),
        "Translate the following text to French exactly and only output the translated text:\n\ngood morning"
    );
}

#[test]
fn quip_prompts_by_tier() {
    let gems = Reels { left: Symbol::Gem, middle: Symbol::Gem, right: Symbol::Gem };
    assert_eq!(
        quip_prompt(&outcome(Tier::Jackpot, gems, 250)),
        format!(
            "{}\nAs Nuggies, write a witty and sarcastic short one-liner for a user who just won 250 nuggets at a slot machine.",
            PERSONA
        )
    );
    assert_eq!(
        quip_prompt(&outcome(Tier::BreakEven, gems, 5)),
        format!(
            "{}\nAs Nuggies, write a witty and sarcastic short one-liner for a user who just broke even at a slot machine, getting their bet back.",
            PERSONA
        )
    );
    assert_eq!(
        quip_prompt(&outcome(Tier::Loss, gems, 0)),
        format!(
            "{}\nAs Nuggies, write a witty and sarcastic short one-liner for a user who just lost at a slot machine.",
            PERSONA
        )
    );
}

#[test]
fn claim_replies() {
    assert_eq!(
        render_claim(ClaimOutcome::FirstBonus { amount: 12, new_balance: 12 }),
        "Welcome! You received your first 12 nuggets!"
    );
    assert_eq!(
        render_claim(ClaimOutcome::Claimed { amount: 3, new_balance: 40 }),
        "You received 3 nuggets!"
    );
    assert_eq!(
        render_claim(ClaimOutcome::AlreadyClaimed { balance: 40 }),
        "You have already claimed your daily nuggets. Please try again tomorrow."
    );
}

#[test]
fn balance_replies() {
    assert_eq!(render_balance(Some(0)), "You have 0 nuggets in your nuggetbox.");
    assert_eq!(render_balance(Some(1337)), "You have 1337 nuggets in your nuggetbox.");
    assert_eq!(
        render_balance(None),
        "You don't have a nuggetbox yet! Use `/daily` to get your first nuggets."
    );
}

#[test]
fn reels_are_shown_in_brackets() {
    let reels = Reels { left: Symbol::Cherry, middle: Symbol::Clover, right: Symbol::Gem };
    assert_eq!(render_reels(reels), "[ 🍒 | 🍀 | 💎 ]");
    let reels = Reels { left: Symbol::Orange, middle: Symbol::Bell, right: Symbol::Orange };
    assert_eq!(render_reels(reels), "[ 🍊 | 🔔 | 🍊 ]");
}

#[test]
fn play_replies_by_payout() {
    let bells = Reels { left: Symbol::Bell, middle: Symbol::Bell, right: Symbol::Bell };
    assert_eq!(
        render_play(outcome(Tier::Jackpot, bells, 40), "Lucky you."),
        "[ 🔔 | 🔔 | 🔔 ]\n\nYou won 40 nuggets!\nLucky you."
    );
    let pair = Reels { left: Symbol::Bell, middle: Symbol::Gem, right: Symbol::Bell };
    assert_eq!(
        render_play(outcome(Tier::BreakEven, pair, 5), "Meh."),
        "[ 🔔 | 💎 | 🔔 ]\n\nYou get your 5 nuggets back.\nMeh."
    );
    let mixed = Reels { left: Symbol::Cherry, middle: Symbol::Gem, right: Symbol::Bell };
    assert_eq!(render_play(outcome(Tier::Loss, mixed, 0), "..."), "[ 🍒 | 💎 | 🔔 ]\n\n...");
}

#[test]
fn asked_reply_names_the_user() {
    assert_eq!(
        render_asked(123456789, "What is a nugget?", "Gold, obviously."),
        "<@123456789> asked: What is a nugget?\n\nGold, obviously."
    );
}

#[test]
fn help_lists_the_eight_commands() {
    assert_eq!(
        render_help(),
        "Here's a list of my commands:\n\n\
         **/nuggies `[message]`**: Chat with Nuggies AI.\n\
         **/ask `[question]`**: Ask the AI a question.\n\
         **/fox**: Get a random fox GIF.\n\
         **/translate `[language]` `[text]`**: Translate text to a specified language.\n\
         **/daily**: Claim your daily nuggets.\n\
         **/nuggetbox**: Check your personal amount of nuggets.\n\
         **/slots**: Spend 5 nuggets for a chance to win big!\n\
         **/help**: Shows this help message."
    );
}

#[test]
fn completion_is_the_text_of_the_answer() {
    let reply = CompletionReply { has_candidates: true, text: text("Hello!") };
    assert_eq!(read_completion(&reply), "Hello!");
    let reply = CompletionReply { has_candidates: true, text: text(" ") };
    assert_eq!(read_completion(&reply), " ");
}

#[test]
fn empty_completion_is_an_apology() {
    let reply = CompletionReply { has_candidates: true, text: text("") };
    assert_eq!(
        read_completion(&reply),
        "Sorry, the Endpoint is currently overloaded, please try again."
    );
    assert_eq!(
        mention_reply(&Some(reply)),
        "Sorry, the Endpoint is currently overloaded, please try again."
    );
}

#[test]
fn completion_without_text_is_an_apology() {
    let reply = CompletionReply { has_candidates: true, text: None };
    assert_eq!(
        read_completion(&reply),
        "Sorry, the Endpoint is currently overloaded, please try again."
    );
}

#[test]
fn completion_without_candidates_is_an_apology() {
    let reply = CompletionReply { has_candidates: false, text: None };
    assert_eq!(
        read_completion(&reply),
        "I couldn't come up with a response. Perhaps the topic was too spicy?"
    );
    let reply = CompletionReply { has_candidates: false, text: text("stray") };
    assert_eq!(
        read_completion(&reply),
        "I couldn't come up with a response. Perhaps the topic was too spicy?"
    );
}

#[test]
fn gif_urls_keep_the_results_that_have_one() {
    let results = vec![text("a"), None, text("b"), None, None, text("c")];
    assert_eq!(gif_urls(&results), vec!["a", "b", "c"]);
    assert_eq!(gif_urls(&vec![None, None]), Vec::<String>::new());
    assert_eq!(gif_urls(&Vec::new()), Vec::<String>::new());
}

#[test]
fn gif_pick_is_one_of_the_results() {
    let results = vec![text("a"), None, text("b"), text("c")];
    let mut seen = Vec::new();
    for _ in 0..300 {
        let pick = pick_gif(&results).unwrap();
        assert!(["a", "b", "c"].contains(&pick.as_str()));
        if !seen.contains(&pick) {
            seen.push(pick);
        }
    }
    assert_eq!(seen.len(), 3);
}

#[test]
fn gif_pick_from_nothing_is_nothing() {
    assert_eq!(pick_gif(&Vec::new()), None);
    assert_eq!(pick_gif(&vec![None, None, None]), None);
}

#[test]
fn gif_falls_back_to_the_default() {
    assert_eq!(gif_or_default(&text("https://example.org/fox.gif")), "https://example.org/fox.gif");
    assert_eq!(
        gif_or_default(&None),
        "https://media.tenor.com/YxT1w3VX5BAAAAAM/fox-dance.gif"
    );
}

#[test]
fn messages_of_bots_are_passed_over() {
    assert_eq!(triage(true, MAINTAINER_ID, "assignrole:gender"), Trigger::FromBot);
    assert_eq!(triage(true, 5, "nuggies, are you there?"), Trigger::FromBot);
}

#[test]
fn maintenance_triggers_need_the_maintainer() {
    assert_eq!(MAINTAINER_ID, 241614046913101825);
    assert_eq!(triage(false, MAINTAINER_ID, "assignrole:gender"), Trigger::SetupPronouns);
    assert_eq!(triage(false, MAINTAINER_ID, "assignrole:fcevents"), Trigger::SetupEvents);
    assert_eq!(triage(false, 5, "assignrole:gender"), Trigger::Nothing);
    assert_eq!(triage(false, 5, "assignrole:fcevents"), Trigger::Nothing);
}

#[test]
fn maintenance_triggers_are_the_whole_message() {
    assert_eq!(triage(false, MAINTAINER_ID, "assignrole:gender "), Trigger::Nothing);
    assert_eq!(triage(false, MAINTAINER_ID, "Assignrole:gender"), Trigger::Nothing);
    assert_eq!(triage(false, MAINTAINER_ID, "assignrole:gender nuggies"), Trigger::Mention);
}

#[test]
fn keywords_match_in_any_case() {
    assert_eq!(triage(false, 5, "I was in ISTANBUL last year"), Trigger::Constantinople);
    assert_eq!(triage(false, 5, "istanbul"), Trigger::Constantinople);
    assert_eq!(triage(false, 5, "Hey NuGGies!"), Trigger::Mention);
    assert_eq!(triage(false, 5, "xnuggiesx"), Trigger::Mention);
    assert_eq!(triage(false, 5, "nothing to see"), Trigger::Nothing);
    assert_eq!(triage(false, 5, ""), Trigger::Nothing);
}

#[test]
fn keywords_are_read_off_the_lowered_text() {
    assert_eq!(triage_lowered(false, 5, "ISTANBUL", "istanbul"), Trigger::Constantinople);
    assert_eq!(triage_lowered(false, 5, "istanbul", "ISTANBUL"), Trigger::Nothing);
    assert_eq!(triage_lowered(false, 5, "x", "hey nuggies"), Trigger::Mention);
    assert_eq!(triage_lowered(false, 5, "x", "nuggies in istanbul"), Trigger::Constantinople);
    assert_eq!(triage_lowered(false, 5, "x", ""), Trigger::Nothing);
    assert_eq!(triage_lowered(true, 5, "x", "istanbul"), Trigger::FromBot);
}

#[test]
fn maintenance_triggers_are_read_off_the_content() {
    assert_eq!(
        triage_lowered(false, MAINTAINER_ID, "assignrole:gender", "istanbul"),
        Trigger::SetupPronouns
    );
    assert_eq!(
        triage_lowered(false, MAINTAINER_ID, "assignrole:fcevents", "nuggies"),
        Trigger::SetupEvents
    );
    assert_eq!(
        triage_lowered(false, MAINTAINER_ID, "ASSIGNROLE:GENDER", "assignrole:gender"),
        Trigger::Nothing
    );
    assert_eq!(triage_lowered(false, 6, "assignrole:gender", "nuggies"), Trigger::Mention);
}

#[test]
fn istanbul_wins_over_the_bots_name() {
    assert_eq!(triage(false, 5, "nuggies, take me to Istanbul"), Trigger::Constantinople);
}

#[test]
fn constantinople_with_and_without_the_picture() {
    assert_eq!(constantinople_image(), "constantinople.png");
    assert_eq!(constantinople_reply(true), "That's Constantinople!");
    assert_eq!(
        constantinople_reply(false),
        "That's Constantinople! (but I couldn't find the image)"
    );
}

#[test]
fn mention_reply_falls_back() {
    let reply = CompletionReply { has_candidates: true, text: text("Skål!") };
    assert_eq!(mention_reply(&Some(reply)), "Skål!");
    assert_eq!(mention_reply(&None), "My circuits are fried.");
}
