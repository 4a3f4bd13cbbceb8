//! The command router: from a command's name and options to its effect.
//!
//! Every command is answered in two phases. It is acknowledged at once,
//! because what it needs (a completion, a media search, the ledger) may take
//! longer than the gateway waits; then the effect is carried out and the
//! acknowledged answer is finalized, with a fixed text where a service
//! failed. The router is a machine of stages: its runner performs each
//! `Step` and hands back the `Reply`.

use crate::calendar::{is_reference_date, today_in_reference_zone, CalendarDate};
use crate::chance::roll_between;
use crate::daily::{
    claim_has_room, claim_settled, has_claimed_on, has_room_for, settle_claim, ClaimOutcome,
    LARGEST_REWARD, SMALLEST_REWARD,
};
use crate::ledger::{Account, StoreOp};
use crate::persona::{
    ask_prompt, ask_prompt_text, chat_prompt, chat_prompt_text, quip_prompt, quip_prompt_text,
    translate_prompt, translate_prompt_text,
};
use crate::services::{
    completion_text, gif_or_default, gif_shown, is_pick_from, pick_gif, read_completion,
    CompletionReply,
};
use crate::replies::{
    ask_failure_text, asked_text, balance_text, chat_failure_text, claim_text, clock_failure_text,
    help_text, insufficient_funds_text, missing_message_text, missing_question_text,
    missing_translation_text, no_account_text, play_text, quip_failure_text, render_asked,
    render_balance, render_claim, render_help, render_play, store_failure_text,
    translate_failure_text, unknown_command_text,
};
use crate::slots::{
    draw_reels, has_room_for_spin, settle_spin, settled, spin_has_room, tier_of_roll, Reels,
    SlotOutcome, Symbol, Tier, ANTE,
};
use crate::text::same_text;
use vstd::prelude::*;
use vstd::string::StringExecFns;

verus! {

/// The commands that the bot knows.
#[derive(Clone, Copy, Debug, PartialEq, Eq, Structural)]
pub enum Command {
    /// Chat with the persona.
    Nuggies,
    /// Ask a question.
    Ask,
    /// Show a picture from the media search.
    Fox,
    /// Translate a text.
    Translate,
    /// Claim the daily reward.
    Daily,
    /// Read the balance.
    NuggetBox,
    /// Play the slot machine.
    Slots,
    /// List the commands.
    Help,
}

/// The kinds of effect that a command can have.
#[derive(Clone, Copy, Debug, PartialEq, Eq, Structural)]
pub enum EffectClass {
    AiChat,
    Translate,
    MediaSearch,
    EconomyOp,
    StaticText,
}

impl Command {
    /// The name under which the command is registered.
    pub open spec fn spec_name(self) -> Seq<char> {
        match self {
            Command::Nuggies => "nuggies"@,
            Command::Ask => "ask"@,
            Command::Fox => "fox"@,
            Command::Translate => "translate"@,
            Command::Daily => "daily"@,
            Command::NuggetBox => "nuggetbox"@,
            Command::Slots => "slots"@,
            Command::Help => "help"@,
        }
    }

    pub fn name(self) -> (name: &'static str)
        ensures
            name@ == self.spec_name(),
    {
        match self {
            Command::Nuggies => "nuggies",
            Command::Ask => "ask",
            Command::Fox => "fox",
            Command::Translate => "translate",
            Command::Daily => "daily",
            Command::NuggetBox => "nuggetbox",
            Command::Slots => "slots",
            Command::Help => "help",
        }
    }

    /// The kind of effect that the command has.
    pub open spec fn spec_effect_class(self) -> EffectClass {
        match self {
            Command::Nuggies => EffectClass::AiChat,
            Command::Ask => EffectClass::AiChat,
            Command::Translate => EffectClass::Translate,
            Command::Fox => EffectClass::MediaSearch,
            Command::Daily => EffectClass::EconomyOp,
            Command::NuggetBox => EffectClass::EconomyOp,
            Command::Slots => EffectClass::EconomyOp,
            Command::Help => EffectClass::StaticText,
        }
    }

    pub fn effect_class(self) -> (class: EffectClass)
        ensures
            class == self.spec_effect_class(),
    {
        match self {
            Command::Nuggies => EffectClass::AiChat,
            Command::Ask => EffectClass::AiChat,
            Command::Translate => EffectClass::Translate,
            Command::Fox => EffectClass::MediaSearch,
            Command::Daily => EffectClass::EconomyOp,
            Command::NuggetBox => EffectClass::EconomyOp,
            Command::Slots => EffectClass::EconomyOp,
            Command::Help => EffectClass::StaticText,
        }
    }
}

/// An option under which a command is registered. Every option is a
/// required text.
#[derive(Clone, Copy, Debug, PartialEq, Eq)]
pub struct OptionEntry {
    pub name: &'static str,
    pub description: &'static str,
}

/// The names of the options that a command reads.
pub open spec fn option_names(command: Command) -> Seq<Seq<char>> {
    match command {
        Command::Nuggies => seq!["message"@],
        Command::Ask => seq!["question"@],
        Command::Translate => seq!["language"@, "text"@],
        _ => Seq::<Seq<char>>::empty(),
    }
}

/// The descriptions of the options that a command reads, in the order of
/// their names.
pub open spec fn option_descriptions(command: Command) -> Seq<Seq<char>> {
    match command {
        Command::Nuggies => seq!["Your message to Nuggies"@],
        Command::Ask => seq!["Your question for the AI"@],
        Command::Translate => seq![
            "The language to translate to (e.g., 'French')"@,
            "The text to translate"@,
        ],
        _ => Seq::<Seq<char>>::empty(),
    }
}

/// The names of a list of options.
pub open spec fn names_of(options: Seq<OptionEntry>) -> Seq<Seq<char>> {
    Seq::new(options.len(), |i: int| options[i].name@)
}

/// The descriptions of a list of options.
pub open spec fn descriptions_of(options: Seq<OptionEntry>) -> Seq<Seq<char>> {
    Seq::new(options.len(), |i: int| options[i].description@)
}

impl Command {
    /// What the gateway shows as the command's description.
    pub open spec fn spec_description(self) -> Seq<char> {
        match self {
            Command::Nuggies => "Chat with Nuggies AI"@,
            Command::Ask => "Ask the AI a question"@,
            Command::Fox => "Get a random fox GIF"@,
            Command::Translate => "Translate text to a specified language"@,
            Command::Daily => "Claim your daily nuggets"@,
            Command::NuggetBox => "Check your personal amount of nuggets"@,
            Command::Slots => "Spend 5 nuggets for a chance to win big!"@,
            Command::Help => "Shows a list of all available commands"@,
        }
    }

    pub fn description(self) -> (description: &'static str)
        ensures
            description@ == self.spec_description(),
    {
        match self {
            Command::Nuggies => "Chat with Nuggies AI",
            Command::Ask => "Ask the AI a question",
            Command::Fox => "Get a random fox GIF",
            Command::Translate => "Translate text to a specified language",
            Command::Daily => "Claim your daily nuggets",
            Command::NuggetBox => "Check your personal amount of nuggets",
            Command::Slots => "Spend 5 nuggets for a chance to win big!",
            Command::Help => "Shows a list of all available commands",
        }
    }

    /// The options under which the command is registered: those that it
    /// reads.
    pub fn options(self) -> (options: Vec<OptionEntry>)
        ensures
            names_of(options@) == option_names(self),
            descriptions_of(options@) == option_descriptions(self),
    {
        let options = match self {
            Command::Nuggies => vec![
                OptionEntry { name: "message", description: "Your message to Nuggies" },
            ],
            Command::Ask => vec![
                OptionEntry { name: "question", description: "Your question for the AI" },
            ],
            Command::Translate => vec![
                OptionEntry {
                    name: "language",
                    description: "The language to translate to (e.g., 'French')",
                },
                OptionEntry { name: "text", description: "The text to translate" },
            ],
            _ => Vec::new(),
        };
        assert(names_of(options@) =~= option_names(self));
        assert(descriptions_of(options@) =~= option_descriptions(self));
        options
    }
}

/// All commands, in the order in which they are registered.
pub open spec fn spec_catalog() -> Seq<Command> {
    seq![
        Command::Nuggies,
        Command::Ask,
        Command::Fox,
        Command::Translate,
        Command::Daily,
        Command::NuggetBox,
        Command::Slots,
        Command::Help,
    ]
}

pub fn catalog() -> (commands: Vec<Command>)
    ensures
        commands@ == spec_catalog(),
{
    let commands = vec![
        Command::Nuggies,
        Command::Ask,
        Command::Fox,
        Command::Translate,
        Command::Daily,
        Command::NuggetBox,
        Command::Slots,
        Command::Help,
    ];
    assert(commands@ =~= spec_catalog());
    commands
}

/// The command of a name, if the name is one.
pub open spec fn command_for(name: Seq<char>) -> Option<Command> {
    if name == "nuggies"@ {
        Some(Command::Nuggies)
    } else if name == "ask"@ {
        Some(Command::Ask)
    } else if name == "translate"@ {
        Some(Command::Translate)
    } else if name == "fox"@ {
        Some(Command::Fox)
    } else if name == "daily"@ {
        Some(Command::Daily)
    } else if name == "nuggetbox"@ {
        Some(Command::NuggetBox)
    } else if name == "slots"@ {
        Some(Command::Slots)
    } else if name == "help"@ {
        Some(Command::Help)
    } else {
        None
    }
}

/// Looks a command up by its name.
pub fn command_named(name: &str) -> (command: Option<Command>)
    ensures
        command == command_for(name@),
{
    if same_text(name, "nuggies") {
        Some(Command::Nuggies)
    } else if same_text(name, "ask") {
        Some(Command::Ask)
    } else if same_text(name, "translate") {
        Some(Command::Translate)
    } else if same_text(name, "fox") {
        Some(Command::Fox)
    } else if same_text(name, "daily") {
        Some(Command::Daily)
    } else if same_text(name, "nuggetbox") {
        Some(Command::NuggetBox)
    } else if same_text(name, "slots") {
        Some(Command::Slots)
    } else if same_text(name, "help") {
        Some(Command::Help)
    } else {
        None
    }
}

/// An option that came with a command.
#[derive(Clone, Debug, PartialEq, Eq)]
pub struct CommandOption {
    pub name: String,
    /// The option's value if it is a text, else `None`.
    pub value: Option<String>,
}

/// A command as the gateway delivers it.
#[derive(Clone, Debug, PartialEq, Eq)]
pub struct Invocation {
    pub user_id: u64,
    pub name: String,
    pub options: Vec<CommandOption>,
}

/// The text of the first option of the given name; `None` if there is no
/// such option or if its value is no text.
pub open spec fn text_option(options: Seq<CommandOption>, name: Seq<char>) -> Option<Seq<char>>
    decreases options.len(),
{
    if options.len() == 0 {
        None
    } else if options[0].name@ == name {
        match options[0].value {
            Some(value) => Some(value@),
            None => None,
        }
    } else {
        text_option(options.drop_first(), name)
    }
}

/// Reads a text option of a command.
pub fn option_text<'a>(options: &'a Vec<CommandOption>, name: &str) -> (text: Option<&'a String>)
    ensures
        match text {
            Some(value) => text_option(options@, name@) == Some(value@),
            None => text_option(options@, name@) is None,
        },
{
    let mut index: usize = 0;
    assert(options@.skip(0) =~= options@);
    while index < options.len()
        invariant
            index <= options@.len(),
            text_option(options@, name@) == text_option(options@.skip(index as int), name@),
        decreases options@.len() - index,
    {
        let ghost rest = options@.skip(index as int);
        assert(rest[0] == options@[index as int]);
        assert(rest.drop_first() =~= options@.skip(index + 1));
        if same_text(options[index].name.as_str(), name) {
            return match &options[index].value {
                Some(value) => Some(value),
                None => None,
            };
        }
        index += 1;
    }
    assert(options@.skip(index as int).len() == 0);
    None
}

/// What the router asks its runner to do next.
#[derive(Clone, Debug, PartialEq, Eq)]
pub enum Step {
    /// Acknowledge the command: send the deferred answer.
    Acknowledge,
    /// Ask the completion service.
    Complete { prompt: String },
    /// Ask the media search for pictures.
    SearchGifs,
    /// Read the user's row from the store.
    LoadAccount { user_id: u64 },
    /// Write to the store.
    Persist { write: StoreOp },
    /// Put the content in place of the deferred answer. Nothing follows.
    Finalize { content: String },
    /// Give the command up: a reply arrived that answers no step of the
    /// router. Nothing follows.
    Abandon,
}

/// A step, with its texts as sequences of characters.
pub enum StepModel {
    Acknowledge,
    Complete { prompt: Seq<char> },
    SearchGifs,
    LoadAccount { user_id: u64 },
    Persist { write: StoreOp },
    Finalize { content: Seq<char> },
    Abandon,
}

impl View for Step {
    type V = StepModel;

    open spec fn view(&self) -> StepModel {
        match *self {
            Step::Acknowledge => StepModel::Acknowledge,
            Step::Complete { prompt } => StepModel::Complete { prompt: prompt@ },
            Step::SearchGifs => StepModel::SearchGifs,
            Step::LoadAccount { user_id } => StepModel::LoadAccount { user_id },
            Step::Persist { write } => StepModel::Persist { write },
            Step::Finalize { content } => StepModel::Finalize { content: content@ },
            Step::Abandon => StepModel::Abandon,
        }
    }
}

/// What the runner hands back after a step.
#[derive(Clone, Debug, PartialEq, Eq)]
pub enum Reply {
    /// The acknowledgement was sent, or sending it failed: the command goes
    /// on either way.
    Acknowledged,
    /// The answer of the completion service; `None` if the call failed.
    Completion(Option<CompletionReply>),
    /// The results of the media search, each with its address if it has
    /// one; `None` if the call failed.
    Gifs(Option<Vec<Option<String>>>),
    /// The user's row; `None` if there is none.
    Account(Option<Account>),
    /// The write is committed.
    Persisted,
    /// The store could not be read or written.
    StoreFailed,
}

/// Where a command stands.
#[derive(Clone, Copy, Debug, PartialEq, Eq)]
pub enum Stage {
    /// The acknowledgement is on its way.
    Acknowledging,
    /// A completion is awaited that answers the command.
    AwaitingCompletion,
    /// The media search is awaited.
    AwaitingGifs,
    /// The user's row is awaited.
    AwaitingAccount,
    /// The write of a claim is awaited.
    AwaitingClaimWrite { outcome: ClaimOutcome },
    /// The write of a play is awaited.
    AwaitingPlayWrite { outcome: SlotOutcome },
    /// The quip on a play is awaited.
    AwaitingQuip { outcome: SlotOutcome },
    /// The command is finalized or given up.
    Finished,
}

/// What chance and the clock contribute to one step of a command.
#[derive(Clone, Debug, PartialEq, Eq)]
pub struct Chance {
    /// Today's date in the reference zone, if the clock can tell it.
    pub today: Option<CalendarDate>,
    /// The daily reward.
    pub reward: i64,
    /// The tier of a play.
    pub tier: Tier,
    /// The reels of a play.
    pub reels: Reels,
    /// The picture picked from the results of the media search.
    pub gif: Option<String>,
}

/// The end of a command with the given content.
pub open spec fn finalized(content: Seq<char>) -> (Stage, StepModel) {
    (Stage::Finished, StepModel::Finalize { content })
}

/// The end of a command that is given up.
pub open spec fn abandoned() -> (Stage, StepModel) {
    (Stage::Finished, StepModel::Abandon)
}

/// The first effect of a command, once it is acknowledged: a fixed text for
/// an unknown name, for the help and for a missing option; else the call
/// that the command needs.
pub open spec fn dispatched(invocation: Invocation) -> (Stage, StepModel) {
    match command_for(invocation.name@) {
        None => finalized(unknown_command_text()),
        Some(Command::Help) => finalized(help_text()),
        Some(Command::Nuggies) => match text_option(invocation.options@, "message"@) {
            Some(message) => (
                Stage::AwaitingCompletion,
                StepModel::Complete { prompt: chat_prompt_text(message) },
            ),
            None => finalized(missing_message_text()),
        },
        Some(Command::Ask) => match text_option(invocation.options@, "question"@) {
            Some(question) => (
                Stage::AwaitingCompletion,
                StepModel::Complete { prompt: ask_prompt_text(question) },
            ),
            None => finalized(missing_question_text()),
        },
        Some(Command::Translate) => match (
            text_option(invocation.options@, "language"@),
            text_option(invocation.options@, "text"@),
        ) {
            (Some(language), Some(text)) => (
                Stage::AwaitingCompletion,
                StepModel::Complete { prompt: translate_prompt_text(language, text) },
            ),
            _ => finalized(missing_translation_text()),
        },
        Some(Command::Fox) => (Stage::AwaitingGifs, StepModel::SearchGifs),
        Some(_) => (
            Stage::AwaitingAccount,
            StepModel::LoadAccount { user_id: invocation.user_id },
        ),
    }
}

/// The content that ends a command of the completion kind, given what the
/// service answered (`None` if the call failed).
pub open spec fn completed(invocation: Invocation, answer: Option<CompletionReply>) -> (
    Stage,
    StepModel,
) {
    match command_for(invocation.name@) {
        Some(Command::Nuggies) => match text_option(invocation.options@, "message"@) {
            Some(message) => match answer {
                Some(reply) => finalized(
                    asked_text(invocation.user_id, message, completion_text(reply)),
                ),
                None => finalized(chat_failure_text()),
            },
            None => abandoned(),
        },
        Some(Command::Ask) => match text_option(invocation.options@, "question"@) {
            Some(question) => match answer {
                Some(reply) => finalized(
                    asked_text(invocation.user_id, question, completion_text(reply)),
                ),
                None => finalized(asked_text(invocation.user_id, question, ask_failure_text())),
            },
            None => abandoned(),
        },
        Some(Command::Translate) => match answer {
            Some(reply) => finalized(completion_text(reply)),
            None => finalized(translate_failure_text()),
        },
        _ => abandoned(),
    }
}

/// What follows once the user's row is read, for each command of the
/// economy.
pub open spec fn account_read(invocation: Invocation, row: Option<Account>, chance: Chance) -> (
    Stage,
    StepModel,
) {
    match command_for(invocation.name@) {
        Some(Command::NuggetBox) => finalized(
            balance_text(
                match row {
                    Some(account) => Some(account.balance),
                    None => None,
                },
            ),
        ),
        Some(Command::Daily) => match chance.today {
            None => finalized(clock_failure_text()),
            Some(today) => {
                let settlement = claim_settled(
                    row,
                    invocation.user_id,
                    today,
                    chance.reward as int,
                );
                match settlement.write {
                    Some(write) => (
                        Stage::AwaitingClaimWrite { outcome: settlement.outcome },
                        StepModel::Persist { write },
                    ),
                    None => finalized(claim_text(settlement.outcome)),
                }
            },
        },
        Some(Command::Slots) => match row {
            None => finalized(no_account_text()),
            Some(account) => if account.balance < ANTE {
                finalized(insufficient_funds_text())
            } else {
                let outcome = settled(account.balance as int, chance.tier, chance.reels);
                (
                    Stage::AwaitingPlayWrite { outcome },
                    StepModel::Persist {
                        write: StoreOp::UpdateBalance {
                            user_id: invocation.user_id,
                            balance: outcome.new_balance,
                        },
                    },
                )
            },
        },
        _ => abandoned(),
    }
}

/// The quip of a play, given what the service answered.
pub open spec fn quip_text(answer: Option<CompletionReply>) -> Seq<char> {
    match answer {
        Some(reply) => completion_text(reply),
        None => quip_failure_text(),
    }
}

/// The router's transition: the stage and step that follow when `reply`
/// arrives in `stage`. A reply that does not answer the step that led to
/// the stage gives the command up.
pub open spec fn advanced(invocation: Invocation, stage: Stage, reply: Reply, chance: Chance) -> (
    Stage,
    StepModel,
) {
    match (stage, reply) {
        (Stage::Acknowledging, Reply::Acknowledged) => dispatched(invocation),
        (Stage::AwaitingCompletion, Reply::Completion(answer)) => completed(invocation, answer),
        (Stage::AwaitingGifs, Reply::Gifs(results)) => match results {
            Some(results) => finalized(gif_shown(chance.gif)),
            None => finalized(gif_shown(None)),
        },
        (Stage::AwaitingAccount, Reply::Account(row)) => account_read(invocation, row, chance),
        (Stage::AwaitingAccount, Reply::StoreFailed) => finalized(store_failure_text()),
        (Stage::AwaitingClaimWrite { outcome }, Reply::Persisted) => finalized(claim_text(outcome)),
        (Stage::AwaitingClaimWrite { outcome }, Reply::StoreFailed) => finalized(
            store_failure_text(),
        ),
        (Stage::AwaitingPlayWrite { outcome }, Reply::Persisted) => (
            Stage::AwaitingQuip { outcome },
            StepModel::Complete { prompt: quip_prompt_text(outcome) },
        ),
        (Stage::AwaitingPlayWrite { outcome }, Reply::StoreFailed) => finalized(
            store_failure_text(),
        ),
        (Stage::AwaitingQuip { outcome }, Reply::Completion(answer)) => finalized(
            play_text(outcome, quip_text(answer)),
        ),
        _ => abandoned(),
    }
}

/// The reply answers the step that led to the stage.
pub open spec fn answers(stage: Stage, reply: Reply) -> bool {
    match stage {
        Stage::Acknowledging => reply is Acknowledged,
        Stage::AwaitingCompletion => reply is Completion,
        Stage::AwaitingGifs => reply is Gifs,
        Stage::AwaitingAccount => reply is Account || reply is StoreFailed,
        Stage::AwaitingClaimWrite { .. } => reply is Persisted || reply is StoreFailed,
        Stage::AwaitingPlayWrite { .. } => reply is Persisted || reply is StoreFailed,
        Stage::AwaitingQuip { .. } => reply is Completion,
        Stage::Finished => false,
    }
}

/// What the step adds to a balance has room in the ledger's 64-bit
/// balance: the reward of a claim that is granted, the payout of a play
/// that takes place. Every other step has room, a claim on a day that is
/// already claimed among them.
pub open spec fn within_limits(
    invocation: Invocation,
    stage: Stage,
    reply: Reply,
    chance: Chance,
) -> bool {
    match (stage, reply) {
        (Stage::AwaitingAccount, Reply::Account(row)) => match command_for(invocation.name@) {
            Some(Command::Daily) => match chance.today {
                Some(today) => claim_has_room(row, today, chance.reward as int),
                None => true,
            },
            Some(Command::Slots) => match row {
                Some(account) => spin_has_room(account.balance as int, chance.tier, chance.reels),
                None => true,
            },
            _ => true,
        },
        _ => true,
    }
}

/// Tells whether the step has room for what it adds to a balance.
pub fn fits_limits(invocation: &Invocation, stage: Stage, reply: &Reply, chance: &Chance) -> (fits:
    bool)
    ensures
        fits == within_limits(*invocation, stage, *reply, *chance),
{
    match stage {
        Stage::AwaitingAccount => match reply {
            Reply::Account(row) => match command_named(invocation.name.as_str()) {
                Some(Command::Daily) => match chance.today {
                    Some(today) => has_room_for(row, today, chance.reward),
                    None => true,
                },
                Some(Command::Slots) => match row {
                    Some(account) => has_room_for_spin(
                        account.balance,
                        chance.tier,
                        chance.reels,
                    ),
                    None => true,
                },
                _ => true,
            },
            _ => true,
        },
        _ => true,
    }
}

/// Starts a command: the first step is always the acknowledgement.
pub fn begin_command() -> (start: (Stage, Step))
    ensures
        start.0 == Stage::Acknowledging,
        start.1@ == StepModel::Acknowledge,
{
    (Stage::Acknowledging, Step::Acknowledge)
}

fn finalize(content: String) -> (end: (Stage, Step))
    ensures
        (end.0, end.1@) == finalized(content@),
{
    (Stage::Finished, Step::Finalize { content })
}

fn dispatch(invocation: &Invocation) -> (next: (Stage, Step))
    ensures
        (next.0, next.1@) == dispatched(*invocation),
{
    let command = match command_named(invocation.name.as_str()) {
        Some(command) => command,
        None => {
            return finalize(String::from_str("Unknown command."));
        },
    };
    match command {
        Command::Help => finalize(render_help()),
        Command::Nuggies => match option_text(&invocation.options, "message") {
            Some(message) => (
                Stage::AwaitingCompletion,
                Step::Complete { prompt: chat_prompt(message.as_str()) },
            ),
            None => finalize(String::from_str("Please provide a message for Nuggies.")),
        },
        Command::Ask => match option_text(&invocation.options, "question") {
            Some(question) => (
                Stage::AwaitingCompletion,
                Step::Complete { prompt: ask_prompt(question.as_str()) },
            ),
            None => finalize(String::from_str("Please provide a question.")),
        },
        Command::Translate => {
            let language = option_text(&invocation.options, "language");
            let text = option_text(&invocation.options, "text");
            match (language, text) {
                (Some(language), Some(text)) => (
                    Stage::AwaitingCompletion,
                    Step::Complete { prompt: translate_prompt(language.as_str(), text.as_str()) },
                ),
                _ => finalize(String::from_str("Please provide both a language and text.")),
            }
        },
        Command::Fox => (Stage::AwaitingGifs, Step::SearchGifs),
        Command::Daily => (
            Stage::AwaitingAccount,
            Step::LoadAccount { user_id: invocation.user_id },
        ),
        Command::NuggetBox => (
            Stage::AwaitingAccount,
            Step::LoadAccount { user_id: invocation.user_id },
        ),
        Command::Slots => (
            Stage::AwaitingAccount,
            Step::LoadAccount { user_id: invocation.user_id },
        ),
    }
}

fn complete(invocation: &Invocation, answer: &Option<CompletionReply>) -> (next: (Stage, Step))
    ensures
        (next.0, next.1@) == completed(*invocation, *answer),
{
    let abandon = (Stage::Finished, Step::Abandon);
    match command_named(invocation.name.as_str()) {
        Some(Command::Nuggies) => match option_text(&invocation.options, "message") {
            Some(message) => match answer {
                Some(reply) => finalize(
                    render_asked(
                        invocation.user_id,
                        message.as_str(),
                        read_completion(reply).as_str(),
                    ),
                ),
                None => finalize(
                    String::from_str("Sorry, I couldn't get a response from Nuggies right now."),
                ),
            },
            None => abandon,
        },
        Some(Command::Ask) => match option_text(&invocation.options, "question") {
            Some(question) => match answer {
                Some(reply) => finalize(
                    render_asked(
                        invocation.user_id,
                        question.as_str(),
                        read_completion(reply).as_str(),
                    ),
                ),
                None => finalize(
                    render_asked(
                        invocation.user_id,
                        question.as_str(),
                        "Sorry, I couldn't get a response right now.",
                    ),
                ),
            },
            None => abandon,
        },
        Some(Command::Translate) => match answer {
            Some(reply) => finalize(read_completion(reply)),
            None => finalize(String::from_str("Sorry, I couldn't translate that.")),
        },
        _ => abandon,
    }
}

fn read_account(invocation: &Invocation, row: Option<Account>, chance: &Chance) -> (next: (
    Stage,
    Step,
))
    requires
        SMALLEST_REWARD <= chance.reward <= LARGEST_REWARD,
        within_limits(*invocation, Stage::AwaitingAccount, Reply::Account(row), *chance),
    ensures
        (next.0, next.1@) == account_read(*invocation, row, *chance),
{
    match command_named(invocation.name.as_str()) {
        Some(Command::NuggetBox) => {
            let balance = match row {
                Some(account) => Some(account.balance),
                None => None,
            };
            finalize(render_balance(balance))
        },
        Some(Command::Daily) => match chance.today {
            None => finalize(
                String::from_str("I can't tell what day it is right now. Please try again later."),
            ),
            Some(today) => {
                let settlement = settle_claim(row, invocation.user_id, today, chance.reward);
                match settlement.write {
                    Some(write) => (
                        Stage::AwaitingClaimWrite { outcome: settlement.outcome },
                        Step::Persist { write },
                    ),
                    None => finalize(render_claim(settlement.outcome)),
                }
            },
        },
        Some(Command::Slots) => match row {
            None => finalize(
                String::from_str(
                    "You don't have a nuggetbox yet! Use `/daily` to get your first nuggets.",
                ),
            ),
            Some(account) => match settle_spin(account.balance, chance.tier, chance.reels) {
                Err(refusal) => finalize(
                    String::from_str(
                        "You don't have enough nuggets to play the slots! You need at least 5.",
                    ),
                ),
                Ok(outcome) => (
                    Stage::AwaitingPlayWrite { outcome },
                    Step::Persist {
                        write: StoreOp::UpdateBalance {
                            user_id: invocation.user_id,
                            balance: outcome.new_balance,
                        },
                    },
                ),
            },
        },
        _ => (Stage::Finished, Step::Abandon),
    }
}

fn read_quip(answer: &Option<CompletionReply>) -> (quip: String)
    ensures
        quip@ == quip_text(*answer),
{
    match answer {
        Some(reply) => read_completion(reply),
        None => String::from_str("..."),
    }
}

/// Takes the answer to the last step and decides the next one, with what
/// chance and the clock contribute already drawn.
pub fn advance_with(invocation: &Invocation, stage: Stage, reply: &Reply, chance: &Chance) -> (next:
    (Stage, Step))
    requires
        SMALLEST_REWARD <= chance.reward <= LARGEST_REWARD,
        within_limits(*invocation, stage, *reply, *chance),
    ensures
        (next.0, next.1@) == advanced(*invocation, stage, *reply, *chance),
        !answers(stage, *reply) ==> (next.0, next.1@) == abandoned(),
{
    let store_failed = "I can't reach your nuggetbox right now. Please try again later.";
    let abandon = (Stage::Finished, Step::Abandon);
    match stage {
        Stage::Acknowledging => match reply {
            Reply::Acknowledged => dispatch(invocation),
            _ => abandon,
        },
        Stage::AwaitingCompletion => match reply {
            Reply::Completion(answer) => complete(invocation, answer),
            _ => abandon,
        },
        Stage::AwaitingGifs => match reply {
            Reply::Gifs(Some(results)) => finalize(gif_or_default(&chance.gif)),
            Reply::Gifs(None) => finalize(gif_or_default(&None)),
            _ => abandon,
        },
        Stage::AwaitingAccount => match reply {
            Reply::Account(row) => read_account(invocation, *row, chance),
            Reply::StoreFailed => finalize(String::from_str(store_failed)),
            _ => abandon,
        },
        Stage::AwaitingClaimWrite { outcome } => match reply {
            Reply::Persisted => finalize(render_claim(outcome)),
            Reply::StoreFailed => finalize(String::from_str(store_failed)),
            _ => abandon,
        },
        Stage::AwaitingPlayWrite { outcome } => match reply {
            Reply::Persisted => (
                Stage::AwaitingQuip { outcome },
                Step::Complete { prompt: quip_prompt(&outcome) },
            ),
            Reply::StoreFailed => finalize(String::from_str(store_failed)),
            _ => abandon,
        },
        Stage::AwaitingQuip { outcome } => match reply {
            Reply::Completion(answer) => finalize(render_play(outcome, read_quip(answer).as_str())),
            _ => abandon,
        },
        Stage::Finished => abandon,
    }
}

impl Chance {
    /// Chance that contributes nothing: no date, the smallest reward, a
    /// loss on three cherries, no picture.
    pub open spec fn spec_blank() -> Chance {
        Chance {
            today: None,
            reward: SMALLEST_REWARD,
            tier: Tier::Loss,
            reels: Reels { left: Symbol::Cherry, middle: Symbol::Cherry, right: Symbol::Cherry },
            gif: None,
        }
    }

    pub fn blank() -> (chance: Chance)
        ensures
            chance == Chance::spec_blank(),
    {
        Chance {
            today: None,
            reward: SMALLEST_REWARD,
            tier: Tier::Loss,
            reels: Reels { left: Symbol::Cherry, middle: Symbol::Cherry, right: Symbol::Cherry },
            gif: None,
        }
    }

    /// The values are such as a draw can give: a date that is the
    /// reference-zone date of a supported instant, a reward from 1 to 15,
    /// reels that fit the tier, and, where the results of a media search are
    /// awaited and arrive, a picture that is among them.
    pub open spec fn is_fair(self, stage: Stage, reply: Reply) -> bool {
        &&& self.today matches Some(today) ==> today.is_plausible() && is_reference_date(today)
        &&& SMALLEST_REWARD <= self.reward <= LARGEST_REWARD
        &&& self.reels.fits(self.tier)
        &&& stage is AwaitingGifs ==> (reply matches Reply::Gifs(Some(results)) ==> is_pick_from(
            self.gif,
            results@,
        ))
    }
}

/// Draws what the step in `stage` needs for the given reply: for a claim
/// the date and the reward, for a play the tier and the reels, for a media
/// search one of the pictures. Nothing is drawn that the step does not use.
pub fn draw_chance(invocation: &Invocation, stage: Stage, reply: &Reply) -> (chance: Chance)
    ensures
        chance.is_fair(stage, *reply),
        !(stage is AwaitingGifs || stage is AwaitingAccount) ==> chance == Chance::spec_blank(),
{
    let mut chance = Chance::blank();
    match stage {
        Stage::AwaitingGifs => match reply {
            Reply::Gifs(Some(results)) => {
                chance.gif = pick_gif(results);
            },
            _ => {},
        },
        Stage::AwaitingAccount => match reply {
            Reply::Account(row) => match command_named(invocation.name.as_str()) {
                Some(Command::Daily) => {
                    chance.today = today_in_reference_zone();
                    match chance.today {
                        Some(today) => {
                            if !has_claimed_on(row, today) {
                                chance.reward = roll_between(SMALLEST_REWARD, LARGEST_REWARD);
                            }
                        },
                        None => {},
                    }
                },
                Some(Command::Slots) => match row {
                    Some(account) => {
                        if account.balance >= ANTE {
                            let roll: i64 = roll_between(1, 100);
                            chance.tier = tier_of_roll(roll);
                            chance.reels = draw_reels(chance.tier);
                        }
                    },
                    None => {},
                },
                _ => {},
            },
            _ => {},
        },
        _ => {},
    }
    chance
}

/// What `advance` returns for a given chance: the router's transition
/// where the step has room for what it adds to a balance, else nothing.
pub open spec fn advanced_if_room(
    invocation: Invocation,
    stage: Stage,
    reply: Reply,
    chance: Chance,
) -> Option<(Stage, StepModel)> {
    if within_limits(invocation, stage, reply, chance) {
        Some(advanced(invocation, stage, reply, chance))
    } else {
        None
    }
}

/// The stage and the step of a transition, the step by its view.
pub open spec fn modelled(next: Option<(Stage, Step)>) -> Option<(Stage, StepModel)> {
    match next {
        Some(next) => Some((next.0, next.1@)),
        None => None,
    }
}

/// Takes the answer to the last step and decides the next one. Whatever is
/// drawn, the step is the router's transition for some fair chance.
///
/// `None` only where a granted reward or the payout of a play that was
/// drawn would overflow the 64-bit balance: nothing is decided then. A
/// claim on a day that is already claimed is answered whatever the balance.
pub fn advance(invocation: &Invocation, stage: Stage, reply: &Reply) -> (next: Option<
    (Stage, Step),
>)
    ensures
        exists|chance: Chance|
            chance.is_fair(stage, *reply) && modelled(next) == #[trigger] advanced_if_room(
                *invocation,
                stage,
                *reply,
                chance,
            ),
        !(stage is AwaitingAccount) ==> next is Some,
{
    let chance = draw_chance(invocation, stage, reply);
    if fits_limits(invocation, stage, reply, &chance) {
        let next = advance_with(invocation, stage, reply, &chance);
        assert(modelled(Some(next)) == advanced_if_room(*invocation, stage, *reply, chance));
        Some(next)
    } else {
        assert(modelled(None) == advanced_if_room(*invocation, stage, *reply, chance));
        None
    }
}

/// What the services and the store would answer during one command, and
/// what chance would contribute.
pub struct ServiceAnswers {
    pub completion: Option<CompletionReply>,
    pub gifs: Option<Vec<Option<String>>>,
    /// The user's row, or `Err` if the store cannot be read.
    pub account: Result<Option<Account>, ()>,
    /// Whether the store takes a write.
    pub writes: bool,
    pub chance: Chance,
}

impl ServiceAnswers {
    /// The answer to a step.
    pub open spec fn to(self, step: StepModel) -> Reply {
        match step {
            StepModel::Acknowledge => Reply::Acknowledged,
            StepModel::Complete { .. } => Reply::Completion(self.completion),
            StepModel::SearchGifs => Reply::Gifs(self.gifs),
            StepModel::LoadAccount { .. } => match self.account {
                Ok(row) => Reply::Account(row),
                Err(_) => Reply::StoreFailed,
            },
            StepModel::Persist { .. } => if self.writes {
                Reply::Persisted
            } else {
                Reply::StoreFailed
            },
            StepModel::Finalize { .. } => Reply::Acknowledged,
            StepModel::Abandon => Reply::Acknowledged,
        }
    }
}

/// The step on which a command ends that stands at `stage` with `step`
/// asked for, when every step is performed and answered, for at most
/// `steps` more steps.
pub open spec fn run_from(
    invocation: Invocation,
    services: ServiceAnswers,
    stage: Stage,
    step: StepModel,
    steps: nat,
) -> Option<StepModel>
    decreases steps,
{
    match step {
        StepModel::Finalize { .. } => Some(step),
        StepModel::Abandon => Some(step),
        _ => if steps == 0 {
            None
        } else {
            let next = advanced(invocation, stage, services.to(step), services.chance);
            run_from(invocation, services, next.0, next.1, (steps - 1) as nat)
        },
    }
}

/// No acknowledged command is left without its final answer: whatever the
/// command and whatever the services and the store answer or fail to
/// answer, the run ends within four answered steps, and it ends by
/// finalizing.
pub proof fn every_command_is_finalized(invocation: Invocation, services: ServiceAnswers)
    ensures
        run_from(invocation, services, Stage::Acknowledging, StepModel::Acknowledge, 4) is Some,
        run_from(
            invocation,
            services,
            Stage::Acknowledging,
            StepModel::Acknowledge,
            4,
        ).unwrap() is Finalize,
{
    reveal_with_fuel(run_from, 5);
}

/// A store that cannot be read or written ends the command with the fixed
/// text for it, and nothing is told of a claim or a play that was not
/// committed.
pub proof fn failing_store_is_answered(invocation: Invocation, stage: Stage, chance: Chance)
    requires
        stage is AwaitingAccount || stage is AwaitingClaimWrite || stage is AwaitingPlayWrite,
    ensures
        advanced(invocation, stage, Reply::StoreFailed, chance) == finalized(store_failure_text()),
{
}

/// A claim on a day that is already claimed is answered whatever the
/// balance: it has room, writes nothing, and ends with the fixed text.
pub proof fn repeated_claim_is_answered(invocation: Invocation, account: Account, chance: Chance)
    requires
        command_for(invocation.name@) == Some(Command::Daily),
        chance.today is Some,
        account.last_claim_date == chance.today,
    ensures
        within_limits(invocation, Stage::AwaitingAccount, Reply::Account(Some(account)), chance),
        advanced(invocation, Stage::AwaitingAccount, Reply::Account(Some(account)), chance)
            == finalized(claim_text(ClaimOutcome::AlreadyClaimed { balance: account.balance })),
{
}

/// A name that is no command is answered with the fixed text for unknown
/// commands, and a command that lacks an option with the fixed text that
/// asks for it; neither calls a service or touches the store.
pub proof fn unknown_and_incomplete_commands_get_fixed_texts(invocation: Invocation)
    ensures
        command_for(invocation.name@) is None ==> dispatched(invocation) == finalized(
            unknown_command_text(),
        ),
        command_for(invocation.name@) == Some(Command::Nuggies) && text_option(
            invocation.options@,
            "message"@,
        ) is None ==> dispatched(invocation) == finalized(missing_message_text()),
        command_for(invocation.name@) == Some(Command::Ask) && text_option(
            invocation.options@,
            "question"@,
        ) is None ==> dispatched(invocation) == finalized(missing_question_text()),
        command_for(invocation.name@) == Some(Command::Translate) && (text_option(
            invocation.options@,
            "language"@,
        ) is None || text_option(invocation.options@, "text"@) is None) ==> dispatched(invocation)
            == finalized(missing_translation_text()),
{
}

/// What a command of the economy writes is what the economy settles: the
/// write that a claim or a play asks the store for is the one that the
/// settlement of the row read gives, and a refused claim or play asks for
/// none.
pub proof fn economy_commands_write_their_settlement(
    invocation: Invocation,
    row: Option<Account>,
    chance: Chance,
)
    ensures
        ({
            let next = account_read(invocation, row, chance);
            &&& next.1 is Persist ==> command_for(invocation.name@) == Some(Command::Daily)
                || command_for(invocation.name@) == Some(Command::Slots)
            &&& command_for(invocation.name@) == Some(Command::Daily) && chance.today is Some ==> {
                let settlement = claim_settled(
                    row,
                    invocation.user_id,
                    chance.today.unwrap(),
                    chance.reward as int,
                );
                match settlement.write {
                    Some(write) => next.1 == (StepModel::Persist { write }),
                    None => next == finalized(claim_text(settlement.outcome)),
                }
            }
            &&& command_for(invocation.name@) == Some(Command::Slots) ==> match row {
                None => next == finalized(no_account_text()),
                Some(account) => if account.balance < ANTE {
                    next == finalized(insufficient_funds_text())
                } else {
                    next.1 == (StepModel::Persist {
                        write: StoreOp::UpdateBalance {
                            user_id: invocation.user_id,
                            balance: (account.balance - ANTE + crate::slots::payout_for(
                                chance.tier,
                                chance.reels,
                            )) as i64,
                        },
                    })
                },
            }
        }),
{
}

/// Every command is found under its own name.
pub proof fn commands_are_found_by_name(command: Command)
    ensures
        command_for(command.spec_name()) == Some(command),
{
    reveal_strlit("nuggies");
    reveal_strlit("ask");
    reveal_strlit("translate");
    reveal_strlit("fox");
    reveal_strlit("daily");
    reveal_strlit("nuggetbox");
    reveal_strlit("slots");
    reveal_strlit("help");
    assert("ask"@.len() == 3 && "fox"@.len() == 3 && "ask"@[0] != "fox"@[0]);
    assert("daily"@.len() == 5 && "slots"@.len() == 5 && "daily"@[0] != "slots"@[0]);
    assert("translate"@.len() == 9 && "nuggetbox"@.len() == 9 && "translate"@[0]
        != "nuggetbox"@[0]);
    assert("nuggies"@.len() == 7);
    assert("help"@.len() == 4);
}

/// The catalog lists every command, and a command that comes with a text
/// for each option it is registered with is carried out: it is never
/// answered with the text that asks for an option.
pub proof fn registered_options_suffice(invocation: Invocation, command: Command)
    requires
        command_for(invocation.name@) == Some(command),
        forall|i: int|
            0 <= i < option_names(command).len() ==> text_option(
                invocation.options@,
                #[trigger] option_names(command)[i],
            ) is Some,
    ensures
        spec_catalog().contains(command),
        command.spec_effect_class() == EffectClass::AiChat || command.spec_effect_class()
            == EffectClass::Translate ==> dispatched(invocation).1 is Complete,
        command.spec_effect_class() == EffectClass::MediaSearch ==> dispatched(invocation).1
            is SearchGifs,
        command.spec_effect_class() == EffectClass::EconomyOp ==> dispatched(invocation).1
            == (StepModel::LoadAccount { user_id: invocation.user_id }),
        command.spec_effect_class() == EffectClass::StaticText ==> dispatched(invocation)
            == finalized(help_text()),
{
    let names = option_names(command);
    if names.len() > 0 {
        assert(text_option(invocation.options@, names[0]) is Some);
    }
    if names.len() > 1 {
        assert(text_option(invocation.options@, names[1]) is Some);
    }
    let at = match command {
        Command::Nuggies => 0int,
        Command::Ask => 1,
        Command::Fox => 2,
        Command::Translate => 3,
        Command::Daily => 4,
        Command::NuggetBox => 5,
        Command::Slots => 6,
        Command::Help => 7,
    };
    assert(spec_catalog()[at] == command);
}

} // verus!
