//! Reaction roles: a reaction on one of the bot's own role messages grants
//! a role, removing the reaction revokes it. A role message counts only if
//! this bot wrote it itself: the author's id is held against the bot's own,
//! so that neither a user nor another bot can pass a message off as one.
//!
//! The decisions are a machine of stages. Whoever runs it performs the step
//! it asks for (a lookup at the gateway, a grant, a revoke) and hands the
//! answer back; every way through ends in a `SyncStep::Stop`. A lookup that
//! fails ends the run for this one reaction and touches nothing else.

use crate::text::{begins_with, includes, occurs_in, same_text};
use vstd::prelude::*;

verus! {

/// The two role messages that the bot posts.
#[derive(Clone, Copy, Debug, PartialEq, Eq, Structural)]
pub enum Binding {
    /// The pronoun message: three emoji, three roles.
    Pronouns,
    /// The event-notification message: one emoji, one role.
    Events,
}

/// The roles that a reaction can grant.
#[derive(Clone, Copy, Debug, PartialEq, Eq, Structural)]
pub enum GrantableRole {
    HeHim,
    SheHer,
    TheyThem,
    FcEvents,
}

/// The text with which the pronoun message begins.
pub open spec fn pronoun_marker() -> Seq<char> {
    "Assign yourself Pronouns"@
}

/// The text that the event-notification message contains.
pub open spec fn event_marker() -> Seq<char> {
    "role for event notifications"@
}

/// The role message that a content is: the pronoun message if it begins
/// with the pronoun marker, else the event message if it contains the event
/// marker, else none.
pub open spec fn binding_for(content: Seq<char>) -> Option<Binding> {
    if pronoun_marker().is_prefix_of(content) {
        Some(Binding::Pronouns)
    } else if occurs_in(event_marker(), content) {
        Some(Binding::Events)
    } else {
        None
    }
}

/// The role that an emoji stands for on a role message, if any.
pub open spec fn role_bound(binding: Binding, emoji_name: Seq<char>) -> Option<GrantableRole> {
    match binding {
        Binding::Pronouns => if emoji_name == "justaboy"@ {
            Some(GrantableRole::HeHim)
        } else if emoji_name == "justagirl"@ {
            Some(GrantableRole::SheHer)
        } else if emoji_name == "pridejj"@ {
            Some(GrantableRole::TheyThem)
        } else {
            None
        },
        Binding::Events => if emoji_name == "danseparty"@ {
            Some(GrantableRole::FcEvents)
        } else {
            None
        },
    }
}

/// A role of the guild as the gateway lists it.
#[derive(Clone, Debug, PartialEq, Eq)]
pub struct GuildRole {
    pub id: u64,
    pub name: String,
}

/// The id of the first listed role with the given name.
pub open spec fn first_role_named(roles: Seq<GuildRole>, name: Seq<char>) -> Option<u64>
    decreases roles.len(),
{
    if roles.len() == 0 {
        None
    } else if roles[0].name@ == name {
        Some(roles[0].id)
    } else {
        first_role_named(roles.drop_first(), name)
    }
}

impl GrantableRole {
    /// The name under which the guild lists the role.
    pub open spec fn spec_title(self) -> Seq<char> {
        match self {
            GrantableRole::HeHim => "he/him"@,
            GrantableRole::SheHer => "she/her"@,
            GrantableRole::TheyThem => "they/them"@,
            GrantableRole::FcEvents => "FC Events"@,
        }
    }

    pub fn title(self) -> (title: &'static str)
        ensures
            title@ == self.spec_title(),
    {
        match self {
            GrantableRole::HeHim => "he/him",
            GrantableRole::SheHer => "she/her",
            GrantableRole::TheyThem => "they/them",
            GrantableRole::FcEvents => "FC Events",
        }
    }

    /// The custom emoji that stands for the role.
    pub open spec fn spec_emoji_name(self) -> Seq<char> {
        match self {
            GrantableRole::HeHim => "justaboy"@,
            GrantableRole::SheHer => "justagirl"@,
            GrantableRole::TheyThem => "pridejj"@,
            GrantableRole::FcEvents => "danseparty"@,
        }
    }

    pub fn emoji_name(self) -> (name: &'static str)
        ensures
            name@ == self.spec_emoji_name(),
    {
        match self {
            GrantableRole::HeHim => "justaboy",
            GrantableRole::SheHer => "justagirl",
            GrantableRole::TheyThem => "pridejj",
            GrantableRole::FcEvents => "danseparty",
        }
    }
}

/// Classifies a message content as one of the role messages.
pub fn binding_of(content: &str) -> (binding: Option<Binding>)
    ensures
        binding == binding_for(content@),
{
    if begins_with(content, "Assign yourself Pronouns") {
        Some(Binding::Pronouns)
    } else if includes(content, "role for event notifications") {
        Some(Binding::Events)
    } else {
        None
    }
}

/// Resolves an emoji through the table of a role message.
pub fn role_for(binding: Binding, emoji_name: &str) -> (role: Option<GrantableRole>)
    ensures
        role == role_bound(binding, emoji_name@),
{
    match binding {
        Binding::Pronouns => {
            if same_text(emoji_name, "justaboy") {
                Some(GrantableRole::HeHim)
            } else if same_text(emoji_name, "justagirl") {
                Some(GrantableRole::SheHer)
            } else if same_text(emoji_name, "pridejj") {
                Some(GrantableRole::TheyThem)
            } else {
                None
            }
        },
        Binding::Events => {
            if same_text(emoji_name, "danseparty") {
                Some(GrantableRole::FcEvents)
            } else {
                None
            }
        },
    }
}

/// Finds a live role by name: the first one listed under that name.
pub fn find_role(roles: &Vec<GuildRole>, name: &str) -> (id: Option<u64>)
    ensures
        id == first_role_named(roles@, name@),
{
    let mut index: usize = 0;
    assert(roles@.skip(0) =~= roles@);
    while index < roles.len()
        invariant
            index <= roles@.len(),
            first_role_named(roles@, name@) == first_role_named(
                roles@.skip(index as int),
                name@,
            ),
        decreases roles@.len() - index,
    {
        let ghost rest = roles@.skip(index as int);
        assert(rest[0] == roles@[index as int]);
        assert(rest.drop_first() =~= roles@.skip(index + 1));
        if same_text(roles[index].name.as_str(), name) {
            return Some(roles[index].id);
        }
        index += 1;
    }
    assert(roles@.skip(index as int).len() == 0);
    None
}

/// What the gateway delivers with a reaction that was added or removed.
#[derive(Clone, Debug, PartialEq, Eq)]
pub struct ReactionEvent {
    /// The name of the custom emoji; `None` for a standard emoji and for a
    /// custom one without a name.
    pub emoji_name: Option<String>,
    /// The guild in which the reaction was made, if it was made in one.
    pub guild_id: Option<u64>,
    /// The user who reacted, if the event names one.
    pub user_id: Option<u64>,
    /// `true` for a reaction added, `false` for one removed.
    pub added: bool,
    /// The user id of this bot itself, as the gateway knows it.
    pub bot_id: u64,
}

/// Why a run ended.
#[derive(Clone, Copy, Debug, PartialEq, Eq, Structural)]
pub enum SyncEnd {
    /// The reacting user is a bot, or could not be looked up.
    ReactorIsBot,
    /// The message could not be fetched.
    MessageUnavailable,
    /// The message was not written by this bot itself: by a user, or by
    /// another bot.
    NotOurMessage,
    /// The event names no guild or no user.
    OutsideGuild,
    /// The message is none of the role messages.
    NoBinding,
    /// The emoji stands for no role on this message.
    UnmappedEmoji,
    /// The member could not be fetched.
    MemberUnavailable,
    /// The guild's roles could not be fetched.
    RolesUnavailable,
    /// The guild has no role of that name. None is created.
    RoleMissing { role: GrantableRole },
    /// The role was granted (`added`) or revoked.
    Changed { role: GrantableRole, role_id: u64, added: bool },
    /// The gateway rejected the grant or the revoke.
    ChangeRejected { role: GrantableRole, role_id: u64, added: bool },
    /// The reply answers no step that was asked for; the run is given up.
    OutOfTurn,
}

impl SyncEnd {
    /// The run asked the gateway for a grant or a revoke.
    pub open spec fn asked_for_change(self) -> bool {
        self is Changed || self is ChangeRejected
    }
}

/// What the machine asks its runner to do next.
#[derive(Clone, Copy, Debug, PartialEq, Eq, Structural)]
pub enum SyncStep {
    /// Look up the reacting user.
    FetchReactor,
    /// Fetch the message that was reacted to.
    FetchMessage,
    /// Fetch the reacting user as a member of the guild.
    FetchMember { guild_id: u64, user_id: u64 },
    /// List the roles of the guild.
    FetchRoles { guild_id: u64 },
    /// Grant the role to the member.
    Grant { guild_id: u64, user_id: u64, role_id: u64 },
    /// Revoke the role from the member.
    Revoke { guild_id: u64, user_id: u64, role_id: u64 },
    /// Nothing more to do.
    Stop(SyncEnd),
}

/// Where a run stands.
#[derive(Clone, Copy, Debug, PartialEq, Eq, Structural)]
pub enum SyncStage {
    AwaitingReactor,
    AwaitingMessage,
    AwaitingMember { guild_id: u64, user_id: u64, role: GrantableRole },
    AwaitingRoles { guild_id: u64, user_id: u64, role: GrantableRole },
    AwaitingChange { role: GrantableRole, role_id: u64 },
    Done,
}

/// What the runner hands back after a step.
#[derive(Clone, Debug, PartialEq, Eq)]
pub enum SyncReply {
    /// Whether the reacting user is a bot; `None` if the lookup failed.
    Reactor(Option<bool>),
    /// The message reacted to; `None` if the fetch failed.
    Message(Option<ReactedMessage>),
    /// Whether the member was fetched.
    Member(bool),
    /// The roles of the guild; `None` if the listing failed.
    Roles(Option<Vec<GuildRole>>),
    /// Whether the gateway accepted the grant or the revoke.
    Change(bool),
}

/// What the decisions read of the message that was reacted to.
#[derive(Clone, Debug, PartialEq, Eq)]
pub struct ReactedMessage {
    /// The user id of the message's author.
    pub author_id: u64,
    pub content: String,
}

/// The reply is an answer to the step that led to the stage.
pub open spec fn answers(stage: SyncStage, reply: SyncReply) -> bool {
    match stage {
        SyncStage::AwaitingReactor => reply is Reactor,
        SyncStage::AwaitingMessage => reply is Message,
        SyncStage::AwaitingMember { .. } => reply is Member,
        SyncStage::AwaitingRoles { .. } => reply is Roles,
        SyncStage::AwaitingChange { .. } => reply is Change,
        SyncStage::Done => false,
    }
}

/// The emoji of the event as text: empty where the event has none.
pub open spec fn emoji_text(event: ReactionEvent) -> Seq<char> {
    match event.emoji_name {
        Some(name) => name@,
        None => Seq::<char>::empty(),
    }
}

/// The role that the event's emoji stands for on a message of the given
/// content.
pub open spec fn role_wanted(event: ReactionEvent, content: Seq<char>) -> Option<GrantableRole> {
    match binding_for(content) {
        Some(binding) => match event.emoji_name {
            Some(name) => role_bound(binding, name@),
            None => None,
        },
        None => None,
    }
}

/// The step that changes the member's roles.
pub open spec fn change_step(added: bool, guild_id: u64, user_id: u64, role_id: u64) -> SyncStep {
    if added {
        SyncStep::Grant { guild_id, user_id, role_id }
    } else {
        SyncStep::Revoke { guild_id, user_id, role_id }
    }
}

/// The machine's transition: the stage and step that follow when `reply`
/// arrives in `stage`.
pub open spec fn advanced(event: ReactionEvent, stage: SyncStage, reply: SyncReply) -> (
    SyncStage,
    SyncStep,
) {
    match (stage, reply) {
        (SyncStage::AwaitingReactor, SyncReply::Reactor(reactor)) => if reactor == Some(false) {
            (SyncStage::AwaitingMessage, SyncStep::FetchMessage)
        } else {
            (SyncStage::Done, SyncStep::Stop(SyncEnd::ReactorIsBot))
        },
        (SyncStage::AwaitingMessage, SyncReply::Message(message)) => match message {
            None => (SyncStage::Done, SyncStep::Stop(SyncEnd::MessageUnavailable)),
            Some(message) => if message.author_id != event.bot_id {
                (SyncStage::Done, SyncStep::Stop(SyncEnd::NotOurMessage))
            } else if event.guild_id is None || event.user_id is None {
                (SyncStage::Done, SyncStep::Stop(SyncEnd::OutsideGuild))
            } else if binding_for(message.content@) is None {
                (SyncStage::Done, SyncStep::Stop(SyncEnd::NoBinding))
            } else {
                match role_wanted(event, message.content@) {
                    None => (SyncStage::Done, SyncStep::Stop(SyncEnd::UnmappedEmoji)),
                    Some(role) => (
                        SyncStage::AwaitingMember {
                            guild_id: event.guild_id.unwrap(),
                            user_id: event.user_id.unwrap(),
                            role,
                        },
                        SyncStep::FetchMember {
                            guild_id: event.guild_id.unwrap(),
                            user_id: event.user_id.unwrap(),
                        },
                    ),
                }
            },
        },
        (SyncStage::AwaitingMember { guild_id, user_id, role }, SyncReply::Member(found)) => if found {
            (SyncStage::AwaitingRoles { guild_id, user_id, role }, SyncStep::FetchRoles { guild_id })
        } else {
            (SyncStage::Done, SyncStep::Stop(SyncEnd::MemberUnavailable))
        },
        (SyncStage::AwaitingRoles { guild_id, user_id, role }, SyncReply::Roles(roles)) => match roles {
            None => (SyncStage::Done, SyncStep::Stop(SyncEnd::RolesUnavailable)),
            Some(roles) => match first_role_named(roles@, role.spec_title()) {
                None => (SyncStage::Done, SyncStep::Stop(SyncEnd::RoleMissing { role })),
                Some(role_id) => (
                    SyncStage::AwaitingChange { role, role_id },
                    change_step(event.added, guild_id, user_id, role_id),
                ),
            },
        },
        (SyncStage::AwaitingChange { role, role_id }, SyncReply::Change(accepted)) => if accepted {
            (
                SyncStage::Done,
                SyncStep::Stop(SyncEnd::Changed { role, role_id, added: event.added }),
            )
        } else {
            (
                SyncStage::Done,
                SyncStep::Stop(SyncEnd::ChangeRejected { role, role_id, added: event.added }),
            )
        },
        _ => (SyncStage::Done, SyncStep::Stop(SyncEnd::OutOfTurn)),
    }
}

/// Starts a run: the first thing to learn is who reacted.
pub fn begin_sync() -> (start: (SyncStage, SyncStep))
    ensures
        start == (SyncStage::AwaitingReactor, SyncStep::FetchReactor),
{
    (SyncStage::AwaitingReactor, SyncStep::FetchReactor)
}

/// Takes the answer to the last step and decides the next one. A reply
/// that does not answer the step that was asked for ends the run.
pub fn advance_sync(event: &ReactionEvent, stage: SyncStage, reply: &SyncReply) -> (next: (
    SyncStage,
    SyncStep,
))
    ensures
        next == advanced(*event, stage, *reply),
        !answers(stage, *reply) ==> next == (SyncStage::Done, SyncStep::Stop(SyncEnd::OutOfTurn)),
{
    let out_of_turn = (SyncStage::Done, SyncStep::Stop(SyncEnd::OutOfTurn));
    match stage {
        SyncStage::AwaitingReactor => match reply {
            SyncReply::Reactor(Some(false)) => (SyncStage::AwaitingMessage, SyncStep::FetchMessage),
            SyncReply::Reactor(_) => (SyncStage::Done, SyncStep::Stop(SyncEnd::ReactorIsBot)),
            _ => out_of_turn,
        },
        SyncStage::AwaitingMessage => match reply {
            SyncReply::Message(Some(message)) => after_message(event, message),
            SyncReply::Message(None) => (
                SyncStage::Done,
                SyncStep::Stop(SyncEnd::MessageUnavailable),
            ),
            _ => out_of_turn,
        },
        SyncStage::AwaitingMember { guild_id, user_id, role } => match reply {
            SyncReply::Member(true) => (
                SyncStage::AwaitingRoles { guild_id, user_id, role },
                SyncStep::FetchRoles { guild_id },
            ),
            SyncReply::Member(false) => (
                SyncStage::Done,
                SyncStep::Stop(SyncEnd::MemberUnavailable),
            ),
            _ => out_of_turn,
        },
        SyncStage::AwaitingRoles { guild_id, user_id, role } => match reply {
            SyncReply::Roles(Some(roles)) => match find_role(roles, role.title()) {
                Some(role_id) => {
                    let step = if event.added {
                        SyncStep::Grant { guild_id, user_id, role_id }
                    } else {
                        SyncStep::Revoke { guild_id, user_id, role_id }
                    };
                    (SyncStage::AwaitingChange { role, role_id }, step)
                },
                None => (SyncStage::Done, SyncStep::Stop(SyncEnd::RoleMissing { role })),
            },
            SyncReply::Roles(None) => (SyncStage::Done, SyncStep::Stop(SyncEnd::RolesUnavailable)),
            _ => out_of_turn,
        },
        SyncStage::AwaitingChange { role, role_id } => match reply {
            SyncReply::Change(true) => (
                SyncStage::Done,
                SyncStep::Stop(SyncEnd::Changed { role, role_id, added: event.added }),
            ),
            SyncReply::Change(false) => (
                SyncStage::Done,
                SyncStep::Stop(SyncEnd::ChangeRejected { role, role_id, added: event.added }),
            ),
            _ => out_of_turn,
        },
        SyncStage::Done => out_of_turn,
    }
}

/// The decision once the message is known: whose message it is, which role
/// message, and which role the emoji stands for.
fn after_message(event: &ReactionEvent, message: &ReactedMessage) -> (next: (SyncStage, SyncStep))
    ensures
        next == advanced(
            *event,
            SyncStage::AwaitingMessage,
            SyncReply::Message(Some(*message)),
        ),
{
    if message.author_id != event.bot_id {
        return (SyncStage::Done, SyncStep::Stop(SyncEnd::NotOurMessage));
    }
    let (guild_id, user_id) = match (event.guild_id, event.user_id) {
        (Some(guild_id), Some(user_id)) => (guild_id, user_id),
        _ => {
            return (SyncStage::Done, SyncStep::Stop(SyncEnd::OutsideGuild));
        },
    };
    let binding = match binding_of(message.content.as_str()) {
        Some(binding) => binding,
        None => {
            return (SyncStage::Done, SyncStep::Stop(SyncEnd::NoBinding));
        },
    };
    let wanted = match &event.emoji_name {
        Some(name) => role_for(binding, name.as_str()),
        None => None,
    };
    match wanted {
        Some(role) => (
            SyncStage::AwaitingMember { guild_id, user_id, role },
            SyncStep::FetchMember { guild_id, user_id },
        ),
        None => (SyncStage::Done, SyncStep::Stop(SyncEnd::UnmappedEmoji)),
    }
}

/// What the gateway would answer to each step of one run.
pub struct GatewayAnswers {
    pub reactor: Option<bool>,
    pub message: Option<ReactedMessage>,
    pub member: bool,
    pub roles: Option<Vec<GuildRole>>,
    pub change: bool,
}

impl GatewayAnswers {
    /// The answer to a step.
    pub open spec fn to(self, step: SyncStep) -> SyncReply {
        match step {
            SyncStep::FetchReactor => SyncReply::Reactor(self.reactor),
            SyncStep::FetchMessage => SyncReply::Message(self.message),
            SyncStep::FetchMember { .. } => SyncReply::Member(self.member),
            SyncStep::FetchRoles { .. } => SyncReply::Roles(self.roles),
            SyncStep::Grant { .. } => SyncReply::Change(self.change),
            SyncStep::Revoke { .. } => SyncReply::Change(self.change),
            SyncStep::Stop(end) => SyncReply::Change(self.change),
        }
    }
}

/// How a run ends that stands at `stage` with `step` asked for, when every
/// step is performed and answered, for at most `steps` more steps.
pub open spec fn run_from(
    event: ReactionEvent,
    gateway: GatewayAnswers,
    stage: SyncStage,
    step: SyncStep,
    steps: nat,
) -> Option<SyncEnd>
    decreases steps,
{
    match step {
        SyncStep::Stop(end) => Some(end),
        _ => if steps == 0 {
            None
        } else {
            let next = advanced(event, stage, gateway.to(step));
            run_from(event, gateway, next.0, next.1, (steps - 1) as nat)
        },
    }
}

/// What a reaction comes to, read off the facts: the first of the six
/// checks that fails names the end, and if none fails the role is changed.
pub open spec fn verdict(event: ReactionEvent, gateway: GatewayAnswers) -> SyncEnd {
    if gateway.reactor != Some(false) {
        SyncEnd::ReactorIsBot
    } else if gateway.message is None {
        SyncEnd::MessageUnavailable
    } else if gateway.message.unwrap().author_id != event.bot_id {
        SyncEnd::NotOurMessage
    } else if event.guild_id is None || event.user_id is None {
        SyncEnd::OutsideGuild
    } else if binding_for(gateway.message.unwrap().content@) is None {
        SyncEnd::NoBinding
    } else if role_wanted(event, gateway.message.unwrap().content@) is None {
        SyncEnd::UnmappedEmoji
    } else if !gateway.member {
        SyncEnd::MemberUnavailable
    } else if gateway.roles is None {
        SyncEnd::RolesUnavailable
    } else {
        let role = role_wanted(event, gateway.message.unwrap().content@).unwrap();
        match first_role_named(gateway.roles.unwrap()@, role.spec_title()) {
            None => SyncEnd::RoleMissing { role },
            Some(role_id) => if gateway.change {
                SyncEnd::Changed { role, role_id, added: event.added }
            } else {
                SyncEnd::ChangeRejected { role, role_id, added: event.added }
            },
        }
    }
}

/// Every run ends within five answered steps, and it ends as the verdict
/// says.
pub proof fn run_ends_in_verdict(event: ReactionEvent, gateway: GatewayAnswers)
    ensures
        run_from(event, gateway, SyncStage::AwaitingReactor, SyncStep::FetchReactor, 5) == Some(
            verdict(event, gateway),
        ),
{
    reveal_with_fuel(run_from, 6);
}

/// A reaction changes nothing unless a human made it on a role message
/// that this bot wrote itself, with an emoji that the message binds to a
/// role: on a message of anyone else, another bot included, and with an
/// emoji that maps to no binding, the run ends without asking for a grant
/// or a revoke, and it ends as an ordinary stop.
pub proof fn no_change_without_bound_reaction(event: ReactionEvent, gateway: GatewayAnswers)
    ensures
        verdict(event, gateway).asked_for_change() ==> gateway.reactor == Some(false)
            && gateway.message is Some && gateway.message.unwrap().author_id == event.bot_id
            && role_wanted(
            event,
            gateway.message.unwrap().content@,
        ) is Some,
        gateway.reactor == Some(false) && gateway.message is Some
            && gateway.message.unwrap().author_id != event.bot_id ==> verdict(event, gateway)
            == SyncEnd::NotOurMessage,
        gateway.reactor == Some(false) && gateway.message is Some
            && gateway.message.unwrap().author_id == event.bot_id && event.guild_id is Some
            && event.user_id is Some && role_wanted(event, gateway.message.unwrap().content@)
            is None ==> verdict(event, gateway) == SyncEnd::NoBinding || verdict(event, gateway)
            == SyncEnd::UnmappedEmoji,
{
}

/// A step that changes roles is only ever asked for with the role's id as
/// the guild lists it, and only a run that asked for it ends as changed.
pub proof fn change_is_asked_once_the_role_is_found(
    event: ReactionEvent,
    stage: SyncStage,
    reply: SyncReply,
)
    ensures
        ({
            let next = advanced(event, stage, reply);
            &&& (next.1 is Grant || next.1 is Revoke) ==> stage is AwaitingRoles
                && reply is Roles && reply->Roles_0 is Some && first_role_named(
                reply->Roles_0.unwrap()@,
                stage->AwaitingRoles_role.spec_title(),
            ) is Some
            &&& next.1 is Grant ==> event.added
            &&& next.1 is Revoke ==> !event.added
            &&& (next.1 matches SyncStep::Stop(end) ==> (end.asked_for_change()
                ==> stage is AwaitingChange))
            &&& next.1 is Stop <==> next.0 is Done
        }),
{
}

} // verus!
