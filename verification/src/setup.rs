//! Setting up a role message: the maintenance flow that finds the emoji,
//! makes sure the roles exist, posts the message and attaches the
//! reactions.
//!
//! This is the one place where roles are created. The flow is a machine of
//! stages like the reaction-role machine. It lists the emoji and finds all
//! of them before it creates anything, so that a setup given up for an
//! emoji leaves the guild as it was; and it gives up, before anything is
//! posted, as soon as a role cannot be had. One trace can stay behind: when
//! a later role cannot be created after an earlier one was, the earlier
//! role remains, for the gateway offers nothing that takes a role away
//! again.

use crate::roles::{
    binding_for, event_marker, first_role_named, find_role, pronoun_marker, role_bound, Binding,
    GrantableRole, GuildRole,
};
use crate::text::same_text;
use vstd::prelude::*;
use vstd::string::StringExecFns;

verus! {

/// A custom emoji of the guild as the gateway lists it.
#[derive(Clone, Debug, PartialEq, Eq)]
pub struct GuildEmoji {
    pub name: String,
    /// The text that shows the emoji in a message.
    pub mention: String,
}

/// The roles that a role message offers, in the order of its lines.
pub open spec fn roles_offered(binding: Binding) -> Seq<GrantableRole> {
    match binding {
        Binding::Pronouns => seq![
            GrantableRole::HeHim,
            GrantableRole::SheHer,
            GrantableRole::TheyThem,
        ],
        Binding::Events => seq![GrantableRole::FcEvents],
    }
}

pub fn offered_roles(binding: Binding) -> (roles: Vec<GrantableRole>)
    ensures
        roles@ == roles_offered(binding),
{
    match binding {
        Binding::Pronouns => {
            let roles = vec![GrantableRole::HeHim, GrantableRole::SheHer, GrantableRole::TheyThem];
            assert(roles@ =~= roles_offered(binding));
            roles
        },
        Binding::Events => {
            let roles = vec![GrantableRole::FcEvents];
            assert(roles@ =~= roles_offered(binding));
            roles
        },
    }
}

/// The place of the first listed emoji with the given name.
pub open spec fn first_emoji_named(emojis: Seq<GuildEmoji>, name: Seq<char>) -> Option<int>
    decreases emojis.len(),
{
    if emojis.len() == 0 {
        None
    } else if emojis[0].name@ == name {
        Some(0)
    } else {
        match first_emoji_named(emojis.drop_first(), name) {
            Some(place) => Some(place + 1),
            None => None,
        }
    }
}

/// A place that `first_emoji_named` gives lies in the list and holds an
/// emoji of that name.
pub proof fn lemma_first_emoji_named(emojis: Seq<GuildEmoji>, name: Seq<char>)
    ensures
        first_emoji_named(emojis, name) matches Some(place) ==> 0 <= place < emojis.len()
            && emojis[place].name@ == name,
    decreases emojis.len(),
{
    if emojis.len() > 0 && emojis[0].name@ != name {
        lemma_first_emoji_named(emojis.drop_first(), name);
    }
}

/// Finds a custom emoji by name: the first one listed under that name.
pub fn find_emoji(emojis: &Vec<GuildEmoji>, name: &str) -> (place: Option<usize>)
    ensures
        match place {
            Some(place) => first_emoji_named(emojis@, name@) == Some(place as int),
            None => first_emoji_named(emojis@, name@) is None,
        },
        place matches Some(place) ==> place < emojis@.len(),
{
    proof {
        lemma_first_emoji_named(emojis@, name@);
    }
    let mut index: usize = 0;
    assert(emojis@.skip(0) =~= emojis@);
    while index < emojis.len()
        invariant
            index <= emojis@.len(),
            first_emoji_named(emojis@, name@) == match first_emoji_named(
                emojis@.skip(index as int),
                name@,
            ) {
                Some(place) => Some(place + index),
                None => None,
            },
        decreases emojis@.len() - index,
    {
        let ghost rest = emojis@.skip(index as int);
        assert(rest[0] == emojis@[index as int]);
        assert(rest.drop_first() =~= emojis@.skip(index + 1));
        if same_text(emojis[index].name.as_str(), name) {
            return Some(index);
        }
        index += 1;
    }
    assert(emojis@.skip(index as int).len() == 0);
    None
}

/// The places in the guild's list of the emoji that stand for the offered
/// roles, in the order of the roles; `None` as soon as one is missing.
pub open spec fn emoji_places(emojis: Seq<GuildEmoji>, roles: Seq<GrantableRole>) -> Option<
    Seq<int>,
>
    decreases roles.len(),
{
    if roles.len() == 0 {
        Some(Seq::<int>::empty())
    } else {
        match emoji_places(emojis, roles.drop_last()) {
            None => None,
            Some(places) => match first_emoji_named(emojis, roles.last().spec_emoji_name()) {
                None => None,
                Some(place) => Some(places.push(place)),
            },
        }
    }
}

/// The first of the given roles whose emoji the guild's list lacks.
pub open spec fn first_role_without_emoji(
    emojis: Seq<GuildEmoji>,
    roles: Seq<GrantableRole>,
) -> Option<GrantableRole>
    decreases roles.len(),
{
    if roles.len() == 0 {
        None
    } else {
        match first_role_without_emoji(emojis, roles.drop_last()) {
            Some(role) => Some(role),
            None => if first_emoji_named(emojis, roles.last().spec_emoji_name()) is None {
                Some(roles.last())
            } else {
                None
            },
        }
    }
}

/// The places as mathematical integers.
pub open spec fn places_of(places: Seq<usize>) -> Seq<int> {
    Seq::new(places.len(), |i: int| places[i] as int)
}

/// Finds the emoji of every given role, or names the first role whose emoji
/// is missing.
pub fn locate_emojis(emojis: &Vec<GuildEmoji>, roles: &Vec<GrantableRole>) -> (found: Result<
    Vec<usize>,
    GrantableRole,
>)
    ensures
        match found {
            Ok(places) => emoji_places(emojis@, roles@) == Some(places_of(places@))
                && places@.len() == roles@.len() && forall|i: int|
                0 <= i < places@.len() ==> #[trigger] places@[i] < emojis@.len(),
            Err(role) => emoji_places(emojis@, roles@) is None && first_role_without_emoji(
                emojis@,
                roles@,
            ) == Some(role),
        },
{
    let mut places: Vec<usize> = Vec::new();
    let mut index: usize = 0;
    assert(roles@.take(0) =~= Seq::<GrantableRole>::empty());
    assert(places_of(places@) =~= Seq::<int>::empty());
    while index < roles.len()
        invariant
            index <= roles@.len(),
            places@.len() == index,
            emoji_places(emojis@, roles@.take(index as int)) == Some(places_of(places@)),
            first_role_without_emoji(emojis@, roles@.take(index as int)) is None,
            forall|i: int| 0 <= i < places@.len() ==> #[trigger] places@[i] < emojis@.len(),
        decreases roles@.len() - index,
    {
        let ghost seen = roles@.take(index + 1);
        assert(seen.drop_last() =~= roles@.take(index as int));
        assert(seen.last() == roles@[index as int]);
        let role = roles[index];
        match find_emoji(emojis, role.emoji_name()) {
            Some(place) => {
                let ghost before = places@;
                places.push(place);
                assert(places_of(places@) =~= places_of(before).push(place as int));
            },
            None => {
                proof {
                    lemma_missing_emoji_stays_missing(emojis@, roles@, index + 1);
                }
                return Err(role);
            },
        }
        index += 1;
    }
    assert(roles@.take(index as int) =~= roles@);
    Ok(places)
}

/// Once an emoji is missing among the first roles, it is missing among all
/// of them, and the first role without its emoji stays the same.
proof fn lemma_missing_emoji_stays_missing(
    emojis: Seq<GuildEmoji>,
    roles: Seq<GrantableRole>,
    upto: int,
)
    requires
        0 <= upto <= roles.len(),
        emoji_places(emojis, roles.take(upto)) is None,
    ensures
        emoji_places(emojis, roles) is None,
        first_role_without_emoji(emojis, roles) == first_role_without_emoji(
            emojis,
            roles.take(upto),
        ),
        first_role_without_emoji(emojis, roles.take(upto)) is Some,
    decreases roles.len() - upto,
{
    lemma_places_or_missing(emojis, roles.take(upto));
    if upto == roles.len() {
        assert(roles.take(upto) =~= roles);
    } else {
        let longer = roles.take(upto + 1);
        assert(longer.drop_last() =~= roles.take(upto));
        lemma_missing_emoji_stays_missing(emojis, roles, upto + 1);
    }
}

/// Either every role has its emoji, or some role is the first without.
proof fn lemma_places_or_missing(emojis: Seq<GuildEmoji>, roles: Seq<GrantableRole>)
    ensures
        emoji_places(emojis, roles) is None <==> first_role_without_emoji(emojis, roles) is Some,
    decreases roles.len(),
{
    if roles.len() > 0 {
        lemma_places_or_missing(emojis, roles.drop_last());
    }
}

/// The content of a role message, given the texts that show its emoji.
pub open spec fn role_message_text(binding: Binding, mentions: Seq<Seq<char>>) -> Seq<char> {
    match binding {
        Binding::Pronouns => pronoun_marker() + "\n"@ + mentions[0] + " He/Him\n"@ + mentions[1]
            + " She/Her\n"@ + mentions[2] + " They/Them"@,
        Binding::Events => "React with "@ + mentions[0] + " to get the '"@
            + GrantableRole::FcEvents.spec_title() + "' "@ + event_marker() + "!"@,
    }
}

/// The texts that show the emoji at the given places.
pub open spec fn mentions_at(emojis: Seq<GuildEmoji>, places: Seq<int>) -> Seq<Seq<char>> {
    Seq::new(places.len(), |i: int| emojis[places[i]].mention@)
}

/// Writes the content of a role message.
pub fn compose_role_message(binding: Binding, emojis: &Vec<GuildEmoji>, places: &Vec<usize>) -> (content:
    String)
    requires
        places@.len() == roles_offered(binding).len(),
        forall|i: int| 0 <= i < places@.len() ==> #[trigger] places@[i] < emojis@.len(),
    ensures
        content@ == role_message_text(binding, mentions_at(emojis@, places_of(places@))),
{
    match binding {
        Binding::Pronouns => {
            let mut content = String::from_str("Assign yourself Pronouns");
            content.append("\n");
            content.append(emojis[places[0]].mention.as_str());
            content.append(" He/Him\n");
            content.append(emojis[places[1]].mention.as_str());
            content.append(" She/Her\n");
            content.append(emojis[places[2]].mention.as_str());
            content.append(" They/Them");
            content
        },
        Binding::Events => {
            let mut content = String::from_str("React with ");
            content.append(emojis[places[0]].mention.as_str());
            content.append(" to get the '");
            content.append(GrantableRole::FcEvents.title());
            content.append("' ");
            content.append("role for event notifications");
            content.append("!");
            content
        },
    }
}

/// Why a setup ended.
#[derive(Clone, Copy, Debug, PartialEq, Eq, Structural)]
pub enum SetupEnd {
    /// The trigger was not sent in a guild.
    OutsideGuild,
    /// The guild's emoji could not be listed.
    EmojisUnavailable,
    /// The guild lacks the emoji of a role.
    EmojiMissing { role: GrantableRole },
    /// The guild's roles could not be listed.
    RolesUnavailable,
    /// A role was missing and could not be created.
    RoleNotCreated { role: GrantableRole },
    /// The flow ran to its end; `posted` tells whether the message went
    /// out.
    Completed { posted: bool },
    /// The reply answers no step that was asked for; the flow is given up.
    OutOfTurn,
}

/// The role message as it will be posted once the roles are there.
#[derive(Clone, Debug, PartialEq, Eq)]
pub struct Draft {
    pub content: String,
    /// The places in the guild's list of the emoji to react with.
    pub reactions: Vec<usize>,
}

/// A draft, with its content as a sequence of characters.
pub struct DraftModel {
    pub content: Seq<char>,
    pub reactions: Seq<int>,
}

impl View for Draft {
    type V = DraftModel;

    open spec fn view(&self) -> DraftModel {
        DraftModel { content: self.content@, reactions: places_of(self.reactions@) }
    }
}

/// What the flow asks its runner to do next.
#[derive(Clone, Debug, PartialEq, Eq)]
pub enum SetupStep {
    /// List the custom emoji of the guild.
    FetchEmojis,
    /// List the roles of the guild.
    FetchRoles,
    /// Create the role, mentionable, under its title.
    CreateRole { role: GrantableRole },
    /// Send the message to the channel of the trigger and, if it went out,
    /// react to it with the listed emoji at these places, in this order.
    Post { content: String, reactions: Vec<usize> },
    /// Delete the message that triggered the flow.
    DeleteTrigger { posted: bool },
    /// Nothing more to do.
    Stop(SetupEnd),
}

/// A step, with its content as a sequence of characters.
pub enum SetupStepModel {
    FetchEmojis,
    FetchRoles,
    CreateRole { role: GrantableRole },
    Post { content: Seq<char>, reactions: Seq<int> },
    DeleteTrigger { posted: bool },
    Stop(SetupEnd),
}

impl View for SetupStep {
    type V = SetupStepModel;

    open spec fn view(&self) -> SetupStepModel {
        match *self {
            SetupStep::FetchEmojis => SetupStepModel::FetchEmojis,
            SetupStep::FetchRoles => SetupStepModel::FetchRoles,
            SetupStep::CreateRole { role } => SetupStepModel::CreateRole { role },
            SetupStep::Post { content, reactions } => SetupStepModel::Post {
                content: content@,
                reactions: places_of(reactions@),
            },
            SetupStep::DeleteTrigger { posted } => SetupStepModel::DeleteTrigger { posted },
            SetupStep::Stop(end) => SetupStepModel::Stop(end),
        }
    }
}

/// Where a setup stands.
#[derive(Clone, Debug, PartialEq, Eq)]
pub enum SetupStage {
    /// The emoji are listed, before anything else.
    AwaitingEmojis { binding: Binding },
    /// The roles are listed to see whether the `index`-th offered role
    /// exists.
    AwaitingRoles { binding: Binding, index: usize, draft: Draft },
    /// The `index`-th offered role is being created.
    AwaitingCreation { binding: Binding, index: usize, draft: Draft },
    AwaitingPost,
    AwaitingDeletion { posted: bool },
    Done,
}

/// A stage, with its draft by its view.
pub enum SetupStageModel {
    AwaitingEmojis { binding: Binding },
    AwaitingRoles { binding: Binding, index: usize, draft: DraftModel },
    AwaitingCreation { binding: Binding, index: usize, draft: DraftModel },
    AwaitingPost,
    AwaitingDeletion { posted: bool },
    Done,
}

impl View for SetupStage {
    type V = SetupStageModel;

    open spec fn view(&self) -> SetupStageModel {
        match *self {
            SetupStage::AwaitingEmojis { binding } => SetupStageModel::AwaitingEmojis { binding },
            SetupStage::AwaitingRoles { binding, index, draft } => SetupStageModel::AwaitingRoles {
                binding,
                index,
                draft: draft@,
            },
            SetupStage::AwaitingCreation {
                binding,
                index,
                draft,
            } => SetupStageModel::AwaitingCreation { binding, index, draft: draft@ },
            SetupStage::AwaitingPost => SetupStageModel::AwaitingPost,
            SetupStage::AwaitingDeletion { posted } => SetupStageModel::AwaitingDeletion { posted },
            SetupStage::Done => SetupStageModel::Done,
        }
    }
}

/// What the runner hands back after a step.
#[derive(Clone, Debug, PartialEq, Eq)]
pub enum SetupReply {
    /// The custom emoji of the guild; `None` if the listing failed.
    Emojis(Option<Vec<GuildEmoji>>),
    /// The roles of the guild; `None` if the listing failed.
    Roles(Option<Vec<GuildRole>>),
    /// Whether the role was created.
    Created(bool),
    /// Whether the message went out.
    Posted(bool),
    /// The trigger is deleted, or deleting it failed: the flow ends either
    /// way.
    Deleted,
}

/// The end of a flow.
pub open spec fn stopped(end: SetupEnd) -> (SetupStageModel, SetupStepModel) {
    (SetupStageModel::Done, SetupStepModel::Stop(end))
}

/// What follows once the `index`-th offered role is known to exist: the
/// next role is looked for, or after the last one the message is posted.
pub open spec fn role_ensured(binding: Binding, index: int, draft: DraftModel) -> (
    SetupStageModel,
    SetupStepModel,
) {
    if index + 1 < roles_offered(binding).len() {
        (
            SetupStageModel::AwaitingRoles { binding, index: (index + 1) as usize, draft },
            SetupStepModel::FetchRoles,
        )
    } else {
        (
            SetupStageModel::AwaitingPost,
            SetupStepModel::Post { content: draft.content, reactions: draft.reactions },
        )
    }
}

/// What follows once the emoji are listed: the flow is given up if one is
/// missing, before any role is looked for or created; else the message is
/// drafted and the first role looked for.
pub open spec fn emojis_listed(binding: Binding, emojis: Seq<GuildEmoji>) -> (
    SetupStageModel,
    SetupStepModel,
) {
    match emoji_places(emojis, roles_offered(binding)) {
        None => stopped(
            SetupEnd::EmojiMissing {
                role: first_role_without_emoji(emojis, roles_offered(binding)).unwrap(),
            },
        ),
        Some(places) => (
            SetupStageModel::AwaitingRoles {
                binding,
                index: 0,
                draft: DraftModel {
                    content: role_message_text(binding, mentions_at(emojis, places)),
                    reactions: places,
                },
            },
            SetupStepModel::FetchRoles,
        ),
    }
}

/// The flow's transition: the stage and step that follow when `reply`
/// arrives in `stage`.
pub open spec fn setup_advanced(stage: SetupStageModel, reply: SetupReply) -> (
    SetupStageModel,
    SetupStepModel,
) {
    match (stage, reply) {
        (SetupStageModel::AwaitingEmojis { binding }, SetupReply::Emojis(emojis)) => match emojis {
            None => stopped(SetupEnd::EmojisUnavailable),
            Some(emojis) => emojis_listed(binding, emojis@),
        },
        (SetupStageModel::AwaitingRoles { binding, index, draft }, SetupReply::Roles(roles)) => if index
            >= roles_offered(binding).len() {
            stopped(SetupEnd::OutOfTurn)
        } else {
            match roles {
                None => stopped(SetupEnd::RolesUnavailable),
                Some(roles) => match first_role_named(
                    roles@,
                    roles_offered(binding)[index as int].spec_title(),
                ) {
                    Some(role_id) => role_ensured(binding, index as int, draft),
                    None => (
                        SetupStageModel::AwaitingCreation { binding, index, draft },
                        SetupStepModel::CreateRole { role: roles_offered(binding)[index as int] },
                    ),
                },
            }
        },
        (
            SetupStageModel::AwaitingCreation { binding, index, draft },
            SetupReply::Created(created),
        ) => if index >= roles_offered(binding).len() {
            stopped(SetupEnd::OutOfTurn)
        } else if created {
            role_ensured(binding, index as int, draft)
        } else {
            stopped(SetupEnd::RoleNotCreated { role: roles_offered(binding)[index as int] })
        },
        (SetupStageModel::AwaitingPost, SetupReply::Posted(posted)) => (
            SetupStageModel::AwaitingDeletion { posted },
            SetupStepModel::DeleteTrigger { posted },
        ),
        (SetupStageModel::AwaitingDeletion { posted }, SetupReply::Deleted) => stopped(
            SetupEnd::Completed { posted },
        ),
        _ => stopped(SetupEnd::OutOfTurn),
    }
}

/// Starts a setup of the given role message, triggered in a guild or not.
/// The first thing to learn is which emoji the guild has.
pub fn begin_setup(binding: Binding, in_guild: bool) -> (start: (SetupStage, SetupStep))
    ensures
        (start.0@, start.1@) == if in_guild {
            (SetupStageModel::AwaitingEmojis { binding }, SetupStepModel::FetchEmojis)
        } else {
            stopped(SetupEnd::OutsideGuild)
        },
{
    if in_guild {
        (SetupStage::AwaitingEmojis { binding }, SetupStep::FetchEmojis)
    } else {
        (SetupStage::Done, SetupStep::Stop(SetupEnd::OutsideGuild))
    }
}

fn ensure_next_role(binding: Binding, index: usize, offered: usize, draft: Draft) -> (next: (
    SetupStage,
    SetupStep,
))
    requires
        offered == roles_offered(binding).len(),
        index < offered,
    ensures
        (next.0@, next.1@) == role_ensured(binding, index as int, draft@),
{
    if index + 1 < offered {
        (SetupStage::AwaitingRoles { binding, index: index + 1, draft }, SetupStep::FetchRoles)
    } else {
        (
            SetupStage::AwaitingPost,
            SetupStep::Post { content: draft.content, reactions: draft.reactions },
        )
    }
}

fn list_emojis(binding: Binding, emojis: &Vec<GuildEmoji>) -> (next: (SetupStage, SetupStep))
    ensures
        (next.0@, next.1@) == emojis_listed(binding, emojis@),
{
    let offered = offered_roles(binding);
    match locate_emojis(emojis, &offered) {
        Err(role) => (SetupStage::Done, SetupStep::Stop(SetupEnd::EmojiMissing { role })),
        Ok(places) => {
            let content = compose_role_message(binding, emojis, &places);
            (
                SetupStage::AwaitingRoles {
                    binding,
                    index: 0,
                    draft: Draft { content, reactions: places },
                },
                SetupStep::FetchRoles,
            )
        },
    }
}

/// Takes the answer to the last step and decides the next one. A reply
/// that does not answer the step that was asked for ends the flow.
pub fn advance_setup(stage: SetupStage, reply: &SetupReply) -> (next: (SetupStage, SetupStep))
    ensures
        (next.0@, next.1@) == setup_advanced(stage@, *reply),
{
    let out_of_turn = (SetupStage::Done, SetupStep::Stop(SetupEnd::OutOfTurn));
    match stage {
        SetupStage::AwaitingEmojis { binding } => match reply {
            SetupReply::Emojis(None) => (
                SetupStage::Done,
                SetupStep::Stop(SetupEnd::EmojisUnavailable),
            ),
            SetupReply::Emojis(Some(emojis)) => list_emojis(binding, emojis),
            _ => out_of_turn,
        },
        SetupStage::AwaitingRoles { binding, index, draft } => match reply {
            SetupReply::Roles(listing) => {
                let offered = offered_roles(binding);
                if index >= offered.len() {
                    return out_of_turn;
                }
                let role = offered[index];
                match listing {
                    None => (SetupStage::Done, SetupStep::Stop(SetupEnd::RolesUnavailable)),
                    Some(roles) => match find_role(roles, role.title()) {
                        Some(role_id) => ensure_next_role(binding, index, offered.len(), draft),
                        None => (
                            SetupStage::AwaitingCreation { binding, index, draft },
                            SetupStep::CreateRole { role },
                        ),
                    },
                }
            },
            _ => out_of_turn,
        },
        SetupStage::AwaitingCreation { binding, index, draft } => match reply {
            SetupReply::Created(created) => {
                let offered = offered_roles(binding);
                if index >= offered.len() {
                    return out_of_turn;
                }
                if *created {
                    ensure_next_role(binding, index, offered.len(), draft)
                } else {
                    (
                        SetupStage::Done,
                        SetupStep::Stop(SetupEnd::RoleNotCreated { role: offered[index] }),
                    )
                }
            },
            _ => out_of_turn,
        },
        SetupStage::AwaitingPost => match reply {
            SetupReply::Posted(posted) => (
                SetupStage::AwaitingDeletion { posted: *posted },
                SetupStep::DeleteTrigger { posted: *posted },
            ),
            _ => out_of_turn,
        },
        SetupStage::AwaitingDeletion { posted } => match reply {
            SetupReply::Deleted => (
                SetupStage::Done,
                SetupStep::Stop(SetupEnd::Completed { posted }),
            ),
            _ => out_of_turn,
        },
        SetupStage::Done => out_of_turn,
    }
}

/// What the gateway would answer to each kind of step of one setup.
pub struct SetupAnswers {
    pub emojis: Option<Vec<GuildEmoji>>,
    pub roles: Option<Vec<GuildRole>>,
    pub created: bool,
    pub posted: bool,
}

impl SetupAnswers {
    /// The answer to a step.
    pub open spec fn to(self, step: SetupStepModel) -> SetupReply {
        match step {
            SetupStepModel::FetchEmojis => SetupReply::Emojis(self.emojis),
            SetupStepModel::FetchRoles => SetupReply::Roles(self.roles),
            SetupStepModel::CreateRole { .. } => SetupReply::Created(self.created),
            SetupStepModel::Post { .. } => SetupReply::Posted(self.posted),
            SetupStepModel::DeleteTrigger { .. } => SetupReply::Deleted,
            SetupStepModel::Stop(end) => SetupReply::Deleted,
        }
    }
}

/// How a setup went: how it ended, whether it asked for a role to be
/// created, and whether it asked for the message to be posted.
pub struct SetupRun {
    pub end: SetupEnd,
    pub asked_to_create: bool,
    pub asked_to_post: bool,
}

/// How a setup goes that stands at `stage` with `step` asked for, when
/// every step is performed and answered, for at most `steps` more steps.
pub open spec fn setup_run_from(
    answers: SetupAnswers,
    stage: SetupStageModel,
    step: SetupStepModel,
    steps: nat,
) -> Option<SetupRun>
    decreases steps,
{
    match step {
        SetupStepModel::Stop(end) => Some(
            SetupRun { end, asked_to_create: false, asked_to_post: false },
        ),
        _ => if steps == 0 {
            None
        } else {
            let next = setup_advanced(stage, answers.to(step));
            match setup_run_from(answers, next.0, next.1, (steps - 1) as nat) {
                Some(rest) => Some(
                    SetupRun {
                        end: rest.end,
                        asked_to_create: step is CreateRole || rest.asked_to_create,
                        asked_to_post: step is Post || rest.asked_to_post,
                    },
                ),
                None => None,
            }
        },
    }
}

/// The first of the given roles that the guild does not list.
pub open spec fn first_unlisted_role(listed: Seq<GuildRole>, roles: Seq<GrantableRole>) -> Option<
    GrantableRole,
>
    decreases roles.len(),
{
    if roles.len() == 0 {
        None
    } else if first_role_named(listed, roles[0].spec_title()) is None {
        Some(roles[0])
    } else {
        first_unlisted_role(listed, roles.drop_first())
    }
}

/// How a setup goes once the emoji are found and the offered roles before
/// `index` are known to exist.
pub open spec fn setup_verdict_from(binding: Binding, answers: SetupAnswers, index: int) -> SetupRun {
    if answers.roles is None {
        SetupRun { end: SetupEnd::RolesUnavailable, asked_to_create: false, asked_to_post: false }
    } else {
        match first_unlisted_role(answers.roles.unwrap()@, roles_offered(binding).skip(index)) {
            Some(role) => if answers.created {
                SetupRun {
                    end: SetupEnd::Completed { posted: answers.posted },
                    asked_to_create: true,
                    asked_to_post: true,
                }
            } else {
                SetupRun {
                    end: SetupEnd::RoleNotCreated { role },
                    asked_to_create: true,
                    asked_to_post: false,
                }
            },
            None => SetupRun {
                end: SetupEnd::Completed { posted: answers.posted },
                asked_to_create: false,
                asked_to_post: true,
            },
        }
    }
}

/// How a setup goes, read off the facts. It is given up, with nothing
/// created and nothing posted, if the emoji cannot be listed or the emoji of
/// an offered role is missing; it is given up, with nothing posted, if the
/// roles cannot be listed or a missing role cannot be created; else it runs
/// to its end.
pub open spec fn setup_verdict(binding: Binding, answers: SetupAnswers) -> SetupRun {
    if answers.emojis is None {
        SetupRun { end: SetupEnd::EmojisUnavailable, asked_to_create: false, asked_to_post: false }
    } else {
        match first_role_without_emoji(answers.emojis.unwrap()@, roles_offered(binding)) {
            Some(role) => SetupRun {
                end: SetupEnd::EmojiMissing { role },
                asked_to_create: false,
                asked_to_post: false,
            },
            None => setup_verdict_from(binding, answers, 0),
        }
    }
}

/// A run that has ended within some number of steps ends the same way
/// within any greater number.
proof fn lemma_run_with_more_steps(
    answers: SetupAnswers,
    stage: SetupStageModel,
    step: SetupStepModel,
    steps: nat,
    more: nat,
)
    requires
        setup_run_from(answers, stage, step, steps) is Some,
    ensures
        setup_run_from(answers, stage, step, steps + more) == setup_run_from(
            answers,
            stage,
            step,
            steps,
        ),
    decreases steps,
{
    if !(step is Stop) && steps > 0 {
        let next = setup_advanced(stage, answers.to(step));
        lemma_run_with_more_steps(answers, next.0, next.1, (steps - 1) as nat, more);
    }
}

/// From the posting on, a setup ends within two answered steps.
proof fn lemma_run_from_post(answers: SetupAnswers, draft: DraftModel)
    ensures
        setup_run_from(
            answers,
            SetupStageModel::AwaitingPost,
            SetupStepModel::Post { content: draft.content, reactions: draft.reactions },
            2,
        ) == Some(
            SetupRun {
                end: SetupEnd::Completed { posted: answers.posted },
                asked_to_create: false,
                asked_to_post: true,
            },
        ),
{
    reveal_with_fuel(setup_run_from, 3);
}

/// From the look for the `index`-th offered role on, a setup ends within
/// two answered steps for each role still to be ensured and two more, as
/// its verdict says.
proof fn lemma_run_from_role(
    binding: Binding,
    answers: SetupAnswers,
    index: usize,
    draft: DraftModel,
    steps: nat,
)
    requires
        index < roles_offered(binding).len(),
        steps >= 2 * (roles_offered(binding).len() - index) + 2,
    ensures
        setup_run_from(
            answers,
            SetupStageModel::AwaitingRoles { binding, index, draft },
            SetupStepModel::FetchRoles,
            steps,
        ) == Some(setup_verdict_from(binding, answers, index as int)),
    decreases roles_offered(binding).len() - index,
{
    reveal_with_fuel(setup_run_from, 3);
    let offered = roles_offered(binding);
    let rest = offered.skip(index as int);
    assert(rest[0] == offered[index as int]);
    assert(rest.drop_first() =~= offered.skip(index + 1));
    let after = role_ensured(binding, index as int, draft);
    if index + 1 < offered.len() {
        lemma_run_from_role(binding, answers, (index + 1) as usize, draft, (steps - 1) as nat);
        lemma_run_from_role(binding, answers, (index + 1) as usize, draft, (steps - 2) as nat);
    } else {
        assert(offered.skip(index + 1).len() == 0);
        lemma_run_from_post(answers, draft);
        lemma_run_with_more_steps(answers, after.0, after.1, 2, (steps - 3) as nat);
        lemma_run_with_more_steps(answers, after.0, after.1, 2, (steps - 4) as nat);
    }
}

/// Every setup ends within nine answered steps, and it goes as its verdict
/// says. A setup that is given up has asked for no message to be posted;
/// one that is given up for an emoji has asked for no role to be created
/// either, and leaves the guild as it was.
pub proof fn setup_ends_in_verdict(binding: Binding, answers: SetupAnswers)
    ensures
        ({
            let run = setup_run_from(
                answers,
                SetupStageModel::AwaitingEmojis { binding },
                SetupStepModel::FetchEmojis,
                9,
            );
            &&& run == Some(setup_verdict(binding, answers))
            &&& run.unwrap().asked_to_post <==> run.unwrap().end is Completed
            &&& run.unwrap().end is EmojisUnavailable || run.unwrap().end is EmojiMissing
                ==> !run.unwrap().asked_to_create && !run.unwrap().asked_to_post
            &&& run.unwrap().end is RolesUnavailable ==> !run.unwrap().asked_to_create
        }),
{
    reveal_with_fuel(setup_run_from, 2);
    if answers.emojis is Some {
        let emojis = answers.emojis.unwrap()@;
        lemma_places_or_missing(emojis, roles_offered(binding));
        match emoji_places(emojis, roles_offered(binding)) {
            Some(places) => {
                let draft = DraftModel {
                    content: role_message_text(binding, mentions_at(emojis, places)),
                    reactions: places,
                };
                lemma_run_from_role(binding, answers, 0, draft, 8);
            },
            None => {},
        }
    }
}

/// The message that a setup posts is the role message that reactions are
/// read against: its content is classified as the binding that was set up,
/// and on it the emoji of each offered role stands for that role.
pub proof fn posted_message_binds_its_emoji(binding: Binding, mentions: Seq<Seq<char>>)
    ensures
        binding_for(role_message_text(binding, mentions)) == Some(binding),
        forall|i: int|
            0 <= i < roles_offered(binding).len() ==> role_bound(
                binding,
                (#[trigger] roles_offered(binding)[i]).spec_emoji_name(),
            ) == Some(roles_offered(binding)[i]),
{
    reveal_strlit("justaboy");
    reveal_strlit("justagirl");
    reveal_strlit("pridejj");
    reveal_strlit("danseparty");
    assert("justaboy"@.len() == 8);
    assert("justagirl"@.len() == 9);
    assert("pridejj"@.len() == 7);
    let content = role_message_text(binding, mentions);
    match binding {
        Binding::Pronouns => {
            assert(content.subrange(0, pronoun_marker().len() as int) =~= pronoun_marker());
        },
        Binding::Events => {
            reveal_strlit("Assign yourself Pronouns");
            reveal_strlit("React with ");
            assert(pronoun_marker()[0] == 'A');
            assert(content[0] == 'R');
            let before = "React with "@ + mentions[0] + " to get the '"@
                + GrantableRole::FcEvents.spec_title() + "' "@;
            let at = before.len() as int;
            assert(content.subrange(at, at + event_marker().len()) =~= event_marker());
            assert(content.len() == at + event_marker().len() + "!"@.len());
        },
    }
}

} // verus!
