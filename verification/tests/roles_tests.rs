use nuggies::roles::{
    advance_sync, begin_sync, binding_of, find_role, role_for, Binding, GrantableRole, GuildRole,
    ReactedMessage, ReactionEvent, SyncEnd, SyncReply, SyncStage, SyncStep,
};
use nuggies::setup::{
    advance_setup, begin_setup, compose_role_message, find_emoji, locate_emojis, offered_roles,
    Draft, GuildEmoji, SetupEnd, SetupReply, SetupStage, SetupStep,
};

const PRONOUN_MESSAGE: &str =
    "Assign yourself Pronouns\n<:justaboy:1> He/Him\n<:justagirl:2> She/Her\n<:pridejj:3> They/Them";
const EVENT_MESSAGE: &str =
    "React with <:danseparty:4> to get the 'FC Events' role for event notifications!";

fn role(id: u64, name: &str) -> GuildRole {
    GuildRole { id, name: name.to_string() }
}

fn emoji(name: &str, id: u64) -> GuildEmoji {
    GuildEmoji { name: name.to_string(), mention: format!("<:{}:{}>", name, id) }
}

fn guild_roles() -> Vec<GuildRole> {
    vec![
        role(10, "@everyone"),
        role(11, "he/him"),
        role(12, "she/her"),
        role(13, "they/them"),
        role(14, "FC Events"),
    ]
}

fn guild_emojis() -> Vec<GuildEmoji> {
    vec![
        emoji("other", 9),
        emoji("pridejj", 3),
        emoji("justaboy", 1),
        emoji("danseparty", 4),
        emoji("justagirl", 2),
    ]
}

const BOT: u64 = 900;

fn reaction(emoji_name: Option<&str>, added: bool) -> ReactionEvent {
    ReactionEvent {
        emoji_name: emoji_name.map(|name| name.to_string()),
        guild_id: Some(100),
        user_id: Some(200),
        added,
        bot_id: BOT,
    }
}

fn message_of(author_id: u64, content: &str) -> SyncReply {
    SyncReply::Message(Some(ReactedMessage { author_id, content: content.to_string() }))
}

fn bot_message(content: &str) -> SyncReply {
    message_of(BOT, content)
}

/// Runs the machine against canned answers and returns the steps it asked for.
fn run_sync(event: &ReactionEvent, replies: Vec<SyncReply>) -> Vec<SyncStep> {
    let (mut stage, mut step) = begin_sync();
    let mut steps = vec![step];
    let mut replies = replies.into_iter();
    while !matches!(step, SyncStep::Stop(_)) {
        let reply = replies.next().unwrap();
        let next = advance_sync(event, stage, &reply);
        stage = next.0;
        step = next.1;
        steps.push(step);
    }
    assert_eq!(stage, SyncStage::Done);
    assert!(replies.next().is_none());
    steps
}

fn run_setup(binding: Binding, replies: Vec<SetupReply>) -> Vec<SetupStep> {
    let (mut stage, mut step) = begin_setup(binding, true);
    let mut steps = vec![step.clone()];
    let mut replies = replies.into_iter();
    while !matches!(step, SetupStep::Stop(_)) {
        let reply = replies.next().unwrap();
        let next = advance_setup(stage, &reply);
        stage = next.0;
        step = next.1;
        steps.push(step.clone());
    }
    assert_eq!(stage, SetupStage::Done);
    assert!(replies.next().is_none());
    steps
}

#[test]
fn role_titles_and_emoji() {
    assert_eq!(GrantableRole::HeHim.title(), "he/him");
    assert_eq!(GrantableRole::SheHer.title(), "she/her");
    assert_eq!(GrantableRole::TheyThem.title(), "they/them");
    assert_eq!(GrantableRole::FcEvents.title(), "FC Events");
    assert_eq!(GrantableRole::HeHim.emoji_name(), "justaboy");
    assert_eq!(GrantableRole::SheHer.emoji_name(), "justagirl");
    assert_eq!(GrantableRole::TheyThem.emoji_name(), "pridejj");
    assert_eq!(GrantableRole::FcEvents.emoji_name(), "danseparty");
}

#[test]
fn messages_are_classified_by_their_marker() {
    assert_eq!(binding_of(PRONOUN_MESSAGE), Some(Binding::Pronouns));
    assert_eq!(binding_of("Assign yourself Pronouns"), Some(Binding::Pronouns));
    assert_eq!(binding_of(EVENT_MESSAGE), Some(Binding::Events));
    assert_eq!(binding_of("the role for event notifications"), Some(Binding::Events));
    assert_eq!(binding_of("Please Assign yourself Pronouns"), None);
    assert_eq!(binding_of("assign yourself pronouns"), None);
    assert_eq!(binding_of("hello"), None);
    assert_eq!(binding_of(""), None);
}

#[test]
fn pronoun_marker_wins_over_the_event_marker() {
    assert_eq!(
        binding_of("Assign yourself Pronouns and a role for event notifications"),
        Some(Binding::Pronouns)
    );
}

#[test]
fn emoji_resolve_through_their_binding() {
    assert_eq!(role_for(Binding::Pronouns, "justaboy"), Some(GrantableRole::HeHim));
    assert_eq!(role_for(Binding::Pronouns, "justagirl"), Some(GrantableRole::SheHer));
    assert_eq!(role_for(Binding::Pronouns, "pridejj"), Some(GrantableRole::TheyThem));
    assert_eq!(role_for(Binding::Pronouns, "danseparty"), None);
    assert_eq!(role_for(Binding::Pronouns, ""), None);
    assert_eq!(role_for(Binding::Events, "danseparty"), Some(GrantableRole::FcEvents));
    assert_eq!(role_for(Binding::Events, "justaboy"), None);
    assert_eq!(role_for(Binding::Events, "Danseparty"), None);
}

#[test]
fn roles_are_found_by_name() {
    let roles = guild_roles();
    assert_eq!(find_role(&roles, "he/him"), Some(11));
    assert_eq!(find_role(&roles, "FC Events"), Some(14));
    assert_eq!(find_role(&roles, "fc events"), None);
    assert_eq!(find_role(&Vec::new(), "he/him"), None);
}

#[test]
fn first_role_of_a_name_is_taken() {
    let roles = vec![role(1, "x"), role(2, "he/him"), role(3, "he/him")];
    assert_eq!(find_role(&roles, "he/him"), Some(2));
}

#[test]
fn reaction_grants_the_pronoun_role() {
    let event = reaction(Some("justagirl"), true);
    let steps = run_sync(
        &event,
        vec![
            SyncReply::Reactor(Some(false)),
            bot_message(PRONOUN_MESSAGE),
            SyncReply::Member(true),
            SyncReply::Roles(Some(guild_roles())),
            SyncReply::Change(true),
        ],
    );
    assert_eq!(
        steps,
        vec![
            SyncStep::FetchReactor,
            SyncStep::FetchMessage,
            SyncStep::FetchMember { guild_id: 100, user_id: 200 },
            SyncStep::FetchRoles { guild_id: 100 },
            SyncStep::Grant { guild_id: 100, user_id: 200, role_id: 12 },
            SyncStep::Stop(SyncEnd::Changed {
                role: GrantableRole::SheHer,
                role_id: 12,
                added: true
            }),
        ]
    );
}

#[test]
fn removed_reaction_revokes_the_event_role() {
    let event = reaction(Some("danseparty"), false);
    let steps = run_sync(
        &event,
        vec![
            SyncReply::Reactor(Some(false)),
            bot_message(EVENT_MESSAGE),
            SyncReply::Member(true),
            SyncReply::Roles(Some(guild_roles())),
            SyncReply::Change(true),
        ],
    );
    assert_eq!(steps[4], SyncStep::Revoke { guild_id: 100, user_id: 200, role_id: 14 });
    assert_eq!(
        steps[5],
        SyncStep::Stop(SyncEnd::Changed {
            role: GrantableRole::FcEvents,
            role_id: 14,
            added: false
        })
    );
}

#[test]
fn reactions_of_bots_are_ignored() {
    let event = reaction(Some("justaboy"), true);
    assert_eq!(
        run_sync(&event, vec![SyncReply::Reactor(Some(true))]),
        vec![SyncStep::FetchReactor, SyncStep::Stop(SyncEnd::ReactorIsBot)]
    );
    assert_eq!(
        run_sync(&event, vec![SyncReply::Reactor(None)]),
        vec![SyncStep::FetchReactor, SyncStep::Stop(SyncEnd::ReactorIsBot)]
    );
}

#[test]
fn reactions_on_foreign_messages_change_nothing() {
    let event = reaction(Some("justaboy"), true);
    // A user's message, and the message of another bot.
    for author in [200, 901] {
        let foreign = message_of(author, PRONOUN_MESSAGE);
        assert_eq!(
            run_sync(&event, vec![SyncReply::Reactor(Some(false)), foreign]),
            vec![
                SyncStep::FetchReactor,
                SyncStep::FetchMessage,
                SyncStep::Stop(SyncEnd::NotOurMessage)
            ]
        );
    }
}

#[test]
fn unmapped_emoji_change_nothing() {
    for name in [Some("danseparty"), Some("thumbsup"), Some(""), None] {
        let event = reaction(name, true);
        assert_eq!(
            run_sync(&event, vec![SyncReply::Reactor(Some(false)), bot_message(PRONOUN_MESSAGE)]),
            vec![
                SyncStep::FetchReactor,
                SyncStep::FetchMessage,
                SyncStep::Stop(SyncEnd::UnmappedEmoji)
            ]
        );
    }
    let event = reaction(Some("justaboy"), false);
    assert_eq!(
        run_sync(&event, vec![SyncReply::Reactor(Some(false)), bot_message(EVENT_MESSAGE)]),
        vec![
            SyncStep::FetchReactor,
            SyncStep::FetchMessage,
            SyncStep::Stop(SyncEnd::UnmappedEmoji)
        ]
    );
}

#[test]
fn other_messages_of_the_bot_change_nothing() {
    let event = reaction(Some("justaboy"), true);
    assert_eq!(
        run_sync(&event, vec![SyncReply::Reactor(Some(false)), bot_message("Unknown command.")]),
        vec![SyncStep::FetchReactor, SyncStep::FetchMessage, SyncStep::Stop(SyncEnd::NoBinding)]
    );
}

#[test]
fn reactions_outside_a_guild_change_nothing() {
    let mut event = reaction(Some("justaboy"), true);
    event.guild_id = None;
    let steps =
        run_sync(&event, vec![SyncReply::Reactor(Some(false)), bot_message(PRONOUN_MESSAGE)]);
    assert_eq!(steps[2], SyncStep::Stop(SyncEnd::OutsideGuild));
    let mut event = reaction(Some("justaboy"), true);
    event.user_id = None;
    let steps =
        run_sync(&event, vec![SyncReply::Reactor(Some(false)), bot_message(PRONOUN_MESSAGE)]);
    assert_eq!(steps[2], SyncStep::Stop(SyncEnd::OutsideGuild));
}

#[test]
fn failed_lookups_end_the_run() {
    let event = reaction(Some("justaboy"), true);
    let steps = run_sync(&event, vec![SyncReply::Reactor(Some(false)), SyncReply::Message(None)]);
    assert_eq!(steps[2], SyncStep::Stop(SyncEnd::MessageUnavailable));
    let steps = run_sync(
        &event,
        vec![
            SyncReply::Reactor(Some(false)),
            bot_message(PRONOUN_MESSAGE),
            SyncReply::Member(false),
        ],
    );
    assert_eq!(steps[3], SyncStep::Stop(SyncEnd::MemberUnavailable));
    let steps = run_sync(
        &event,
        vec![
            SyncReply::Reactor(Some(false)),
            bot_message(PRONOUN_MESSAGE),
            SyncReply::Member(true),
            SyncReply::Roles(None),
        ],
    );
    assert_eq!(steps[4], SyncStep::Stop(SyncEnd::RolesUnavailable));
}

#[test]
fn missing_role_is_not_created() {
    let event = reaction(Some("justaboy"), true);
    let steps = run_sync(
        &event,
        vec![
            SyncReply::Reactor(Some(false)),
            bot_message(PRONOUN_MESSAGE),
            SyncReply::Member(true),
            SyncReply::Roles(Some(vec![role(12, "she/her")])),
        ],
    );
    assert_eq!(steps[4], SyncStep::Stop(SyncEnd::RoleMissing { role: GrantableRole::HeHim }));
}

#[test]
fn rejected_change_is_not_an_error() {
    let event = reaction(Some("pridejj"), true);
    let steps = run_sync(
        &event,
        vec![
            SyncReply::Reactor(Some(false)),
            bot_message(PRONOUN_MESSAGE),
            SyncReply::Member(true),
            SyncReply::Roles(Some(guild_roles())),
            SyncReply::Change(false),
        ],
    );
    assert_eq!(
        steps[5],
        SyncStep::Stop(SyncEnd::ChangeRejected {
            role: GrantableRole::TheyThem,
            role_id: 13,
            added: true
        })
    );
}

#[test]
fn replies_out_of_turn_end_the_run() {
    let event = reaction(Some("justaboy"), true);
    assert_eq!(
        advance_sync(&event, SyncStage::AwaitingReactor, &SyncReply::Change(true)),
        (SyncStage::Done, SyncStep::Stop(SyncEnd::OutOfTurn))
    );
    assert_eq!(
        advance_sync(&event, SyncStage::Done, &SyncReply::Reactor(Some(false))),
        (SyncStage::Done, SyncStep::Stop(SyncEnd::OutOfTurn))
    );
    assert_eq!(
        advance_sync(
            &event,
            SyncStage::AwaitingChange { role: GrantableRole::HeHim, role_id: 11 },
            &SyncReply::Member(true)
        ),
        (SyncStage::Done, SyncStep::Stop(SyncEnd::OutOfTurn))
    );
}

#[test]
fn offered_roles_by_binding() {
    assert_eq!(
        offered_roles(Binding::Pronouns),
        vec![GrantableRole::HeHim, GrantableRole::SheHer, GrantableRole::TheyThem]
    );
    assert_eq!(offered_roles(Binding::Events), vec![GrantableRole::FcEvents]);
}

#[test]
fn emoji_are_found_by_name() {
    let emojis = guild_emojis();
    assert_eq!(find_emoji(&emojis, "justaboy"), Some(2));
    assert_eq!(find_emoji(&emojis, "other"), Some(0));
    assert_eq!(find_emoji(&emojis, "missing"), None);
    let twice = vec![emoji("a", 1), emoji("b", 2), emoji("b", 3)];
    assert_eq!(find_emoji(&twice, "b"), Some(1));
}

#[test]
fn emoji_of_all_roles_are_located_in_order() {
    let emojis = guild_emojis();
    assert_eq!(locate_emojis(&emojis, &offered_roles(Binding::Pronouns)), Ok(vec![2, 4, 1]));
    assert_eq!(locate_emojis(&emojis, &offered_roles(Binding::Events)), Ok(vec![3]));
    let few = vec![emoji("justaboy", 1), emoji("pridejj", 3)];
    assert_eq!(
        locate_emojis(&few, &offered_roles(Binding::Pronouns)),
        Err(GrantableRole::SheHer)
    );
    assert_eq!(
        locate_emojis(&Vec::new(), &offered_roles(Binding::Pronouns)),
        Err(GrantableRole::HeHim)
    );
}

#[test]
fn role_messages_are_composed_from_the_emoji() {
    let emojis = guild_emojis();
    assert_eq!(compose_role_message(Binding::Pronouns, &emojis, &vec![2, 4, 1]), PRONOUN_MESSAGE);
    assert_eq!(compose_role_message(Binding::Events, &emojis, &vec![3]), EVENT_MESSAGE);
}

#[test]
fn composed_messages_are_read_back_as_their_binding() {
    let emojis = guild_emojis();
    for binding in [Binding::Pronouns, Binding::Events] {
        let roles = offered_roles(binding);
        let places = locate_emojis(&emojis, &roles).unwrap();
        let content = compose_role_message(binding, &emojis, &places);
        assert_eq!(binding_of(&content), Some(binding));
        for role in roles {
            assert_eq!(role_for(binding, role.emoji_name()), Some(role));
        }
    }
}

#[test]
fn pronoun_setup_with_all_roles_present() {
    let steps = run_setup(
        Binding::Pronouns,
        vec![
            SetupReply::Emojis(Some(guild_emojis())),
            SetupReply::Roles(Some(guild_roles())),
            SetupReply::Roles(Some(guild_roles())),
            SetupReply::Roles(Some(guild_roles())),
            SetupReply::Posted(true),
            SetupReply::Deleted,
        ],
    );
    assert_eq!(
        steps,
        vec![
            SetupStep::FetchEmojis,
            SetupStep::FetchRoles,
            SetupStep::FetchRoles,
            SetupStep::FetchRoles,
            SetupStep::Post { content: PRONOUN_MESSAGE.to_string(), reactions: vec![2, 4, 1] },
            SetupStep::DeleteTrigger { posted: true },
            SetupStep::Stop(SetupEnd::Completed { posted: true }),
        ]
    );
}

#[test]
fn setup_creates_the_roles_that_are_missing() {
    let steps = run_setup(
        Binding::Pronouns,
        vec![
            SetupReply::Emojis(Some(guild_emojis())),
            SetupReply::Roles(Some(vec![role(12, "she/her")])),
            SetupReply::Created(true),
            SetupReply::Roles(Some(vec![role(12, "she/her"), role(20, "he/him")])),
            SetupReply::Roles(Some(vec![role(12, "she/her"), role(20, "he/him")])),
            SetupReply::Created(true),
            SetupReply::Posted(true),
            SetupReply::Deleted,
        ],
    );
    assert_eq!(steps[0], SetupStep::FetchEmojis);
    assert_eq!(steps[1], SetupStep::FetchRoles);
    assert_eq!(steps[2], SetupStep::CreateRole { role: GrantableRole::HeHim });
    assert_eq!(steps[3], SetupStep::FetchRoles);
    assert_eq!(steps[4], SetupStep::FetchRoles);
    assert_eq!(steps[5], SetupStep::CreateRole { role: GrantableRole::TheyThem });
    assert_eq!(
        steps[6],
        SetupStep::Post { content: PRONOUN_MESSAGE.to_string(), reactions: vec![2, 4, 1] }
    );
    assert_eq!(steps[8], SetupStep::Stop(SetupEnd::Completed { posted: true }));
}

#[test]
fn event_setup_posts_its_message() {
    let steps = run_setup(
        Binding::Events,
        vec![
            SetupReply::Emojis(Some(guild_emojis())),
            SetupReply::Roles(Some(Vec::new())),
            SetupReply::Created(true),
            SetupReply::Posted(true),
            SetupReply::Deleted,
        ],
    );
    assert_eq!(
        steps,
        vec![
            SetupStep::FetchEmojis,
            SetupStep::FetchRoles,
            SetupStep::CreateRole { role: GrantableRole::FcEvents },
            SetupStep::Post { content: EVENT_MESSAGE.to_string(), reactions: vec![3] },
            SetupStep::DeleteTrigger { posted: true },
            SetupStep::Stop(SetupEnd::Completed { posted: true }),
        ]
    );
}

#[test]
fn setup_given_up_for_an_emoji_creates_nothing() {
    // The guild lists neither the role nor the emoji: nothing is created.
    let steps = run_setup(
        Binding::Events,
        vec![SetupReply::Emojis(Some(vec![emoji("justaboy", 1)]))],
    );
    assert_eq!(
        steps,
        vec![
            SetupStep::FetchEmojis,
            SetupStep::Stop(SetupEnd::EmojiMissing { role: GrantableRole::FcEvents }),
        ]
    );

    let steps = run_setup(Binding::Pronouns, vec![SetupReply::Emojis(None)]);
    assert_eq!(steps, vec![SetupStep::FetchEmojis, SetupStep::Stop(SetupEnd::EmojisUnavailable)]);

    let few = vec![emoji("justaboy", 1), emoji("justagirl", 2)];
    let steps = run_setup(Binding::Pronouns, vec![SetupReply::Emojis(Some(few))]);
    assert_eq!(
        steps,
        vec![
            SetupStep::FetchEmojis,
            SetupStep::Stop(SetupEnd::EmojiMissing { role: GrantableRole::TheyThem }),
        ]
    );
}

#[test]
fn setup_is_given_up_before_anything_is_posted() {
    let steps = run_setup(
        Binding::Pronouns,
        vec![SetupReply::Emojis(Some(guild_emojis())), SetupReply::Roles(None)],
    );
    assert_eq!(
        steps,
        vec![
            SetupStep::FetchEmojis,
            SetupStep::FetchRoles,
            SetupStep::Stop(SetupEnd::RolesUnavailable)
        ]
    );

    let steps = run_setup(
        Binding::Events,
        vec![
            SetupReply::Emojis(Some(guild_emojis())),
            SetupReply::Roles(Some(Vec::new())),
            SetupReply::Created(false),
        ],
    );
    assert_eq!(
        steps[3],
        SetupStep::Stop(SetupEnd::RoleNotCreated { role: GrantableRole::FcEvents })
    );
    for step in steps {
        assert!(!matches!(step, SetupStep::Post { .. } | SetupStep::DeleteTrigger { .. }));
    }
}

#[test]
fn later_role_that_cannot_be_created_ends_the_setup() {
    let steps = run_setup(
        Binding::Pronouns,
        vec![
            SetupReply::Emojis(Some(guild_emojis())),
            SetupReply::Roles(Some(Vec::new())),
            SetupReply::Created(true),
            SetupReply::Roles(Some(vec![role(20, "he/him")])),
            SetupReply::Created(false),
        ],
    );
    assert_eq!(steps[2], SetupStep::CreateRole { role: GrantableRole::HeHim });
    assert_eq!(steps[4], SetupStep::CreateRole { role: GrantableRole::SheHer });
    assert_eq!(
        steps[5],
        SetupStep::Stop(SetupEnd::RoleNotCreated { role: GrantableRole::SheHer })
    );
}

#[test]
fn trigger_is_deleted_even_if_posting_failed() {
    let steps = run_setup(
        Binding::Events,
        vec![
            SetupReply::Emojis(Some(guild_emojis())),
            SetupReply::Roles(Some(guild_roles())),
            SetupReply::Posted(false),
            SetupReply::Deleted,
        ],
    );
    assert_eq!(steps[3], SetupStep::DeleteTrigger { posted: false });
    assert_eq!(steps[4], SetupStep::Stop(SetupEnd::Completed { posted: false }));
}

#[test]
fn setup_outside_a_guild_does_nothing() {
    assert_eq!(
        begin_setup(Binding::Pronouns, false),
        (SetupStage::Done, SetupStep::Stop(SetupEnd::OutsideGuild))
    );
    assert_eq!(
        begin_setup(Binding::Events, true),
        (SetupStage::AwaitingEmojis { binding: Binding::Events }, SetupStep::FetchEmojis)
    );
}

#[test]
fn setup_replies_out_of_turn_end_the_flow() {
    assert_eq!(
        advance_setup(SetupStage::AwaitingPost, &SetupReply::Deleted),
        (SetupStage::Done, SetupStep::Stop(SetupEnd::OutOfTurn))
    );
    assert_eq!(
        advance_setup(SetupStage::Done, &SetupReply::Posted(true)),
        (SetupStage::Done, SetupStep::Stop(SetupEnd::OutOfTurn))
    );
    let draft = Draft { content: EVENT_MESSAGE.to_string(), reactions: vec![3] };
    assert_eq!(
        advance_setup(
            SetupStage::AwaitingRoles { binding: Binding::Events, index: 1, draft },
            &SetupReply::Roles(Some(guild_roles()))
        ),
        (SetupStage::Done, SetupStep::Stop(SetupEnd::OutOfTurn))
    );
    assert_eq!(
        advance_setup(
            SetupStage::AwaitingEmojis { binding: Binding::Events },
            &SetupReply::Roles(Some(guild_roles()))
        ),
        (SetupStage::Done, SetupStep::Stop(SetupEnd::OutOfTurn))
    );
}
