use vstd::prelude::*;
use crate::constants::{
    ADMIN_ROLE, MODERATOR_ROLE, SPECTATOR_ROLE, PLAYER_ROLE, ADMIN_ROLE_COLOR, MODO_ROLE_COLOR,
    SPECTATOR_ROLE_COLOR, PLAYER_ROLE_COLOR, ADMINISTRATOR, KICK_MEMBERS, VIEW_CHANNEL,
    USE_SLASH_COMMANDS, SEND_MESSAGES, BAN_MEMBERS, MANAGE_MESSAGES, MANAGE_ROLES,
    SEND_MESSAGES_IN_THREADS, CONNECT, SPEAK, READ_MESSAGE_HISTORY, CREATE_PUBLIC_THREADS,
    ALL_PERMISSIONS, ADMIN_MODERATION_CHANNEL_NAME, ADMIN_COMMANDS_CHANNEL_NAME,
    NRP_GENERAL_CHANNEL_NAME, NRP_GENERAL_VOICE_CHANNEL_NAME, NRP_GENERAL_RULES_CHANNEL_NAME,
    NRP_RP_EXCHANGES_CHANNEL_NAME, RP_STORY_CHANNEL_NAME, RP_RULES_CHANNEL_NAME,
    RP_PLAYER_CHARACTERS_CHANNEL_NAME, RP_INDEX_CHANNEL_NAME, RP_QA_CHANNEL_NAME,
};
use crate::layout::ChannelKind;

verus! {

/// A role to create: its name, permission bits and color.
#[derive(Clone, Copy, Debug)]
pub struct RolePlan {
    pub name: &'static str,
    pub permissions: u64,
    pub color: u64,
}

/// Whom a permission overwrite is for.
#[derive(Clone, Copy, Debug, PartialEq, Eq, Structural)]
pub enum OverwriteTarget {
    /// The server's `@everyone` role.
    Everyone,
    /// The players' role.
    Players,
    /// A role of its own (a place's or a road's role).
    OwnRole,
}

/// A permission overwrite: the bits allowed and the bits denied to a target.
#[derive(Clone, Copy, Debug, PartialEq, Eq, Structural)]
pub struct OverwritePlan {
    pub target: OverwriteTarget,
    pub allow: u64,
    pub deny: u64,
}

/// A channel to create in a category: its name, kind and overwrites.
pub struct ChannelPlan {
    pub name: &'static str,
    pub kind: ChannelKind,
    pub overwrites: Vec<OverwritePlan>,
}

/// The administrators' role: every permission.
pub fn admin_role_setup() -> (plan: RolePlan)
    ensures
        plan == (RolePlan { name: ADMIN_ROLE, permissions: ADMINISTRATOR, color: ADMIN_ROLE_COLOR }),
{
    RolePlan { name: ADMIN_ROLE, permissions: ADMINISTRATOR, color: ADMIN_ROLE_COLOR }
}

/// The bits of the moderators' role: kick, view, commands, send, ban, manage
/// messages and manage roles.
pub open spec fn moderator_permissions() -> u64 {
    KICK_MEMBERS | VIEW_CHANNEL | USE_SLASH_COMMANDS | SEND_MESSAGES | BAN_MEMBERS | MANAGE_MESSAGES
        | MANAGE_ROLES
}

/// The moderators' role.
pub fn moderator_role_setup() -> (plan: RolePlan)
    ensures
        plan == (RolePlan { name: MODERATOR_ROLE, permissions: moderator_permissions(), color: MODO_ROLE_COLOR }),
{
    RolePlan {
        name: MODERATOR_ROLE,
        permissions: KICK_MEMBERS | VIEW_CHANNEL | USE_SLASH_COMMANDS | SEND_MESSAGES | BAN_MEMBERS
            | MANAGE_MESSAGES | MANAGE_ROLES,
        color: MODO_ROLE_COLOR,
    }
}

/// The spectators' role: no permission of its own.
pub fn spectator_role_setup() -> (plan: RolePlan)
    ensures
        plan == (RolePlan { name: SPECTATOR_ROLE, permissions: 0, color: SPECTATOR_ROLE_COLOR }),
{
    RolePlan { name: SPECTATOR_ROLE, permissions: 0, color: SPECTATOR_ROLE_COLOR }
}

/// The bits of the players' role: send messages (in threads too), commands,
/// connect and speak.
pub open spec fn player_permissions() -> u64 {
    SEND_MESSAGES | SEND_MESSAGES_IN_THREADS | USE_SLASH_COMMANDS | CONNECT | SPEAK
}

/// The players' role.
pub fn player_role_setup() -> (plan: RolePlan)
    ensures
        plan == (RolePlan { name: PLAYER_ROLE, permissions: player_permissions(), color: PLAYER_ROLE_COLOR }),
{
    RolePlan {
        name: PLAYER_ROLE,
        permissions: SEND_MESSAGES | SEND_MESSAGES_IN_THREADS | USE_SLASH_COMMANDS | CONNECT | SPEAK,
        color: PLAYER_ROLE_COLOR,
    }
}

/// The same overwrite for everyone and for the players.
pub open spec fn both(allow: u64, deny: u64) -> Seq<OverwritePlan> {
    seq![
        OverwritePlan { target: OverwriteTarget::Everyone, allow, deny },
        OverwritePlan { target: OverwriteTarget::Players, allow, deny },
    ]
}

fn both_exec(allow: u64, deny: u64) -> (v: Vec<OverwritePlan>)
    ensures
        v@ == both(allow, deny),
{
    let mut v = Vec::new();
    v.push(OverwritePlan { target: OverwriteTarget::Everyone, allow, deny });
    v.push(OverwritePlan { target: OverwriteTarget::Players, allow, deny });
    assert(v@ =~= both(allow, deny));
    v
}

/// The roads' category: hidden from everyone and from the players (each road
/// opens to its own role).
pub fn setup_road() -> (overwrites: Vec<OverwritePlan>)
    ensures
        overwrites@ == both(0, VIEW_CHANNEL),
{
    both_exec(0, VIEW_CHANNEL)
}

/// The administrators' category: hidden from everyone and from the players.
pub fn admin_setup() -> (overwrites: Vec<OverwritePlan>)
    ensures
        overwrites@ == both(0, VIEW_CHANNEL),
{
    both_exec(0, VIEW_CHANNEL)
}

/// The no-RP category: visible to everyone and to the players.
pub fn nrp_setup() -> (overwrites: Vec<OverwritePlan>)
    ensures
        overwrites@ == both(VIEW_CHANNEL, 0),
{
    both_exec(VIEW_CHANNEL, 0)
}

/// The RP category: visible to everyone and to the players.
pub fn rp_category_overwrites() -> (overwrites: Vec<OverwritePlan>)
    ensures
        overwrites@ == both(VIEW_CHANNEL, 0),
{
    both_exec(VIEW_CHANNEL, 0)
}

fn plain_channel(name: &'static str, kind: ChannelKind) -> (c: ChannelPlan)
    ensures
        c.name == name,
        c.kind == kind,
        c.overwrites@.len() == 0,
{
    ChannelPlan { name, kind, overwrites: Vec::new() }
}

/// The administrators' channels: moderation, then commands, with no
/// overwrites.
pub fn setup_admin_channels() -> (plans: Vec<ChannelPlan>)
    ensures
        plans@.len() == 2,
        plans@[0].name == ADMIN_MODERATION_CHANNEL_NAME && plans@[0].kind == ChannelKind::Text,
        plans@[1].name == ADMIN_COMMANDS_CHANNEL_NAME && plans@[1].kind == ChannelKind::Text,
        forall|i: int| 0 <= i < plans@.len() ==> #[trigger] plans@[i].overwrites@.len() == 0,
{
    let mut plans = Vec::new();
    plans.push(plain_channel(ADMIN_MODERATION_CHANNEL_NAME, ChannelKind::Text));
    plans.push(plain_channel(ADMIN_COMMANDS_CHANNEL_NAME, ChannelKind::Text));
    plans
}

/// The no-RP channels: the general text and voice channels, the rules and
/// the RP exchanges, with no overwrites.
pub fn setup_nrp_channels() -> (plans: Vec<ChannelPlan>)
    ensures
        plans@.len() == 4,
        plans@[0].name == NRP_GENERAL_CHANNEL_NAME && plans@[0].kind == ChannelKind::Text,
        plans@[1].name == NRP_GENERAL_VOICE_CHANNEL_NAME && plans@[1].kind == ChannelKind::Voice,
        plans@[2].name == NRP_GENERAL_RULES_CHANNEL_NAME && plans@[2].kind == ChannelKind::Text,
        plans@[3].name == NRP_RP_EXCHANGES_CHANNEL_NAME && plans@[3].kind == ChannelKind::Text,
        forall|i: int| 0 <= i < plans@.len() ==> #[trigger] plans@[i].overwrites@.len() == 0,
{
    let mut plans = Vec::new();
    plans.push(plain_channel(NRP_GENERAL_CHANNEL_NAME, ChannelKind::Text));
    plans.push(plain_channel(NRP_GENERAL_VOICE_CHANNEL_NAME, ChannelKind::Voice));
    plans.push(plain_channel(NRP_GENERAL_RULES_CHANNEL_NAME, ChannelKind::Text));
    plans.push(plain_channel(NRP_RP_EXCHANGES_CHANNEL_NAME, ChannelKind::Text));
    plans
}

/// Read-only for everyone and for the players.
pub open spec fn read_only() -> Seq<OverwritePlan> {
    both(READ_MESSAGE_HISTORY | VIEW_CHANNEL, SEND_MESSAGES)
}

/// Everyone may write; the players may only read.
pub open spec fn characters_overwrites() -> Seq<OverwritePlan> {
    seq![
        OverwritePlan {
            target: OverwriteTarget::Everyone,
            allow: READ_MESSAGE_HISTORY | VIEW_CHANNEL | SEND_MESSAGES,
            deny: 0,
        },
        OverwritePlan {
            target: OverwriteTarget::Players,
            allow: READ_MESSAGE_HISTORY | VIEW_CHANNEL,
            deny: SEND_MESSAGES,
        },
    ]
}

/// A forum that everyone and the players may read but not open threads in.
pub open spec fn index_overwrites() -> Seq<OverwritePlan> {
    both(VIEW_CHANNEL | READ_MESSAGE_HISTORY, CREATE_PUBLIC_THREADS | SEND_MESSAGES_IN_THREADS)
}

/// A forum that everyone and the players may read and post to, without
/// opening threads.
pub open spec fn qa_overwrites() -> Seq<OverwritePlan> {
    both(
        VIEW_CHANNEL | READ_MESSAGE_HISTORY | SEND_MESSAGES,
        CREATE_PUBLIC_THREADS | SEND_MESSAGES_IN_THREADS,
    )
}

/// The RP channels: the story and the rules (read-only), the characters'
/// channel, and, on a community server only, the index and Q&A forums.
pub fn setup_rp(community: bool) -> (plans: Vec<ChannelPlan>)
    ensures
        plans@.len() == if community { 5int } else { 3int },
        plans@[0].name == RP_STORY_CHANNEL_NAME && plans@[0].kind == ChannelKind::Text
            && plans@[0].overwrites@ == read_only(),
        plans@[1].name == RP_RULES_CHANNEL_NAME && plans@[1].kind == ChannelKind::Text
            && plans@[1].overwrites@ == read_only(),
        plans@[2].name == RP_PLAYER_CHARACTERS_CHANNEL_NAME && plans@[2].kind == ChannelKind::Text
            && plans@[2].overwrites@ == characters_overwrites(),
        community ==> plans@[3].name == RP_INDEX_CHANNEL_NAME && plans@[3].kind == ChannelKind::Forum
            && plans@[3].overwrites@ == index_overwrites(),
        community ==> plans@[4].name == RP_QA_CHANNEL_NAME && plans@[4].kind == ChannelKind::Forum
            && plans@[4].overwrites@ == qa_overwrites(),
{
    let mut plans: Vec<ChannelPlan> = Vec::new();
    plans.push(ChannelPlan {
        name: RP_STORY_CHANNEL_NAME,
        kind: ChannelKind::Text,
        overwrites: both_exec(READ_MESSAGE_HISTORY | VIEW_CHANNEL, SEND_MESSAGES),
    });
    plans.push(ChannelPlan {
        name: RP_RULES_CHANNEL_NAME,
        kind: ChannelKind::Text,
        overwrites: both_exec(READ_MESSAGE_HISTORY | VIEW_CHANNEL, SEND_MESSAGES),
    });
    let mut characters = Vec::new();
    characters.push(
        OverwritePlan {
            target: OverwriteTarget::Everyone,
            allow: READ_MESSAGE_HISTORY | VIEW_CHANNEL | SEND_MESSAGES,
            deny: 0,
        },
    );
    characters.push(
        OverwritePlan {
            target: OverwriteTarget::Players,
            allow: READ_MESSAGE_HISTORY | VIEW_CHANNEL,
            deny: SEND_MESSAGES,
        },
    );
    assert(characters@ =~= characters_overwrites());
    plans.push(
        ChannelPlan {
            name: RP_PLAYER_CHARACTERS_CHANNEL_NAME,
            kind: ChannelKind::Text,
            overwrites: characters,
        },
    );
    if community {
        plans.push(ChannelPlan {
            name: RP_INDEX_CHANNEL_NAME,
            kind: ChannelKind::Forum,
            overwrites: both_exec(
                VIEW_CHANNEL | READ_MESSAGE_HISTORY,
                CREATE_PUBLIC_THREADS | SEND_MESSAGES_IN_THREADS,
            ),
        });
        plans.push(ChannelPlan {
            name: RP_QA_CHANNEL_NAME,
            kind: ChannelKind::Forum,
            overwrites: both_exec(
                VIEW_CHANNEL | READ_MESSAGE_HISTORY | SEND_MESSAGES,
                CREATE_PUBLIC_THREADS | SEND_MESSAGES_IN_THREADS,
            ),
        });
    }
    plans
}

/// A new place's or road's channel: hidden from everyone, open to its own
/// role for viewing, writing, reading history and commands.
pub open spec fn private_overwrites() -> Seq<OverwritePlan> {
    seq![
        OverwritePlan { target: OverwriteTarget::Everyone, allow: 0, deny: ALL_PERMISSIONS },
        OverwritePlan {
            target: OverwriteTarget::OwnRole,
            allow: VIEW_CHANNEL | SEND_MESSAGES | READ_MESSAGE_HISTORY | USE_SLASH_COMMANDS,
            deny: 0,
        },
    ]
}

/// The overwrites of a new place's category or a new road's channel.
pub fn private_channel_overwrites() -> (overwrites: Vec<OverwritePlan>)
    ensures
        overwrites@ == private_overwrites(),
{
    let mut v = Vec::new();
    v.push(OverwritePlan { target: OverwriteTarget::Everyone, allow: 0, deny: ALL_PERMISSIONS });
    v.push(
        OverwritePlan {
            target: OverwriteTarget::OwnRole,
            allow: VIEW_CHANNEL | SEND_MESSAGES | READ_MESSAGE_HISTORY | USE_SLASH_COMMANDS,
            deny: 0,
        },
    );
    assert(v@ =~= private_overwrites());
    v
}

/// The moderators may kick and ban members, manage messages and roles, see
/// channels, write and use commands, but are not administrators; the
/// players may write (in threads too), use commands, connect and speak, but
/// may not kick, ban or manage anything, and are not administrators.
pub proof fn law_role_powers()
    ensures
        moderator_permissions() & KICK_MEMBERS == KICK_MEMBERS,
        moderator_permissions() & BAN_MEMBERS == BAN_MEMBERS,
        moderator_permissions() & MANAGE_MESSAGES == MANAGE_MESSAGES,
        moderator_permissions() & MANAGE_ROLES == MANAGE_ROLES,
        moderator_permissions() & VIEW_CHANNEL == VIEW_CHANNEL,
        moderator_permissions() & SEND_MESSAGES == SEND_MESSAGES,
        moderator_permissions() & USE_SLASH_COMMANDS == USE_SLASH_COMMANDS,
        moderator_permissions() & ADMINISTRATOR == 0,
        player_permissions() & SEND_MESSAGES == SEND_MESSAGES,
        player_permissions() & SEND_MESSAGES_IN_THREADS == SEND_MESSAGES_IN_THREADS,
        player_permissions() & USE_SLASH_COMMANDS == USE_SLASH_COMMANDS,
        player_permissions() & CONNECT == CONNECT,
        player_permissions() & SPEAK == SPEAK,
        player_permissions() & (KICK_MEMBERS | BAN_MEMBERS | MANAGE_MESSAGES | MANAGE_ROLES | ADMINISTRATOR) == 0,
{
    let m: u64 = (1u64 << 1u64) | (1u64 << 10u64) | (1u64 << 31u64) | (1u64 << 11u64) | (1u64 << 2u64)
        | (1u64 << 13u64) | (1u64 << 28u64);
    assert(m == moderator_permissions());
    assert({
        let m: u64 = (1u64 << 1u64) | (1u64 << 10u64) | (1u64 << 31u64) | (1u64 << 11u64) | (1u64 << 2u64)
            | (1u64 << 13u64) | (1u64 << 28u64);
        &&& m & (1u64 << 1u64) == (1u64 << 1u64)
        &&& m & (1u64 << 2u64) == (1u64 << 2u64)
        &&& m & (1u64 << 13u64) == (1u64 << 13u64)
        &&& m & (1u64 << 28u64) == (1u64 << 28u64)
        &&& m & (1u64 << 10u64) == (1u64 << 10u64)
        &&& m & (1u64 << 11u64) == (1u64 << 11u64)
        &&& m & (1u64 << 31u64) == (1u64 << 31u64)
        &&& m & (1u64 << 3u64) == 0
    }) by (bit_vector);
    let p: u64 = (1u64 << 11u64) | (1u64 << 38u64) | (1u64 << 31u64) | (1u64 << 20u64) | (1u64 << 21u64);
    assert(p == player_permissions());
    assert({
        let p: u64 = (1u64 << 11u64) | (1u64 << 38u64) | (1u64 << 31u64) | (1u64 << 20u64) | (1u64 << 21u64);
        &&& p & (1u64 << 11u64) == (1u64 << 11u64)
        &&& p & (1u64 << 38u64) == (1u64 << 38u64)
        &&& p & (1u64 << 31u64) == (1u64 << 31u64)
        &&& p & (1u64 << 20u64) == (1u64 << 20u64)
        &&& p & (1u64 << 21u64) == (1u64 << 21u64)
        &&& p & ((1u64 << 1u64) | (1u64 << 2u64) | (1u64 << 13u64) | (1u64 << 28u64) | (1u64 << 3u64)) == 0
    }) by (bit_vector);
}

/// A new place or road is closed to everyone but opened to its own role:
/// `@everyone` is allowed nothing and denied every permission, and the own
/// role may view the channel, write in it, read its history and use
/// commands, and is denied nothing.
pub proof fn law_own_role_opens_place()
    ensures
        private_overwrites().len() == 2,
        forall|i: int|
            0 <= i < private_overwrites().len() && (#[trigger] private_overwrites()[i]).target
                == OverwriteTarget::Everyone ==> private_overwrites()[i].allow == 0
                && private_overwrites()[i].deny == ALL_PERMISSIONS,
        exists|i: int|
            0 <= i < private_overwrites().len() && (#[trigger] private_overwrites()[i]).target
                == OverwriteTarget::OwnRole,
        forall|i: int|
            0 <= i < private_overwrites().len() && (#[trigger] private_overwrites()[i]).target
                == OverwriteTarget::OwnRole ==> {
                let a = private_overwrites()[i].allow;
                &&& a & VIEW_CHANNEL == VIEW_CHANNEL
                &&& a & SEND_MESSAGES == SEND_MESSAGES
                &&& a & READ_MESSAGE_HISTORY == READ_MESSAGE_HISTORY
                &&& a & USE_SLASH_COMMANDS == USE_SLASH_COMMANDS
                &&& private_overwrites()[i].deny == 0
            },
{
    assert(((1u64 << 10u64) | (1u64 << 11u64) | (1u64 << 16u64) | (1u64 << 31u64)) & (1u64 << 10u64)
        == (1u64 << 10u64)) by (bit_vector);
    assert(((1u64 << 10u64) | (1u64 << 11u64) | (1u64 << 16u64) | (1u64 << 31u64)) & (1u64 << 11u64)
        == (1u64 << 11u64)) by (bit_vector);
    assert(((1u64 << 10u64) | (1u64 << 11u64) | (1u64 << 16u64) | (1u64 << 31u64)) & (1u64 << 16u64)
        == (1u64 << 16u64)) by (bit_vector);
    assert(((1u64 << 10u64) | (1u64 << 11u64) | (1u64 << 16u64) | (1u64 << 31u64)) & (1u64 << 31u64)
        == (1u64 << 31u64)) by (bit_vector);
    assert(private_overwrites()[1].target == OverwriteTarget::OwnRole);
}

/// Hidden categories and channels stay hidden from the players: every
/// overwrite of the roads' and administrators' categories, and the
/// `@everyone` overwrite of a place or road, denies viewing; the players
/// cannot write in the story and rules channels.
pub proof fn law_hidden_stays_hidden()
    ensures
        forall|i: int| 0 <= i < both(0, VIEW_CHANNEL).len() ==> #[trigger] both(0, VIEW_CHANNEL)[i].deny
            & VIEW_CHANNEL == VIEW_CHANNEL,
        private_overwrites()[0].deny & VIEW_CHANNEL == VIEW_CHANNEL,
        read_only()[1].deny & SEND_MESSAGES == SEND_MESSAGES,
        read_only()[1].allow & SEND_MESSAGES == 0,
{
    assert(VIEW_CHANNEL & VIEW_CHANNEL == VIEW_CHANNEL) by (bit_vector);
    assert(0x1FF_FFFF_FFFFu64 & (1u64 << 10u64) == (1u64 << 10u64)) by (bit_vector);
    assert(SEND_MESSAGES & SEND_MESSAGES == SEND_MESSAGES) by (bit_vector);
    assert(((1u64 << 16u64) | (1u64 << 10u64)) & (1u64 << 11u64) == 0) by (bit_vector);
}

} // verus!
