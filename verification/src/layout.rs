use vstd::prelude::*;
use crate::constants::{
    ADMIN_CATEGORY_NAME, NRP_CATEGORY_NAME, RP_CATEGORY_NAME, ROAD_CATEGORY_NAME,
    ADMIN_MODERATION_CHANNEL_NAME, ADMIN_COMMANDS_CHANNEL_NAME, NRP_GENERAL_RULES_CHANNEL_NAME,
    NRP_GENERAL_CHANNEL_NAME, NRP_RP_EXCHANGES_CHANNEL_NAME, NRP_GENERAL_VOICE_CHANNEL_NAME,
    RP_STORY_CHANNEL_NAME, RP_PLAYER_CHARACTERS_CHANNEL_NAME, RP_RULES_CHANNEL_NAME,
    RP_INDEX_CHANNEL_NAME, RP_QA_CHANNEL_NAME, ADMIN_ROLE, MODERATOR_ROLE, SPECTATOR_ROLE,
    PLAYER_ROLE, COMMUNITY_FEATURE, DEFAULT_TIME_MODIFIER,
};
use crate::text::text_eq;

verus! {

/// The kinds of channel that the server layout deals with.
#[derive(Clone, Copy, Debug, PartialEq, Eq, Structural)]
pub enum ChannelKind {
    Text,
    Voice,
    Category,
    Forum,
    Other,
}

/// A channel of a server, as the layout sorting sees it.
pub struct ChannelInfo {
    pub id: u64,
    pub kind: ChannelKind,
    pub name: String,
    /// The name of the channel's category, where it has one.
    pub parent_name: Option<String>,
}

/// Position of a channel in the server layout, where the layout places it:
/// categories by name; text channels by category and name; the general
/// voice channel of the no-RP category; the forums by name.
pub open spec fn channel_position_of(kind: ChannelKind, name: Seq<char>, parent: Option<Seq<char>>) -> Option<u64> {
    match kind {
        ChannelKind::Category => {
            if name == ADMIN_CATEGORY_NAME@ {
                Some(1)
            } else if name == NRP_CATEGORY_NAME@ {
                Some(4)
            } else if name == RP_CATEGORY_NAME@ {
                Some(10)
            } else if name == ROAD_CATEGORY_NAME@ {
                Some(16)
            } else {
                None
            }
        },
        ChannelKind::Text => match parent {
            None => None,
            Some(p) => {
                if p == ADMIN_CATEGORY_NAME@ {
                    if name == ADMIN_MODERATION_CHANNEL_NAME@ {
                        Some(2)
                    } else if name == ADMIN_COMMANDS_CHANNEL_NAME@ {
                        Some(3)
                    } else {
                        None
                    }
                } else if p == NRP_CATEGORY_NAME@ {
                    if name == NRP_GENERAL_RULES_CHANNEL_NAME@ {
                        Some(5)
                    } else if name == NRP_GENERAL_CHANNEL_NAME@ {
                        Some(6)
                    } else if name == NRP_RP_EXCHANGES_CHANNEL_NAME@ {
                        Some(7)
                    } else {
                        None
                    }
                } else if p == RP_CATEGORY_NAME@ {
                    if name == RP_STORY_CHANNEL_NAME@ {
                        Some(11)
                    } else if name == RP_PLAYER_CHARACTERS_CHANNEL_NAME@ {
                        Some(13)
                    } else if name == RP_RULES_CHANNEL_NAME@ {
                        Some(12)
                    } else {
                        None
                    }
                } else {
                    None
                }
            },
        },
        ChannelKind::Voice => match parent {
            Some(p) => {
                if p == NRP_CATEGORY_NAME@ && name == NRP_GENERAL_VOICE_CHANNEL_NAME@ {
                    Some(8)
                } else {
                    None
                }
            },
            None => None,
        },
        ChannelKind::Forum => {
            if name == RP_INDEX_CHANNEL_NAME@ {
                Some(14)
            } else if name == RP_QA_CHANNEL_NAME@ {
                Some(15)
            } else {
                None
            }
        },
        ChannelKind::Other => None,
    }
}

fn opt_view(o: &Option<String>) -> (r: Option<&str>)
    ensures
        match o {
            None => r is None,
            Some(s) => r matches Some(t) && t@ == s@,
        },
{
    match o {
        None => None,
        Some(s) => Some(s.as_str()),
    }
}

/// The view of an optional name.
pub open spec fn name_view(o: Option<String>) -> Option<Seq<char>> {
    match o {
        None => None,
        Some(s) => Some(s@),
    }
}

/// Where a channel goes in the server layout, if anywhere.
pub fn channel_position(kind: ChannelKind, name: &str, parent_name: Option<&str>) -> (pos: Option<u64>)
    ensures
        pos == channel_position_of(
            kind,
            name@,
            match parent_name {
                None => None,
                Some(p) => Some(p@),
            },
        ),
{
    match kind {
        ChannelKind::Category => {
            if text_eq(name, ADMIN_CATEGORY_NAME) {
                Some(1)
            } else if text_eq(name, NRP_CATEGORY_NAME) {
                Some(4)
            } else if text_eq(name, RP_CATEGORY_NAME) {
                Some(10)
            } else if text_eq(name, ROAD_CATEGORY_NAME) {
                Some(16)
            } else {
                None
            }
        },
        ChannelKind::Text => match parent_name {
            None => None,
            Some(p) => {
                if text_eq(p, ADMIN_CATEGORY_NAME) {
                    if text_eq(name, ADMIN_MODERATION_CHANNEL_NAME) {
                        Some(2)
                    } else if text_eq(name, ADMIN_COMMANDS_CHANNEL_NAME) {
                        Some(3)
                    } else {
                        None
                    }
                } else if text_eq(p, NRP_CATEGORY_NAME) {
                    if text_eq(name, NRP_GENERAL_RULES_CHANNEL_NAME) {
                        Some(5)
                    } else if text_eq(name, NRP_GENERAL_CHANNEL_NAME) {
                        Some(6)
                    } else if text_eq(name, NRP_RP_EXCHANGES_CHANNEL_NAME) {
                        Some(7)
                    } else {
                        None
                    }
                } else if text_eq(p, RP_CATEGORY_NAME) {
                    if text_eq(name, RP_STORY_CHANNEL_NAME) {
                        Some(11)
                    } else if text_eq(name, RP_PLAYER_CHARACTERS_CHANNEL_NAME) {
                        Some(13)
                    } else if text_eq(name, RP_RULES_CHANNEL_NAME) {
                        Some(12)
                    } else {
                        None
                    }
                } else {
                    None
                }
            },
        },
        ChannelKind::Voice => match parent_name {
            Some(p) => {
                if text_eq(p, NRP_CATEGORY_NAME) && text_eq(name, NRP_GENERAL_VOICE_CHANNEL_NAME) {
                    Some(8)
                } else {
                    None
                }
            },
            None => None,
        },
        ChannelKind::Forum => {
            if text_eq(name, RP_INDEX_CHANNEL_NAME) {
                Some(14)
            } else if text_eq(name, RP_QA_CHANNEL_NAME) {
                Some(15)
            } else {
                None
            }
        },
        ChannelKind::Other => None,
    }
}

/// The (channel, position) pairs of the channels that the layout places, in
/// the order given.
pub open spec fn layout_positions(channels: Seq<ChannelInfo>) -> Seq<(u64, u64)>
    decreases channels.len(),
{
    if channels.len() == 0 {
        Seq::empty()
    } else {
        let rest = layout_positions(channels.drop_last());
        let c = channels.last();
        match channel_position_of(c.kind, c.name@, name_view(c.parent_name)) {
            None => rest,
            Some(p) => rest.push((c.id, p)),
        }
    }
}

/// The new positions of a server's channels: each channel that the layout
/// knows, with its position. Voice channels must lie in a category.
pub fn sort_channels(channels: &Vec<ChannelInfo>) -> (positions: Vec<(u64, u64)>)
    requires
        forall|i: int|
            0 <= i < channels@.len() && #[trigger] channels@[i].kind == ChannelKind::Voice
                ==> channels@[i].parent_name is Some,
    ensures
        positions@ == layout_positions(channels@),
{
    let mut positions: Vec<(u64, u64)> = Vec::new();
    let mut i: usize = 0;
    proof {
        assert(channels@.take(0) =~= Seq::<ChannelInfo>::empty());
    }
    while i < channels.len()
        invariant
            i <= channels@.len(),
            positions@ == layout_positions(channels@.take(i as int)),
        decreases channels.len() - i,
    {
        proof {
            assert(channels@.take(i + 1).drop_last() =~= channels@.take(i as int));
            assert(channels@.take(i + 1).last() == channels@[i as int]);
        }
        let c = &channels[i];
        let parent = opt_view(&c.parent_name);
        match channel_position(c.kind, c.name.as_str(), parent) {
            None => {},
            Some(p) => {
                positions.push((c.id, p));
            },
        }
        i += 1;
    }
    proof {
        assert(channels@.take(channels.len() as int) =~= channels@);
    }
    positions
}

/// Whether the layout places a channel.
pub open spec fn channel_placed() -> spec_fn(ChannelInfo) -> bool {
    |c: ChannelInfo| channel_position_of(c.kind, c.name@, name_view(c.parent_name)) is Some
}

/// A placed channel with its position.
pub open spec fn channel_entry() -> spec_fn(ChannelInfo) -> (u64, u64) {
    |c: ChannelInfo| (c.id, channel_position_of(c.kind, c.name@, name_view(c.parent_name))->0)
}

/// The new positions are exactly the channels that the layout places, each
/// once with its position, in the order given: no placed channel is left
/// out and no other channel is moved.
pub proof fn law_layout_lists_placed_channels(channels: Seq<ChannelInfo>)
    ensures
        layout_positions(channels) == channels.filter(channel_placed()).map_values(channel_entry()),
    decreases channels.len(),
{
    if channels.len() == 0 {
        assert(channels.filter(channel_placed()) =~= Seq::<ChannelInfo>::empty());
        assert(channels.filter(channel_placed()).map_values(channel_entry()) =~= Seq::<(u64, u64)>::empty());
    } else {
        let t = channels.drop_last();
        law_layout_lists_placed_channels(t);
        assert(t.push(channels.last()) =~= channels);
        t.lemma_filter_push(channels.last(), channel_placed());
        if channel_placed()(channels.last()) {
            assert(t.filter(channel_placed()).push(channels.last()).map_values(channel_entry()) =~= t.filter(
                channel_placed(),
            ).map_values(channel_entry()).push(channel_entry()(channels.last())));
        }
    }
}

proof fn lemma_category_names_differ()
    ensures
        ADMIN_CATEGORY_NAME@ != NRP_CATEGORY_NAME@,
        ADMIN_CATEGORY_NAME@ != RP_CATEGORY_NAME@,
        ADMIN_CATEGORY_NAME@ != ROAD_CATEGORY_NAME@,
        NRP_CATEGORY_NAME@ != RP_CATEGORY_NAME@,
        NRP_CATEGORY_NAME@ != ROAD_CATEGORY_NAME@,
        RP_CATEGORY_NAME@ != ROAD_CATEGORY_NAME@,
{
    reveal_strlit("Admin");
    reveal_strlit("NO RP");
    reveal_strlit("RP");
    reveal_strlit("Roads");
    assert(ADMIN_CATEGORY_NAME@[0] != NRP_CATEGORY_NAME@[0]);
    assert(ADMIN_CATEGORY_NAME@[0] != RP_CATEGORY_NAME@[0]);
    assert(ADMIN_CATEGORY_NAME@[0] != ROAD_CATEGORY_NAME@[0]);
    assert(NRP_CATEGORY_NAME@[0] != RP_CATEGORY_NAME@[0]);
    assert(NRP_CATEGORY_NAME@[0] != ROAD_CATEGORY_NAME@[0]);
    assert(RP_CATEGORY_NAME@.len() != ROAD_CATEGORY_NAME@.len());
}

/// Every category that a universe's setup creates has its place in the
/// layout, wherever it stands: the administrators' category first, then
/// the no-RP category, the RP category and the roads' category.
pub proof fn law_setup_categories_placed(parent: Option<Seq<char>>)
    ensures
        channel_position_of(ChannelKind::Category, ADMIN_CATEGORY_NAME@, parent) == Some(1u64),
        channel_position_of(ChannelKind::Category, NRP_CATEGORY_NAME@, parent) == Some(4u64),
        channel_position_of(ChannelKind::Category, RP_CATEGORY_NAME@, parent) == Some(10u64),
        channel_position_of(ChannelKind::Category, ROAD_CATEGORY_NAME@, parent) == Some(16u64),
{
    lemma_category_names_differ();
}

/// Every channel that a universe's setup creates, in the category that it
/// creates it in, has its own place in the layout: the administrators'
/// moderation and commands channels; the no-RP rules, general and RP
/// exchanges channels and its general voice channel; the RP story, rules and
/// characters' channels; and the index and Q&A forums.
pub proof fn law_setup_channels_placed()
    ensures
        channel_position_of(ChannelKind::Text, ADMIN_MODERATION_CHANNEL_NAME@, Some(ADMIN_CATEGORY_NAME@)) == Some(2u64),
        channel_position_of(ChannelKind::Text, ADMIN_COMMANDS_CHANNEL_NAME@, Some(ADMIN_CATEGORY_NAME@)) == Some(3u64),
        channel_position_of(ChannelKind::Text, NRP_GENERAL_RULES_CHANNEL_NAME@, Some(NRP_CATEGORY_NAME@)) == Some(5u64),
        channel_position_of(ChannelKind::Text, NRP_GENERAL_CHANNEL_NAME@, Some(NRP_CATEGORY_NAME@)) == Some(6u64),
        channel_position_of(ChannelKind::Text, NRP_RP_EXCHANGES_CHANNEL_NAME@, Some(NRP_CATEGORY_NAME@)) == Some(7u64),
        channel_position_of(ChannelKind::Voice, NRP_GENERAL_VOICE_CHANNEL_NAME@, Some(NRP_CATEGORY_NAME@)) == Some(8u64),
        channel_position_of(ChannelKind::Text, RP_STORY_CHANNEL_NAME@, Some(RP_CATEGORY_NAME@)) == Some(11u64),
        channel_position_of(ChannelKind::Text, RP_RULES_CHANNEL_NAME@, Some(RP_CATEGORY_NAME@)) == Some(12u64),
        channel_position_of(ChannelKind::Text, RP_PLAYER_CHARACTERS_CHANNEL_NAME@, Some(RP_CATEGORY_NAME@)) == Some(13u64),
        channel_position_of(ChannelKind::Forum, RP_INDEX_CHANNEL_NAME@, Some(RP_CATEGORY_NAME@)) == Some(14u64),
        channel_position_of(ChannelKind::Forum, RP_QA_CHANNEL_NAME@, Some(RP_CATEGORY_NAME@)) == Some(15u64),
{
    lemma_category_names_differ();
    reveal_strlit("moderation");
    reveal_strlit("commands");
    reveal_strlit("general");
    reveal_strlit("rules");
    reveal_strlit("rp-exchanges");
    reveal_strlit("story");
    reveal_strlit("player-characters");
    reveal_strlit("index");
    reveal_strlit("questions-answers");
    assert(ADMIN_COMMANDS_CHANNEL_NAME@[0] != ADMIN_MODERATION_CHANNEL_NAME@[0]);
    assert(NRP_GENERAL_CHANNEL_NAME@[0] != NRP_GENERAL_RULES_CHANNEL_NAME@[0]);
    assert(NRP_RP_EXCHANGES_CHANNEL_NAME@[1] != NRP_GENERAL_RULES_CHANNEL_NAME@[1]);
    assert(NRP_RP_EXCHANGES_CHANNEL_NAME@[0] != NRP_GENERAL_CHANNEL_NAME@[0]);
    assert(RP_RULES_CHANNEL_NAME@[0] != RP_STORY_CHANNEL_NAME@[0]);
    assert(RP_PLAYER_CHARACTERS_CHANNEL_NAME@[0] != RP_STORY_CHANNEL_NAME@[0]);
    assert(RP_QA_CHANNEL_NAME@[0] != RP_INDEX_CHANNEL_NAME@[0]);
}

/// Sorting a server's channels moves each of the setup's categories that it
/// holds to that category's position.
pub proof fn law_sort_places_setup_categories(channels: Seq<ChannelInfo>, i: int)
    requires
        0 <= i < channels.len(),
        channels[i].kind == ChannelKind::Category,
    ensures
        channels[i].name@ == ADMIN_CATEGORY_NAME@ ==> layout_positions(channels).contains((channels[i].id, 1u64)),
        channels[i].name@ == NRP_CATEGORY_NAME@ ==> layout_positions(channels).contains((channels[i].id, 4u64)),
        channels[i].name@ == RP_CATEGORY_NAME@ ==> layout_positions(channels).contains((channels[i].id, 10u64)),
        channels[i].name@ == ROAD_CATEGORY_NAME@ ==> layout_positions(channels).contains((channels[i].id, 16u64)),
{
    let c = channels[i];
    law_setup_categories_placed(name_view(c.parent_name));
    law_layout_lists_placed_channels(channels);
    if channel_placed()(c) {
        lemma_filter_keeps(channels, channel_placed(), i);
        let f = channels.filter(channel_placed());
        let k = choose|k: int| 0 <= k < f.len() && f[k] == c;
        assert(layout_positions(channels)[k] == channel_entry()(c));
    }
}

proof fn lemma_filter_keeps<A>(s: Seq<A>, p: spec_fn(A) -> bool, i: int)
    requires
        0 <= i < s.len(),
        p(s[i]),
    ensures
        exists|k: int| 0 <= k < s.filter(p).len() && s.filter(p)[k] == s[i],
    decreases s.len(),
{
    let t = s.drop_last();
    assert(t.push(s.last()) =~= s);
    t.lemma_filter_push(s.last(), p);
    if i == s.len() - 1 {
        assert(s.filter(p)[t.filter(p).len() as int] == s[i]);
    } else {
        assert(t[i] == s[i]);
        lemma_filter_keeps(t, p, i);
        let k = choose|k: int| 0 <= k < t.filter(p).len() && t.filter(p)[k] == t[i];
        assert(s.filter(p)[k] == s[i]);
    }
}

/// Each kind of channel has positions of its own within 1 to 16: categories
/// 1, 4, 10 and 16; text channels 2, 3, 5, 6, 7, 11, 12 and 13; the voice
/// channel 8; forums 14 and 15.
pub proof fn law_layout_positions(kind: ChannelKind, name: Seq<char>, parent: Option<Seq<char>>)
    ensures
        channel_position_of(kind, name, parent) matches Some(p) ==> 1 <= p <= 16 && p != 9,
        kind == ChannelKind::Category && channel_position_of(kind, name, parent) is Some ==> {
            let p = channel_position_of(kind, name, parent)->0;
            p == 1 || p == 4 || p == 10 || p == 16
        },
        kind == ChannelKind::Text && channel_position_of(kind, name, parent) is Some ==> {
            let p = channel_position_of(kind, name, parent)->0;
            (2 <= p <= 3) || (5 <= p <= 7) || (11 <= p <= 13)
        },
        kind == ChannelKind::Voice && channel_position_of(kind, name, parent) is Some ==> channel_position_of(
            kind,
            name,
            parent,
        )->0 == 8,
        kind == ChannelKind::Forum && channel_position_of(kind, name, parent) is Some ==> {
            let p = channel_position_of(kind, name, parent)->0;
            p == 14 || p == 15
        },
{
}

/// Position of a role, where the layout places it: the administrators on
/// top, then the moderators, the spectators and the players.
pub open spec fn role_position_of(name: Seq<char>) -> Option<u64> {
    if name == ADMIN_ROLE@ {
        Some(4)
    } else if name == MODERATOR_ROLE@ {
        Some(3)
    } else if name == SPECTATOR_ROLE@ {
        Some(2)
    } else if name == PLAYER_ROLE@ {
        Some(1)
    } else {
        None
    }
}

/// Where a role goes in the role list, if anywhere.
pub fn role_position(name: &str) -> (pos: Option<u64>)
    ensures
        pos == role_position_of(name@),
{
    if text_eq(name, ADMIN_ROLE) {
        Some(4)
    } else if text_eq(name, MODERATOR_ROLE) {
        Some(3)
    } else if text_eq(name, SPECTATOR_ROLE) {
        Some(2)
    } else if text_eq(name, PLAYER_ROLE) {
        Some(1)
    } else {
        None
    }
}

/// The (role, position) pairs of the roles that the layout places, in the
/// order given.
pub open spec fn role_positions(roles: Seq<(u64, String)>) -> Seq<(u64, u64)>
    decreases roles.len(),
{
    if roles.len() == 0 {
        Seq::empty()
    } else {
        let rest = role_positions(roles.drop_last());
        match role_position_of(roles.last().1@) {
            None => rest,
            Some(p) => rest.push((roles.last().0, p)),
        }
    }
}

/// The new positions of a server's roles, given as (id, name) pairs.
pub fn sort_roles(roles: &Vec<(u64, String)>) -> (positions: Vec<(u64, u64)>)
    ensures
        positions@ == role_positions(roles@),
{
    let mut positions: Vec<(u64, u64)> = Vec::new();
    let mut i: usize = 0;
    proof {
        assert(roles@.take(0) =~= Seq::<(u64, String)>::empty());
    }
    while i < roles.len()
        invariant
            i <= roles@.len(),
            positions@ == role_positions(roles@.take(i as int)),
        decreases roles.len() - i,
    {
        proof {
            assert(roles@.take(i + 1).drop_last() =~= roles@.take(i as int));
            assert(roles@.take(i + 1).last() == roles@[i as int]);
        }
        match role_position(roles[i].1.as_str()) {
            None => {},
            Some(p) => {
                positions.push((roles[i].0, p));
            },
        }
        i += 1;
    }
    proof {
        assert(roles@.take(roles.len() as int) =~= roles@);
    }
    positions
}

/// Whether the layout places a role.
pub open spec fn role_placed() -> spec_fn((u64, String)) -> bool {
    |r: (u64, String)| role_position_of(r.1@) is Some
}

/// A placed role with its position.
pub open spec fn role_entry() -> spec_fn((u64, String)) -> (u64, u64) {
    |r: (u64, String)| (r.0, role_position_of(r.1@)->0)
}

/// The new role positions are exactly the roles whose names the layout
/// knows, each once with its position, in the order given: no known role is
/// left out and no other role is moved.
pub proof fn law_role_layout_lists_known_roles(roles: Seq<(u64, String)>)
    ensures
        role_positions(roles) == roles.filter(role_placed()).map_values(role_entry()),
    decreases roles.len(),
{
    if roles.len() == 0 {
        assert(roles.filter(role_placed()) =~= Seq::<(u64, String)>::empty());
        assert(roles.filter(role_placed()).map_values(role_entry()) =~= Seq::<(u64, u64)>::empty());
    } else {
        let t = roles.drop_last();
        law_role_layout_lists_known_roles(t);
        assert(t.push(roles.last()) =~= roles);
        t.lemma_filter_push(roles.last(), role_placed());
        if role_placed()(roles.last()) {
            assert(t.filter(role_placed()).push(roles.last()).map_values(role_entry()) =~= t.filter(
                role_placed(),
            ).map_values(role_entry()).push(role_entry()(roles.last())));
        }
    }
}

/// The administrators' role is placed above the moderators', which is above
/// the spectators', which is above the players'.
pub proof fn law_role_order()
    ensures
        role_position_of(ADMIN_ROLE@) == Some(4u64),
        role_position_of(MODERATOR_ROLE@) == Some(3u64),
        role_position_of(SPECTATOR_ROLE@) == Some(2u64),
        role_position_of(PLAYER_ROLE@) == Some(1u64),
{
    reveal_strlit("Admin");
    reveal_strlit("Modo");
    reveal_strlit("Spectator");
    reveal_strlit("Player");
    assert(MODERATOR_ROLE@[0] != ADMIN_ROLE@[0]);
    assert(SPECTATOR_ROLE@[0] != ADMIN_ROLE@[0]);
    assert(SPECTATOR_ROLE@[0] != MODERATOR_ROLE@[0]);
    assert(PLAYER_ROLE@[0] != ADMIN_ROLE@[0]);
    assert(PLAYER_ROLE@[0] != MODERATOR_ROLE@[0]);
    assert(PLAYER_ROLE@[0] != SPECTATOR_ROLE@[0]);
}

/// Whether a channel of this kind may be made inside a category: text, voice
/// and forum channels only.
pub fn channel_kind_allowed(kind: ChannelKind) -> (ok: bool)
    ensures
        ok == (kind == ChannelKind::Text || kind == ChannelKind::Voice || kind == ChannelKind::Forum),
{
    match kind {
        ChannelKind::Text | ChannelKind::Voice | ChannelKind::Forum => true,
        _ => false,
    }
}

/// Whether a server's features include the community feature, which forum
/// channels need.
pub fn is_community(features: &Vec<String>) -> (yes: bool)
    ensures
        yes == exists|i: int| 0 <= i < features@.len() && #[trigger] features@[i]@ == COMMUNITY_FEATURE@,
{
    let mut i: usize = 0;
    while i < features.len()
        invariant
            i <= features@.len(),
            forall|j: int| 0 <= j < i ==> #[trigger] features@[j]@ != COMMUNITY_FEATURE@,
        decreases features.len() - i,
    {
        if text_eq(features[i].as_str(), COMMUNITY_FEATURE) {
            return true;
        }
        i += 1;
    }
    false
}

/// What a request to create a universe leads to.
#[derive(Clone, Copy, Debug, PartialEq, Eq, Structural)]
pub enum UniverseRequest {
    /// The server already belongs to a universe.
    AlreadyExists,
    /// The time modifier given is not a whole number of at least 0.
    BadTimeModifier,
    /// Create the universe with this time modifier.
    Create(u64),
}

/// Decides a request to create a universe, given how many server records the
/// server already has and the time modifier option: absent (`None`), given
/// but not a whole non-negative number (`Some(None)`), or given (`Some(Some)`).
pub fn universe_request(existing_servers: u64, time_modifier: Option<Option<u64>>) -> (r: UniverseRequest)
    ensures
        existing_servers > 0 ==> r == UniverseRequest::AlreadyExists,
        existing_servers == 0 ==> r == match time_modifier {
            None => UniverseRequest::Create(DEFAULT_TIME_MODIFIER),
            Some(None) => UniverseRequest::BadTimeModifier,
            Some(Some(t)) => UniverseRequest::Create(t),
        },
{
    if existing_servers > 0 {
        return UniverseRequest::AlreadyExists;
    }
    match time_modifier {
        None => UniverseRequest::Create(DEFAULT_TIME_MODIFIER),
        Some(None) => UniverseRequest::BadTimeModifier,
        Some(Some(t)) => UniverseRequest::Create(t),
    }
}

} // verus!
