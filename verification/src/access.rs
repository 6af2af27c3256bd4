use vstd::prelude::*;
use crate::constants::ADMINISTRATOR;

verus! {

/// Whether a member holds every permission asked for: the member's
/// permission bits, masked by the bits asked for, give those bits back.
pub fn verify_permission(member_permissions: u64, permissions: u64) -> (ok: bool)
    ensures
        ok == (member_permissions & permissions == permissions),
{
    member_permissions & permissions == permissions
}

/// A permission check passes exactly when no bit asked for is missing from
/// the member's bits; asking for nothing always passes.
pub proof fn law_permission_subset(member_permissions: u64, permissions: u64)
    ensures
        (member_permissions & permissions == permissions) <==> (permissions & !member_permissions == 0),
        member_permissions & 0u64 == 0u64,
{
    assert((member_permissions & permissions == permissions) <==> (permissions & !member_permissions
        == 0)) by (bit_vector);
    assert(member_permissions & 0u64 == 0u64) by (bit_vector);
}

/// Whether a member holds the role stored for a server: the server's record
/// yields exactly one role id (stored signed), which the member's roles must
/// contain.
pub fn verify_role(role_ids: &Vec<i64>, member_roles: &Vec<u64>) -> (has: bool)
    requires
        role_ids@.len() == 1,
    ensures
        has == member_roles@.contains(role_ids@[0] as u64),
{
    let role = role_ids[0] as u64;
    let mut i: usize = 0;
    while i < member_roles.len()
        invariant
            i <= member_roles@.len(),
            role == role_ids@[0] as u64,
            forall|j: int| 0 <= j < i ==> member_roles@[j] != role,
        decreases member_roles.len() - i,
    {
        if member_roles[i] == role {
            return true;
        }
        i += 1;
    }
    false
}

/// Whether a member may accept or reject a character: a moderator of the
/// server, or an administrator.
pub fn may_review_character(role_ids: &Vec<i64>, member_roles: &Vec<u64>, member_permissions: u64) -> (ok: bool)
    requires
        role_ids@.len() == 1,
    ensures
        ok == (member_roles@.contains(role_ids@[0] as u64) || (member_permissions & ADMINISTRATOR == ADMINISTRATOR)),
{
    let moderator = verify_role(role_ids, member_roles);
    let admin = verify_permission(member_permissions, ADMINISTRATOR);
    moderator || admin
}

/// Where a channel lies in its server.
#[derive(Clone, Copy, Debug, PartialEq, Eq, Structural)]
pub enum ParentLookup {
    /// The server has no channel with that id.
    ChannelMissing,
    /// The channel is not in a category.
    NotCategorized,
    /// The channel is in the category with this id.
    Category(u64),
}

/// The category of a channel, given the server's channels as (id, category)
/// pairs; the first channel with the id counts.
pub open spec fn parent_of(channels: Seq<(u64, Option<u64>)>, channel_id: u64) -> ParentLookup
    decreases channels.len(),
{
    if channels.len() == 0 {
        ParentLookup::ChannelMissing
    } else if channels[0].0 == channel_id {
        match channels[0].1 {
            None => ParentLookup::NotCategorized,
            Some(c) => ParentLookup::Category(c),
        }
    } else {
        parent_of(channels.drop_first(), channel_id)
    }
}

/// Finds the category of a channel among a server's channels.
pub fn get_parent_category(channels: &Vec<(u64, Option<u64>)>, channel_id: u64) -> (r: ParentLookup)
    ensures
        r == parent_of(channels@, channel_id),
{
    let mut i: usize = 0;
    assert(channels@.skip(0) =~= channels@);
    while i < channels.len()
        invariant
            i <= channels@.len(),
            parent_of(channels@, channel_id) == parent_of(channels@.skip(i as int), channel_id),
        decreases channels.len() - i,
    {
        let (id, parent) = channels[i];
        proof {
            assert(channels@.skip(i as int).drop_first() =~= channels@.skip(i + 1));
            assert(channels@.skip(i as int)[0] == channels@[i as int]);
        }
        if id == channel_id {
            return match parent {
                None => ParentLookup::NotCategorized,
                Some(c) => ParentLookup::Category(c),
            };
        }
        i += 1;
    }
    proof {
        assert(channels@.skip(i as int) =~= Seq::<(u64, Option<u64>)>::empty());
    }
    ParentLookup::ChannelMissing
}

} // verus!
