//! The list of members at the right: what it shows and what it asks for.
use vstd::prelude::*;

use crate::text;

verus! {

/// What the list's rows ask for.
#[derive(Debug, Clone, Copy, PartialEq, Eq, Structural)]
pub enum MemberPanelAction {
    OpenMemberProfile(i64),
}

/// A member as the list shows it.
#[derive(Debug, Clone, PartialEq, Eq)]
pub struct MemberSnapshot {
    pub user_id: i64,
    pub display_name: String,
    pub username: String,
    pub is_owner: bool,
    pub online: bool,
}

/// The indices of the members who are online, or of those who are not, in order.
pub open spec fn positions(members: Seq<MemberSnapshot>, online: bool) -> Seq<int>
    decreases members.len(),
{
    if members.len() == 0 {
        Seq::empty()
    } else {
        let before = positions(members.drop_last(), online);
        if members.last().online == online {
            before.push(members.len() - 1)
        } else {
            before
        }
    }
}

/// What the list shows: two sections, each with a title and the indices of its
/// members.
#[derive(Debug, Clone, PartialEq, Eq)]
pub struct MemberSections {
    pub online_title: String,
    pub online: Vec<usize>,
    pub offline_title: String,
    pub offline: Vec<usize>,
}

/// `v` holds the indices `s`.
pub open spec fn same_indices(v: Seq<usize>, s: Seq<int>) -> bool {
    v.len() == s.len() && forall|i: int| 0 <= i < v.len() ==> #[trigger] v[i] == s[i]
}

fn indices_of(members: &Vec<MemberSnapshot>, online: bool) -> (r: Vec<usize>)
    ensures
        same_indices(r@, positions(members@, online)),
{
    let mut r: Vec<usize> = Vec::new();
    let mut i: usize = 0;
    while i < members.len()
        invariant
            i <= members@.len(),
            same_indices(r@, positions(members@.take(i as int), online)),
        decreases members@.len() - i,
    {
        assert(members@.take(i + 1).drop_last() =~= members@.take(i as int));
        if members[i].online == online {
            r.push(i);
        }
        i += 1;
    }
    assert(members@.take(i as int) =~= members@);
    r
}

/// How many are not online, given how many are said to be; none where more are
/// said to be online than there are.
pub open spec fn others(total: int, online_count: int) -> int {
    if total < online_count {
        0
    } else {
        total - online_count
    }
}

/// What the list shows; nothing where there are no members.
pub fn member_sections(members: &Vec<MemberSnapshot>, online_count: usize) -> (r: Option<
    MemberSections,
>)
    ensures
        match r {
            Some(s) => {
                &&& members@.len() > 0
                &&& s.online_title@ == "ONLINE - "@ + text::decimal(online_count as nat)
                &&& s.offline_title@ == "OFFLINE - "@ + text::decimal(
                    others(members@.len() as int, online_count as int) as nat,
                )
                &&& same_indices(s.online@, positions(members@, true))
                &&& same_indices(s.offline@, positions(members@, false))
            },
            None => members@.len() == 0,
        },
{
    if members.len() == 0 {
        return None;
    }
    let mut online_title = "ONLINE - ".to_owned();
    text::push_decimal(&mut online_title, online_count as u64);
    let mut offline_title = "OFFLINE - ".to_owned();
    text::push_decimal(&mut offline_title, members.len().saturating_sub(online_count) as u64);
    Some(
        MemberSections {
            online_title,
            online: indices_of(members, true),
            offline_title,
            offline: indices_of(members, false),
        },
    )
}

/// Every member stands in exactly one of the two sections.
pub proof fn sections_share_out_the_members(members: Seq<MemberSnapshot>)
    ensures
        positions(members, true).len() + positions(members, false).len() == members.len(),
        forall|i: int|
            0 <= i < members.len() ==> #[trigger] positions(members, members[i].online).contains(i)
                && !positions(members, !members[i].online).contains(i),
    decreases members.len(),
{
    if members.len() > 0 {
        let front = members.drop_last();
        sections_share_out_the_members(front);
        positions_in_bounds(front, true);
        positions_in_bounds(front, false);
        let n = members.len() - 1;
        assert forall|i: int| 0 <= i < members.len() implies #[trigger] positions(
            members,
            members[i].online,
        ).contains(i) && !positions(members, !members[i].online).contains(i) by {
            let mine = positions(members, members[i].online);
            let other = positions(members, !members[i].online);
            let mine_front = positions(front, members[i].online);
            let other_front = positions(front, !members[i].online);
            if i < n {
                assert(front[i] == members[i]);
                assert(positions(front, front[i].online).contains(i));
                let k = choose|k: int| 0 <= k < mine_front.len() && mine_front[k] == i;
                assert(mine[k] == i);
                if other.contains(i) {
                    let j = choose|j: int| 0 <= j < other.len() && other[j] == i;
                    assert(j < other_front.len());
                    assert(other_front[j] == i);
                    assert(other_front.contains(i));
                }
            } else {
                assert(mine[mine.len() - 1] == i);
                assert(other == other_front);
                if other.contains(i) {
                    let j = choose|j: int| 0 <= j < other.len() && other[j] == i;
                    assert(other_front[j] == i);
                }
            }
        }
    }
}

proof fn positions_in_bounds(members: Seq<MemberSnapshot>, online: bool)
    ensures
        forall|i: int|
            0 <= i < positions(members, online).len() ==> 0 <= #[trigger] positions(
                members,
                online,
            )[i] < members.len(),
    decreases members.len(),
{
    if members.len() > 0 {
        positions_in_bounds(members.drop_last(), online);
        let front = positions(members.drop_last(), online);
        assert forall|i: int| 0 <= i < positions(members, online).len() implies 0
            <= #[trigger] positions(members, online)[i] < members.len() by {
            if i < front.len() {
                assert(positions(members, online)[i] == front[i]);
            }
        }
    }
}

/// What stands below a member's name: that they own the server, or their user
/// name.
pub fn secondary_label(member: &MemberSnapshot) -> (r: String)
    ensures
        r@ == if member.is_owner {
            "Server owner"@
        } else {
            member.username@
        },
{
    if member.is_owner {
        "Server owner".to_owned()
    } else {
        member.username.clone()
    }
}

/// What a click on a member asks for.
pub fn member_click(member: &MemberSnapshot) -> (r: MemberPanelAction)
    ensures
        r == MemberPanelAction::OpenMemberProfile(member.user_id),
{
    MemberPanelAction::OpenMemberProfile(member.user_id)
}

} // verus!
