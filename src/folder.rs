//! Who may change a mail folder, and what a change does to its members.
//!
//! A folder's membership is the list of user ids that receive its mail.
//! Adding users is idempotent: an id that is already a member, or that a
//! request names twice, yields one membership and no more. Removing a user who
//! is not a member changes nothing.
use vstd::prelude::*;

use crate::policy::admin_gate;
use crate::types::Response;

verus! {

/// The ids of `requested` that are neither in `members` nor earlier in
/// `requested`, in the order in which they first appear.
pub open spec fn additions(members: Seq<i32>, requested: Seq<i32>) -> Seq<i32>
    decreases requested.len(),
{
    if requested.len() == 0 {
        Seq::empty()
    } else {
        let before = additions(members, requested.drop_last());
        let id = requested.last();
        if members.contains(id) || before.contains(id) {
            before
        } else {
            before.push(id)
        }
    }
}

/// Whether a member other than `user` stays when `user` leaves.
pub open spec fn stays(user: i32) -> spec_fn(i32) -> bool {
    |m: i32| m != user
}

/// The members that remain once `user` has left.
pub open spec fn without(members: Seq<i32>, user: i32) -> Seq<i32> {
    members.filter(stays(user))
}

/// Whether `v` holds `id`.
pub fn holds(v: &Vec<i32>, id: i32) -> (r: bool)
    ensures
        r == v@.contains(id),
{
    let mut i: usize = 0;
    while i < v.len()
        invariant
            i <= v.len(),
            forall|j: int| 0 <= j < i ==> v@[j] != id,
        decreases v.len() - i,
    {
        if v[i] == id {
            return true;
        }
        i = i + 1;
    }
    false
}

/// The user ids that need a new membership row so that every id of
/// `requested` is a member of a folder whose members are `members`.
pub fn plan_additions(members: &Vec<i32>, requested: &Vec<i32>) -> (r: Vec<i32>)
    ensures
        r@ == additions(members@, requested@),
{
    let mut r: Vec<i32> = Vec::new();
    let mut i: usize = 0;
    while i < requested.len()
        invariant
            i <= requested.len(),
            r@ == additions(members@, requested@.subrange(0, i as int)),
        decreases requested.len() - i,
    {
        let id = requested[i];
        let prefix = Ghost(requested@.subrange(0, i as int + 1));
        assert(prefix@.drop_last() =~= requested@.subrange(0, i as int));
        if !holds(members, id) && !holds(&r, id) {
            r.push(id);
        }
        i = i + 1;
    }
    assert(requested@.subrange(0, requested@.len() as int) =~= requested@);
    r
}

/// Adds to `members` every id of `requested` that is not yet a member.
pub fn add_members(members: &mut Vec<i32>, requested: &Vec<i32>)
    ensures
        final(members)@ == old(members)@ + additions(old(members)@, requested@),
{
    let mut fresh = plan_additions(members, requested);
    members.append(&mut fresh);
}

/// Removes `user` from `members`, wherever it stands.
pub fn remove_member(members: &mut Vec<i32>, user: i32)
    ensures
        final(members)@ == without(old(members)@, user),
{
    let ghost before = members@;
    let mut kept: Vec<i32> = Vec::new();
    let mut i: usize = 0;
    while i < members.len()
        invariant
            i <= members.len(),
            members@ == before,
            kept@ == without(before.subrange(0, i as int), user),
        decreases members.len() - i,
    {
        let m = members[i];
        proof {
            let next = before.subrange(0, i as int + 1);
            assert(next.drop_last() =~= before.subrange(0, i as int));
            reveal(Seq::filter);
        }
        if m != user {
            kept.push(m);
        }
        i = i + 1;
    }
    assert(before.subrange(0, before.len() as int) =~= before);
    *members = kept;
}


/// Decides a request to add `requested` to a folder whose members are
/// `members`, made by a member of the space whose admin flag is
/// `admin_status`: the ids to insert, or, for a caller who is no admin, the
/// refusal and nothing to insert.
pub fn plan_add_request(admin_status: bool, members: &Vec<i32>, requested: &Vec<i32>) -> (r:
    Result<Vec<i32>, Response<String>>)
    ensures
        admin_status <==> r is Ok,
        r matches Ok(ids) ==> ids@ == additions(members@, requested@),
        r matches Err(e) ==> !e.success && e.message@
            == "only admin allowed to add users to folder"@,
{
    match admin_gate(admin_status) {
        Some(refusal) => Err(refusal),
        None => Ok(plan_additions(members, requested)),
    }
}

/// Decides a request to remove `user` from a folder whose members are
/// `members`: whether a membership is deleted, or, for a caller who is no
/// admin, the refusal. Removing a user who is not a member deletes nothing.
pub fn plan_remove_request(admin_status: bool, members: &Vec<i32>, user: i32) -> (r: Result<
    bool,
    Response<String>,
>)
    ensures
        admin_status <==> r is Ok,
        r matches Ok(deletes) ==> deletes == members@.contains(user),
        r matches Err(e) ==> !e.success && e.message@
            == "only admin allowed to add users to folder"@,
{
    match admin_gate(admin_status) {
        Some(refusal) => Err(refusal),
        None => Ok(holds(members, user)),
    }
}

/// Every id that `additions` yields was requested, is not yet a member, and
/// appears once.
pub proof fn lemma_additions_fresh(members: Seq<i32>, requested: Seq<i32>)
    ensures
        additions(members, requested).no_duplicates(),
        forall|k: int|
            0 <= k < additions(members, requested).len() ==> {
                &&& !members.contains(#[trigger] additions(members, requested)[k])
                &&& requested.contains(additions(members, requested)[k])
            },
    decreases requested.len(),
{
    if requested.len() > 0 {
        let rest = requested.drop_last();
        lemma_additions_fresh(members, rest);
        let before = additions(members, rest);
        assert forall|k: int| 0 <= k < before.len() implies requested.contains(
            #[trigger] before[k],
        ) by {
            let j = choose|j: int| 0 <= j < rest.len() && rest[j] == before[k];
            assert(requested[j] == before[k]);
        }
        assert(requested[requested.len() - 1] == requested.last());
    }
}

/// After the additions, every requested id is a member.
pub proof fn lemma_additions_cover(members: Seq<i32>, requested: Seq<i32>)
    ensures
        forall|x: i32|
            #[trigger] requested.contains(x) ==> members.contains(x) || additions(
                members,
                requested,
            ).contains(x),
    decreases requested.len(),
{
    if requested.len() > 0 {
        let rest = requested.drop_last();
        lemma_additions_cover(members, rest);
        let before = additions(members, rest);
        let after = additions(members, requested);
        assert forall|x: i32| #[trigger] requested.contains(x) implies members.contains(x)
            || after.contains(x) by {
            let j = choose|j: int| 0 <= j < requested.len() && requested[j] == x;
            if j < rest.len() {
                assert(rest[j] == x);
                assert(rest.contains(x));
                if before.contains(x) {
                    let k = choose|k: int| 0 <= k < before.len() && before[k] == x;
                    if !(members.contains(requested.last()) || before.contains(
                        requested.last(),
                    )) {
                        assert(after[k] == x);
                    }
                }
            } else {
                if !(members.contains(x) || before.contains(x)) {
                    assert(after[after.len() - 1] == x);
                }
            }
        }
    }
}

/// Requesting only ids that are already members adds nobody.
pub proof fn lemma_additions_of_members(members: Seq<i32>, requested: Seq<i32>)
    requires
        forall|x: i32| #[trigger] requested.contains(x) ==> members.contains(x),
    ensures
        additions(members, requested) == Seq::<i32>::empty(),
    decreases requested.len(),
{
    if requested.len() > 0 {
        let rest = requested.drop_last();
        assert forall|x: i32| #[trigger] rest.contains(x) implies members.contains(x) by {
            let j = choose|j: int| 0 <= j < rest.len() && rest[j] == x;
            assert(requested[j] == x);
            assert(requested.contains(x));
        }
        lemma_additions_of_members(members, rest);
        assert(requested.contains(requested[requested.len() - 1]));
    }
}

/// Adding the same users a second time changes nothing: once the first
/// request has been applied, the second one adds nobody.
pub proof fn lemma_re_add_adds_nobody(members: Seq<i32>, requested: Seq<i32>)
    ensures
        additions(members + additions(members, requested), requested) == Seq::<i32>::empty(),
{
    let fresh = additions(members, requested);
    let after = members + fresh;
    lemma_additions_cover(members, requested);
    assert forall|x: i32| #[trigger] requested.contains(x) implies after.contains(x) by {
        if members.contains(x) {
            let j = choose|j: int| 0 <= j < members.len() && members[j] == x;
            assert(after[j] == x);
        } else {
            let k = choose|k: int| 0 <= k < fresh.len() && fresh[k] == x;
            assert(after[members.len() + k] == x);
        }
    }
    lemma_additions_of_members(after, requested);
}

/// Removing a user who is not a member leaves the members as they were.
pub proof fn lemma_remove_non_member(members: Seq<i32>, user: i32)
    requires
        !members.contains(user),
    ensures
        without(members, user) == members,
    decreases members.len(),
{
    reveal(Seq::filter);
    if members.len() > 0 {
        let rest = members.drop_last();
        assert(members[members.len() - 1] == members.last());
        assert(!rest.contains(user)) by {
            if rest.contains(user) {
                let j = choose|j: int| 0 <= j < rest.len() && rest[j] == user;
                assert(members[j] == user);
            }
        }
        lemma_remove_non_member(rest, user);
        assert(rest.push(members.last()) =~= members);
    }
}

/// Once removed, a user is no longer a member, and every other member stays.
pub proof fn lemma_removed_user_is_gone(members: Seq<i32>, user: i32)
    ensures
        !without(members, user).contains(user),
        forall|x: i32|
            x != user ==> (#[trigger] without(members, user).contains(x) <==> members.contains(
                x,
            )),
{
    broadcast use Seq::lemma_filter_contains_rev;

    let w = without(members, user);
    let p = stays(user);
    assert forall|x: i32| x != user && members.contains(x) implies #[trigger] w.contains(x) by {
        let j = choose|j: int| 0 <= j < members.len() && members[j] == x;
        members.lemma_filter_contains(p, j);
    }
    if w.contains(user) {
        let k = choose|k: int| 0 <= k < w.len() && w[k] == user;
        members.lemma_filter_pred(p, k);
    }
}

} // verus!
