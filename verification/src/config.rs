//! Configuration values and the flat list of trusted users.
//!
//! The surrounding program loads both from its configuration files and
//! writes the list back after a change; the logic of the list — lookup,
//! duplicate-free insertion, removal — lives here.

use vstd::prelude::*;

verus! {

/// The opaque credentials and identities a deployment runs with.
pub struct Config {
    pub telegram_bot_token: String,
    pub deepseek_api_token: String,
    pub superuser_uid: String,
}

/// The identities allowed to query, superuser aside.
pub struct TrustedUsers {
    pub trusted_users: Vec<String>,
}

/// Whether some entry of the list reads as `uid`.
pub open spec fn contains_uid(users: Seq<String>, uid: Seq<char>) -> bool {
    exists|j: int| 0 <= j < users.len() && users[j]@ == uid
}

/// The position of the first entry reading as `uid`, or -1 when none does.
pub open spec fn first_index(users: Seq<String>, uid: Seq<char>) -> int
    decreases users.len(),
{
    if users.len() == 0 {
        -1
    } else if users[0]@ == uid {
        0
    } else {
        let rest = first_index(users.drop_first(), uid);
        if rest == -1 {
            -1
        } else {
            rest + 1
        }
    }
}

/// A match at `i` behind a match-free prefix is the first match.
proof fn lemma_first_index_at(users: Seq<String>, uid: Seq<char>, i: int)
    requires
        0 <= i < users.len(),
        users[i]@ == uid,
        forall|j: int| 0 <= j < i ==> users[j]@ != uid,
    ensures
        first_index(users, uid) == i,
    decreases i,
{
    if i > 0 {
        let rest = users.drop_first();
        assert forall|j: int| 0 <= j < i - 1 implies rest[j]@ != uid by {
            assert(rest[j] == users[j + 1]);
        }
        assert(rest[i - 1] == users[i]);
        lemma_first_index_at(rest, uid, i - 1);
    }
}

/// Tells whether `uid` stands in the list.
pub fn contains_user(users: &Vec<String>, uid: &String) -> (r: bool)
    ensures
        r == contains_uid(users@, uid@),
{
    let n = users.len();
    let mut i: usize = 0;
    while i < n
        invariant
            i <= n,
            n == users@.len(),
            forall|j: int| 0 <= j < i ==> users@[j]@ != uid@,
        decreases n - i,
    {
        if users[i] == *uid {
            return true;
        }
        i = i + 1;
    }
    false
}

/// Grants `uid`: appends it to the list unless it already stands there,
/// so granting twice changes nothing.
pub fn add_trusted_user(users: &mut TrustedUsers, uid: String)
    ensures
        contains_uid(old(users).trusted_users@, uid@) ==> final(users).trusted_users@ == old(
            users,
        ).trusted_users@,
        !contains_uid(old(users).trusted_users@, uid@) ==> final(users).trusted_users@ == old(
            users,
        ).trusted_users@.push(uid),
        contains_uid(final(users).trusted_users@, uid@),
{
    if !contains_user(&users.trusted_users, &uid) {
        let ghost prior = users.trusted_users@;
        users.trusted_users.push(uid);
        proof {
            assert(users.trusted_users@[prior.len() as int]@ == prior.push(uid)[prior.len() as int]@);
        }
    }
}

/// Revokes `uid`: removes its first occurrence from the list, and leaves
/// a list without it unchanged.
pub fn del_trusted_user(users: &mut TrustedUsers, uid: String)
    ensures
        !contains_uid(old(users).trusted_users@, uid@) ==> final(users).trusted_users@ == old(
            users,
        ).trusted_users@,
        contains_uid(old(users).trusted_users@, uid@) ==> final(users).trusted_users@ == old(
            users,
        ).trusted_users@.remove(first_index(old(users).trusted_users@, uid@)),
{
    let n = users.trusted_users.len();
    let mut i: usize = 0;
    while i < n
        invariant
            i <= n,
            n == users.trusted_users@.len(),
            users.trusted_users@ == old(users).trusted_users@,
            forall|j: int| 0 <= j < i ==> users.trusted_users@[j]@ != uid@,
        decreases n - i,
    {
        if users.trusted_users[i] == uid {
            proof {
                lemma_first_index_at(users.trusted_users@, uid@, i as int);
            }
            users.trusted_users.remove(i);
            return ;
        }
        i = i + 1;
    }
}

} // verus!
