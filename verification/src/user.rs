//! Caller identity and the permission gate in front of the pipeline.

use vstd::prelude::*;

use crate::config::Config;
use crate::config::TrustedUsers;
use crate::config::contains_uid;
use crate::config::contains_user;

verus! {

/// What a caller is allowed: the superuser may also grant, a user may
/// query, anyone else may do nothing.
#[derive(Clone, Copy, PartialEq, Eq, Structural)]
pub enum Role {
    SuperUser,
    User,
    Untrusted,
}

/// The role an identity holds: the configured superuser outranks the
/// trusted list, a listed identity is a user, all others are untrusted.
pub open spec fn role_of(superuser: Seq<char>, trusted: Seq<String>, uid: Seq<char>) -> Role {
    if uid == superuser {
        Role::SuperUser
    } else if contains_uid(trusted, uid) {
        Role::User
    } else {
        Role::Untrusted
    }
}

/// Looks an identity up: the configuration's superuser first, then the
/// trusted list, read fresh on every check.
pub fn check_uid(config: &Config, trusted: &TrustedUsers, uid: &String) -> (r: Role)
    ensures
        r == role_of(config.superuser_uid@, trusted.trusted_users@, uid@),
{
    if *uid == config.superuser_uid {
        Role::SuperUser
    } else if contains_user(&trusted.trusted_users, uid) {
        Role::User
    } else {
        Role::Untrusted
    }
}

/// Whether an identity may query at all: any role above untrusted.
pub fn check_user_valid(config: &Config, trusted: &TrustedUsers, uid: &String) -> (r: bool)
    ensures
        r == !(role_of(config.superuser_uid@, trusted.trusted_users@, uid@) is Untrusted),
{
    let role = check_uid(config, trusted, uid);
    match role {
        Role::Untrusted => false,
        _ => true,
    }
}

} // verus!
