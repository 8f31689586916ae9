//! Owner and group names.

use crate::text::decimal;
use crate::text::decimal_string;
use nix::errno::Errno;
use nix::unistd::Gid;
use nix::unistd::Group;
use nix::unistd::Uid;
use nix::unistd::User;
use vstd::prelude::*;

verus! {

/// The error of a failed query of the system's identity databases.
#[verifier::external_type_specification]
#[verifier::external_body]
pub struct ExErrno(Errno);

/// The name shown for the owner with numeric id `id`, given the outcome of
/// looking the id up: the name that was found, and the id as a decimal
/// numeral when there is no entry or the lookup failed.
pub open spec fn resolved_name(found: Option<Seq<char>>, id: u32) -> Seq<char> {
    match found {
        Some(name) => name,
        None => decimal(id as nat),
    }
}

/// The name that a lookup brought, if it brought one.
pub open spec fn found_name(lookup: Result<Option<String>, Errno>) -> Option<Seq<char>> {
    match lookup {
        Ok(Some(name)) => Some(name@),
        _ => None,
    }
}

/// Looks a user id up with `nix`'s `User::from_uid` and hands back the
/// name of the entry. The answer depends on the system's user database.
#[verifier::external_body]
pub(crate) fn lookup_user(uid: u32) -> (r: Result<Option<String>, Errno>) {
    match User::from_uid(Uid::from_raw(uid)) {
        Ok(Some(user)) => Ok(Some(user.name)),
        Ok(None) => Ok(None),
        Err(errno) => Err(errno),
    }
}

/// Looks a group id up with `nix`'s `Group::from_gid` and hands back the
/// name of the entry. The answer depends on the system's group database.
#[verifier::external_body]
pub(crate) fn lookup_group(gid: u32) -> (r: Result<Option<String>, Errno>) {
    match Group::from_gid(Gid::from_raw(gid)) {
        Ok(Some(group)) => Ok(Some(group.name)),
        Ok(None) => Ok(None),
        Err(errno) => Err(errno),
    }
}

/// Decides the name to show from the outcome of a lookup.
pub fn owner_name(lookup: Result<Option<String>, Errno>, id: u32) -> (r: String)
    ensures
        r@ == resolved_name(found_name(lookup), id),
{
    match lookup {
        Ok(Some(name)) => name,
        _ => decimal_string(id as u128),
    }
}

} // verus!
