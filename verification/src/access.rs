//! Access control: who may initialize the ledger and who may admit members.

use vstd::prelude::*;
use crate::address::{Address, AuthenticatedCaller};
use crate::error::DaoError;

verus! {

/// The highest voting threshold: a percentage.
pub const MAX_THRESHOLD: u32 = 100;

/// Whether the ledger can be initialized: no admin may be recorded yet, and the
/// threshold must be a percentage. A recorded admin is reported first.
pub open spec fn initialization_check(admin_recorded: bool, threshold: nat) -> Result<(), DaoError> {
    if admin_recorded {
        Err(DaoError::AlreadyInitialized)
    } else if threshold > MAX_THRESHOLD {
        Err(DaoError::InvalidThreshold)
    } else {
        Ok(())
    }
}

/// Whether `caller` may act as admin: only the recorded admin may.
pub open spec fn admin_check(admin: Option<Seq<char>>, caller: Seq<char>) -> Result<(), DaoError> {
    if admin == Some(caller) {
        Ok(())
    } else {
        Err(DaoError::Unauthorized)
    }
}

/// Whether a voter may vote: only a member may.
pub open spec fn member_check(is_member: bool) -> Result<(), DaoError> {
    if is_member {
        Ok(())
    } else {
        Err(DaoError::Unauthorized)
    }
}

/// The text of the recorded admin's key, if an admin is recorded.
pub open spec fn admin_view(admin: Option<&Address>) -> Option<Seq<char>> {
    match admin {
        Some(address) => Some(address@),
        None => None,
    }
}

/// Checks that the ledger can be initialized with this threshold.
pub fn check_initialize(admin_recorded: bool, voting_threshold: u32) -> (outcome: Result<
    (),
    DaoError,
>)
    ensures
        outcome == initialization_check(admin_recorded, voting_threshold as nat),
{
    if admin_recorded {
        Err(DaoError::AlreadyInitialized)
    } else if voting_threshold > MAX_THRESHOLD {
        Err(DaoError::InvalidThreshold)
    } else {
        Ok(())
    }
}

/// Checks that the authenticated caller is the recorded admin.
pub fn check_admin(admin: Option<&Address>, caller: &AuthenticatedCaller) -> (outcome: Result<
    (),
    DaoError,
>)
    ensures
        outcome == admin_check(admin_view(admin), caller@),
{
    match admin {
        Some(recorded) => {
            if *recorded == *caller.address() {
                Ok(())
            } else {
                Err(DaoError::Unauthorized)
            }
        },
        None => Err(DaoError::Unauthorized),
    }
}

} // verus!
