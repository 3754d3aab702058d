//! Moderation: suspending and reinstating users, approving and rejecting
//! products.

use vstd::prelude::*;
use crate::error::{fail, is_failure, written_or, ApiError, DbError, ErrorKind};
use crate::ids::Id;
use crate::text::{owned, text_eq};

verus! {

/// What a moderator does to a user: `suspend` or `activate`.
#[derive(Clone, Debug, PartialEq, Eq)]
pub struct ModerateUserInput {
    pub user_id: Id,
    pub action: String,
}

/// What a moderator does to a product: `approve`, or anything else to
/// reject it.
#[derive(Clone, Debug, PartialEq, Eq)]
pub struct ModerateProductInput {
    pub product_id: Id,
    pub action: String,
}

/// The status that a moderation gave.
#[derive(Clone, Debug, PartialEq, Eq)]
pub struct Moderated {
    pub status: String,
}

/// The status that an action gives a user, where it is an action on users.
pub open spec fn user_status_for(action: Seq<char>) -> Option<Seq<char>> {
    if action == "suspend"@ {
        Some("suspended"@)
    } else if action == "activate"@ {
        Some("active"@)
    } else {
        None
    }
}

/// The status that an action gives a product: active for an approval,
/// rejected for anything else.
pub open spec fn product_status_for(action: Seq<char>) -> Seq<char> {
    if action == "approve"@ {
        "active"@
    } else {
        "rejected"@
    }
}

/// The status that the moderation gives the user; an action that is neither
/// `suspend` nor `activate` is invalid.
pub fn moderate_user(input: &ModerateUserInput) -> (r: Result<String, ApiError>)
    ensures
        match user_status_for(input.action@) {
            Some(status) => r matches Ok(given) && given@ == status,
            None => is_failure(r, ErrorKind::InvalidState, "invalid action"@),
        },
{
    if text_eq(input.action.as_str(), "suspend") {
        Ok(owned("suspended"))
    } else if text_eq(input.action.as_str(), "activate") {
        Ok(owned("active"))
    } else {
        fail(ErrorKind::InvalidState, "invalid action")
    }
}

/// The status that the moderation gives the product.
pub fn moderate_product(input: &ModerateProductInput) -> (r: String)
    ensures
        r@ == product_status_for(input.action@),
{
    if text_eq(input.action.as_str(), "approve") {
        owned("active")
    } else {
        owned("rejected")
    }
}

/// The answer to the moderator once the status was written, or was not.
pub fn moderated(status: String, written: Result<(), DbError>) -> (r: Result<Moderated, ApiError>)
    ensures
        match written {
            Ok(_) => r == Ok::<Moderated, ApiError>(Moderated { status }),
            Err(_) => is_failure(r, ErrorKind::Internal, "moderation failed"@),
        },
{
    match written_or(written, "moderation failed") {
        Ok(_) => Ok(Moderated { status }),
        Err(e) => Err(e),
    }
}

} // verus!
