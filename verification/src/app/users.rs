//! The account of the signed-in user.
use vstd::prelude::*;
use crate::models::users::{UsersLimitResponse, UsersResponse};

verus! {

/// The account actions (sign-out, device sign-in, the account and its limits); they are
/// requests to the API, made by the caller.
pub struct Users;

/// The user and their storage limit, kept together.
#[derive(Debug, Clone)]
pub struct UsersInfo {
    /// The user
    pub user: UsersResponse,
    /// The storage limit
    pub limit: UsersLimitResponse,
}

impl UsersInfo {
    /// Puts a user and their limit together.
    pub fn from_parts(user: UsersResponse, limit: UsersLimitResponse) -> (r: UsersInfo)
        ensures
            r.user == user,
            r.limit == limit,
    {
        UsersInfo { user, limit }
    }
}

} // verus!
