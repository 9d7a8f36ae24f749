//! Get Users: who a user is, by id or login, or the token's own user.
use vstd::prelude::*;

use crate::twitch::pagination::take_single;
use crate::twitch::secret::Secret;

verus! {

/// Query of Get Users: by id, by login, or neither for the token's user.
#[derive(Debug)]
pub struct UsersRequest {
    pub id: Option<String>,
    pub login: Option<String>,
}

impl UsersRequest {
    /// The user that the access token belongs to.
    pub fn me() -> (r: Self)
        ensures
            r.id is None,
            r.login is None,
    {
        UsersRequest { id: None, login: None }
    }

    pub fn id(id: String) -> (r: Self)
        ensures
            r.id == Some(id),
            r.login is None,
    {
        UsersRequest { id: Some(id), login: None }
    }

    pub fn login(login: String) -> (r: Self)
        ensures
            r.id is None,
            r.login == Some(login),
    {
        UsersRequest { id: None, login: Some(login) }
    }
}

/// Response of Get Users.
pub struct UsersResponse {
    pub data: Vec<User>,
}

impl UsersResponse {
    /// The one user asked for, if found. A request names at most one user,
    /// so the response holds at most one.
    pub fn into_user(self) -> (r: Option<User>)
        requires
            self.data@.len() <= 1,
        ensures
            r == if self.data@.len() == 0 {
                None
            } else {
                Some(self.data@[0])
            },
    {
        take_single(self.data)
    }
}

pub struct User {
    pub id: String,
    pub login: String,
    pub display_name: String,
    pub type_: UserType,
    pub broadcaster_type: BroadcasterType,
    pub description: String,
    pub profile_image_url: String,
    pub offline_image_url: String,
    /// Deprecated by the API: its value is not valid.
    pub view_count: u64,
    /// Present only with the `user:read:email` scope.
    pub email: Option<Secret>,
    /// RFC 3339 time of the account's creation.
    pub created_at: String,
}

#[derive(Clone, Copy, Debug, PartialEq, Eq, Structural)]
pub enum UserType {
    Normal,
    Staff,
    GlobalMod,
    Admin,
}

#[derive(Clone, Copy, Debug, PartialEq, Eq, Structural)]
pub enum BroadcasterType {
    Normal,
    Affiliate,
    Partner,
}

} // verus!
