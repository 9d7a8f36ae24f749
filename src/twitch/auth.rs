//! Device code authorization: the requests and responses, and the scopes
//! asked for.
use vstd::prelude::*;

use crate::twitch::secret::Secret;

verus! {

/// The `auth` command of the command line; it takes no arguments.
pub struct Auth {}

/// Start of a device code flow.
pub struct DeviceRequest {
    pub client_id: Secret,
    pub scopes: Scopes,
}

pub struct DeviceResponse {
    pub device_code: Secret,
    /// Seconds until the device code expires.
    pub expires_in: u32,
    /// Seconds to wait between polls.
    pub interval: u32,
    pub user_code: Secret,
    /// Where the user confirms the code.
    pub verification_uri: Secret,
}

/// Exchange of a confirmed device code for tokens.
pub struct TokenRequest {
    pub client_id: Secret,
    pub scopes: Scopes,
    pub device_code: Secret,
    /// Always the device code grant type.
    pub grant_type: String,
}

pub struct TokenResponse {
    pub access_token: Secret,
    /// Seconds until the access token expires.
    pub expires_in: u32,
    pub refresh_token: Secret,
    pub scope: Vec<Scope>,
    pub token_type: String,
}

/// A permission that a token may be given.
#[derive(Clone, Copy, Debug, PartialEq, Eq, Structural)]
pub enum Scope {
    UserReadChat,
    UserWriteChat,
    ModeratorManageAnnouncements,
    ModeratorReadFollowers,
}

pub open spec fn scope_name(s: Scope) -> Seq<char> {
    match s {
        Scope::UserReadChat => "user:read:chat"@,
        Scope::UserWriteChat => "user:write:chat"@,
        Scope::ModeratorManageAnnouncements => "moderator:manage:announcements"@,
        Scope::ModeratorReadFollowers => "moderator:read:followers"@,
    }
}

/// The names of `scopes`, separated by single spaces.
pub open spec fn joined_scopes(scopes: Seq<Scope>) -> Seq<char>
    decreases scopes.len(),
{
    if scopes.len() == 0 {
        seq![]
    } else if scopes.len() == 1 {
        scope_name(scopes[0])
    } else {
        joined_scopes(scopes.drop_last()) + seq![' '] + scope_name(scopes.last())
    }
}

impl Scope {
    /// The name of the scope in the API.
    pub fn to_str(self) -> (r: &'static str)
        ensures
            r@ == scope_name(self),
    {
        match self {
            Scope::UserReadChat => "user:read:chat",
            Scope::UserWriteChat => "user:write:chat",
            Scope::ModeratorManageAnnouncements => "moderator:manage:announcements",
            Scope::ModeratorReadFollowers => "moderator:read:followers",
        }
    }
}

/// The scopes asked for, in order.
pub struct Scopes(pub Vec<Scope>);

impl Scopes {
    pub fn from_vec(scopes: Vec<Scope>) -> (r: Self)
        ensures
            r.0@ == scopes@,
    {
        Scopes(scopes)
    }

    /// The scopes as the API takes them: their names separated by spaces.
    pub fn to_param(&self) -> (r: String)
        ensures
            r@ == joined_scopes(self.0@),
    {
        let n = self.0.len();
        if n == 0 {
            return String::new();
        }
        let mut out = String::from_str(self.0[0].to_str());
        proof {
            assert(self.0@.subrange(0, 1) =~= seq![self.0@[0]]);
        }
        let mut k: usize = 1;
        while k < n
            invariant
                n == self.0@.len(),
                1 <= k <= n,
                out@ == joined_scopes(self.0@.subrange(0, k as int)),
            decreases n - k,
        {
            let ghost before = out@;
            out.append(" ");
            out.append(self.0[k].to_str());
            proof {
                reveal_strlit(" ");
                let next = self.0@.subrange(0, k + 1);
                assert(next.drop_last() =~= self.0@.subrange(0, k as int));
                assert(next.last() == self.0@[k as int]);
                assert(out@ =~= joined_scopes(next));
            }
            k += 1;
        }
        proof {
            assert(self.0@.subrange(0, n as int) =~= self.0@);
        }
        out
    }
}

} // verus!
