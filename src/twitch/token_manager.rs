//! The tokens of a running client, and their refresh.
use vstd::prelude::*;

use crate::twitch::auth::TokenResponse;
use crate::twitch::config::TokenConfig;
use crate::twitch::secret::Secret;

verus! {

/// The client id and the current tokens of a client.
pub struct TokenManager {
    pub client_id: Secret,
    pub access_token: Secret,
    pub refresh_token: Secret,
}

impl TokenManager {
    pub fn with_config(client_id: Secret, config: TokenConfig) -> (r: Self)
        ensures
            r.client_id == client_id,
            r.access_token == config.access_token,
            r.refresh_token == config.refresh_token,
    {
        TokenManager {
            client_id,
            access_token: config.access_token,
            refresh_token: config.refresh_token,
        }
    }

    pub fn access_token(&self) -> (r: &Secret)
        ensures
            *r == self.access_token,
    {
        &self.access_token
    }

    pub fn client_id(&self) -> (r: &Secret)
        ensures
            *r == self.client_id,
    {
        &self.client_id
    }

    /// Takes the tokens of a refresh: both are replaced, the client id stays.
    pub fn store_tokens(&mut self, res: TokenResponse)
        ensures
            final(self).client_id == old(self).client_id,
            final(self).access_token == res.access_token,
            final(self).refresh_token == res.refresh_token,
    {
        self.access_token = res.access_token;
        self.refresh_token = res.refresh_token;
    }
}

/// Refresh of the access token.
pub struct TokenRequest {
    pub client_id: Secret,
    /// Always `refresh_token`.
    pub grant_type: String,
    pub refresh_token: Secret,
}

} // verus!
