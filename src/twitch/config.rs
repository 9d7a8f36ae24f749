//! The client id and the tokens, as kept in the configuration files.
use vstd::prelude::*;

use crate::twitch::secret::Secret;

verus! {

/// The application's client id.
pub struct ClientConfig {
    pub client_id: Secret,
}

/// The user's tokens.
pub struct TokenConfig {
    pub access_token: Secret,
    pub refresh_token: Secret,
}

} // verus!
