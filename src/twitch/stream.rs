//! Get Streams.
use vstd::prelude::*;

use crate::twitch::secret::Secret;

verus! {

/// Query of Get Streams; a field left out does not filter.
pub struct StreamsRequest {
    pub user_id: Option<String>,
    pub user_login: Option<String>,
    pub game_id: Option<String>,
    /// "all" or "live"; all when left out.
    pub type_: Option<&'static str>,
    pub language: Option<String>,
    pub first: Option<u32>,
    pub before: Option<Secret>,
    pub after: Option<Secret>,
}

impl StreamsRequest {
    /// The stream of one user, if live.
    pub fn user_id(user_id: String) -> (r: Self)
        ensures
            r.user_id == Some(user_id),
            r.user_login is None,
            r.game_id is None,
            r.type_ is None,
            r.language is None,
            r.first is None,
            r.before is None,
            r.after is None,
    {
        StreamsRequest {
            user_id: Some(user_id),
            user_login: None,
            game_id: None,
            type_: None,
            language: None,
            first: None,
            before: None,
            after: None,
        }
    }
}

} // verus!
