//! Get Channel Followers.
use vstd::prelude::*;

use crate::twitch::secret::Secret;

verus! {

/// Query of Get Channel Followers.
pub struct ChannelFollowersRequest {
    /// Only this user, if they follow.
    pub user_id: Option<String>,
    pub broadcaster_id: String,
    /// Page size.
    pub first: Option<usize>,
    pub after: Option<Secret>,
}

impl ChannelFollowersRequest {
    /// A query whose answer lists no follower but still carries the total:
    /// it asks for the user "-", which matches nobody, one per page.
    pub fn total_only(broadcaster_id: String) -> (r: Self)
        ensures
            r.user_id is Some && r.user_id->0@ == seq!['-'],
            r.broadcaster_id == broadcaster_id,
            r.first == Some(1usize),
            r.after is None,
    {
        let dash = String::from_str("-");
        proof {
            reveal_strlit("-");
        }
        ChannelFollowersRequest { user_id: Some(dash), broadcaster_id, first: Some(1), after: None }
    }
}

} // verus!
