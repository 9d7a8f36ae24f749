//! Get Channel Information.
use vstd::prelude::*;

use crate::twitch::pagination::take_single;

verus! {

/// Query of Get Channel Information for one broadcaster.
#[derive(Debug)]
pub struct ChannelsRequest {
    pub broadcaster_id: String,
}

impl ChannelsRequest {
    pub fn id(id: String) -> (r: Self)
        ensures
            r.broadcaster_id == id,
    {
        ChannelsRequest { broadcaster_id: id }
    }
}

/// Response of Get Channel Information; empty when the channel was not found.
pub struct ChannelsResponse {
    pub data: Vec<Channel>,
}

impl ChannelsResponse {
    /// The one channel asked for, if found.
    pub fn into_channel(self) -> (r: Option<Channel>)
        requires
            self.data@.len() <= 1,
        ensures
            r == if self.data@.len() == 0 {
                None
            } else {
                Some(self.data@[0])
            },
    {
        take_single(self.data)
    }
}

#[derive(Debug)]
pub struct Channel {
    pub broadcaster_id: String,
    pub broadcaster_login: String,
    pub broadcaster_name: String,
    /// ISO 639-1 code, or "other".
    pub broadcaster_language: String,
    /// Empty when the broadcaster never played a game.
    pub game_name: String,
    pub game_id: String,
    pub title: String,
    /// Stream delay in seconds.
    pub delay: u32,
    pub tags: Vec<String>,
    pub content_classification_labels: Vec<String>,
    pub is_branded_content: bool,
}

} // verus!
