//! Chat colors, sending chat messages and announcements.
use vstd::prelude::*;

use crate::twitch::pagination::take_single;

verus! {

/// Query of Get User Chat Color for one user.
#[derive(Debug)]
pub struct ChatColorsRequest {
    pub user_id: String,
}

impl ChatColorsRequest {
    pub fn id(id: String) -> (r: Self)
        ensures
            r.user_id == id,
    {
        ChatColorsRequest { user_id: id }
    }
}

pub struct ChatColorsResponse {
    pub data: Vec<ChatColor>,
}

impl ChatColorsResponse {
    /// The one user's color, if found.
    pub fn into_chat_color(self) -> (r: Option<ChatColor>)
        requires
            self.data@.len() <= 1,
        ensures
            r == if self.data@.len() == 0 {
                None
            } else {
                Some(self.data@[0])
            },
    {
        take_single(self.data)
    }
}

#[derive(Debug)]
pub struct ChatColor {
    pub user_id: String,
    pub user_login: String,
    pub user_name: String,
    /// Hex color code; empty when the user chose none.
    pub color: String,
}

/// Body of Send Chat Message.
#[derive(Debug)]
pub struct SendChatMessageRequest {
    pub broadcaster_id: String,
    /// Must be the user of the access token.
    pub sender_id: String,
    /// At most 500 characters.
    pub message: String,
    pub reply_parent_message_id: Option<String>,
}

pub struct SendChatMessagesResponse {
    pub data: Vec<SentChatMessage>,
}

impl SendChatMessagesResponse {
    /// The one message sent.
    pub fn into_chat_message(self) -> (r: Option<SentChatMessage>)
        requires
            self.data@.len() <= 1,
        ensures
            r == if self.data@.len() == 0 {
                None
            } else {
                Some(self.data@[0])
            },
    {
        take_single(self.data)
    }
}

#[derive(Debug)]
pub struct SentChatMessage {
    pub message_id: String,
    pub is_sent: bool,
    pub drop_reason: Option<SentChatMessageDropReason>,
}

#[derive(Debug)]
pub struct SentChatMessageDropReason {
    pub code: String,
    pub message: String,
}

/// Send Chat Announcement: the two ids go in the query, the rest in the body.
#[derive(Debug)]
pub struct SendChatAnnouncementRequest {
    pub broadcaster_id: String,
    pub moderator_id: String,
    /// Truncated by the API past 500 characters.
    pub message: String,
    pub color: ChatAnnouncementColor,
}

/// The highlight of an announcement; primary is the channel's accent color.
#[derive(Clone, Copy, Debug, PartialEq, Eq, Structural)]
pub enum ChatAnnouncementColor {
    Blue,
    Green,
    Orange,
    Purple,
    Primary,
}

impl Default for ChatAnnouncementColor {
    fn default() -> (r: Self)
        ensures
            r == ChatAnnouncementColor::Primary,
    {
        ChatAnnouncementColor::Primary
    }
}

} // verus!
