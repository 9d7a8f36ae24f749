//! EventSub: the payloads of the events subscribed to, their conditions, and
//! the subscription and transport records.
use vstd::prelude::*;

use crate::twitch::secret::Secret;

verus! {

/// A chat message in a channel.
pub struct ChatMessage {
    pub broadcaster_user_id: String,
    pub broadcaster_user_name: String,
    pub broadcaster_user_login: String,
    pub chatter_user_id: String,
    pub chatter_user_name: String,
    pub chatter_user_login: String,
    pub message_id: String,
    pub message: ChatMessageMessage,
    pub message_type: ChatMessageType,
    pub badges: Vec<ChatMessageBadge>,
    pub cheer: Option<ChatMessageCheer>,
    /// Hex color of the chatter's name; empty when none was chosen.
    pub color: String,
    pub reply: Option<ChatMessageReply>,
    pub channel_points_custom_reward_id: Option<String>,
    /// The fields from here on are set for messages of a shared chat session.
    pub source_broadcaster_user_id: Option<String>,
    pub source_broadcaster_user_name: Option<String>,
    pub source_broadcaster_user_login: Option<String>,
    pub source_message_id: Option<String>,
    pub source_badges: Option<ChatMessageSourceBadges>,
}

/// The text of a chat message, whole and in fragments.
pub struct ChatMessageMessage {
    pub text: String,
    pub fragments: Vec<ChatMessageFragment>,
}

/// One fragment of a chat message.
pub enum ChatMessageFragment {
    Text { text: String },
    Cheermote { text: String, cheermote: ChatMessageCheermote },
    Emote { text: String, emote: ChatMessageEmote },
    Mention { text: String, mention: ChatMessageMention },
}

impl ChatMessageFragment {
    pub open spec fn text_view(&self) -> Seq<char> {
        match self {
            ChatMessageFragment::Text { text } => text@,
            ChatMessageFragment::Cheermote { text, .. } => text@,
            ChatMessageFragment::Emote { text, .. } => text@,
            ChatMessageFragment::Mention { text, .. } => text@,
        }
    }

    /// The fragment's text, whatever its kind.
    pub fn text(&self) -> (r: &str)
        ensures
            r@ == self.text_view(),
    {
        match self {
            ChatMessageFragment::Text { text } => text.as_str(),
            ChatMessageFragment::Cheermote { text, .. } => text.as_str(),
            ChatMessageFragment::Emote { text, .. } => text.as_str(),
            ChatMessageFragment::Mention { text, .. } => text.as_str(),
        }
    }
}

pub struct ChatMessageCheermote {
    /// The cheermote string is the prefix followed by the bits.
    pub prefix: String,
    pub bits: u32,
    pub tier: u32,
}

pub struct ChatMessageEmote {
    pub id: String,
    pub emote_set_id: String,
    pub owner_id: String,
    pub format: Vec<ChatMessageEmoteFormat>,
}

pub struct ChatMessageMention {
    pub user_id: String,
    pub user_name: String,
    pub user_login: String,
}

pub struct ChatMessageBadge {
    pub set_id: String,
    pub id: String,
    pub info: String,
}

pub struct ChatMessageCheer {
    pub bits: u32,
}

pub struct ChatMessageReply {
    pub parent_message_id: String,
    pub parent_message_body: String,
    pub parent_user_id: String,
    pub parent_user_name: String,
    pub parent_user_login: String,
    pub thread_message_id: String,
    pub thread_user_id: String,
    pub thread_user_name: String,
    pub thread_user_login: String,
}

pub struct ChatMessageSourceBadges {
    pub set_id: String,
    pub id: String,
    pub info: String,
}

/// Condition of a chat message subscription: the channel, and the user
/// that reads it.
pub struct ChatMessageCondition {
    pub broadcaster_user_id: String,
    pub user_id: String,
}

#[derive(Clone, Copy, Debug, PartialEq, Eq, Structural)]
pub enum ChatMessageType {
    Text,
    ChannelPointsHighlighted,
    ChannelPointsSubOnly,
    UserIntro,
    PowerUpsMessageEffect,
    PowerUpsGigantifiedEmote,
}

#[derive(Clone, Copy, Debug, PartialEq, Eq, Structural)]
pub enum ChatMessageEmoteFormat {
    Animated,
    Static,
}

/// Condition of a follow subscription.
pub struct FollowCondition {
    pub broadcaster_user_id: String,
    pub moderator_user_id: String,
}

pub struct StreamOnlineCondition {
    pub broadcaster_user_id: String,
}

/// A stream went offline.
pub struct StreamOffline {
    pub broadcaster_user_id: String,
    pub broadcaster_user_login: String,
    pub broadcaster_user_name: String,
}

pub struct StreamOfflineCondition {
    pub broadcaster_user_id: String,
}

#[derive(Clone, Copy, Debug, PartialEq, Eq, Structural)]
pub enum StreamType {
    Live,
    Playlist,
    WatchParty,
    Premiere,
    Rerun,
}

/// How the notifications of a new subscription are delivered.
pub enum TransportRequest {
    WebHook { callback: Secret, secret: Secret },
    WebSocket { session_id: Secret },
    Conduit { conduit_id: Secret },
}

/// Query of Get EventSub Subscriptions; a field left out does not filter.
#[derive(Default)]
pub struct GetSubscriptionsRequest {
    pub status: Option<SubscriptionStatus>,
    pub type_: Option<String>,
    pub user_id: Option<String>,
    pub after: Option<String>,
}

pub struct DeleteSubscriptionRequest {
    pub id: Secret,
}

#[derive(Clone, Copy, Debug, PartialEq, Eq, Structural)]
pub enum SubscriptionStatus {
    Enabled,
    WebhookCallbackVerificationPending,
    WebhookCallbackVerificationFailed,
    NotificationFailuresExceeded,
    AuthorizationRevoked,
    ModeratorRemoved,
    UserRemoved,
    ChatUserBanned,
    VersionRemoved,
    BetaMaintenance,
    WebsocketDisconnected,
    WebsocketFailedPingPong,
    WebsocketReceivedInboundTraffic,
    WebsocketConnectionUnused,
    WebsocketInternalError,
    WebsocketNetworkTimeout,
    WebsocketNetworkError,
    WebsocketFailedToReconnect,
}

/// A keepalive message of the WebSocket session; it carries nothing.
pub struct SessionKeepaliveMessage {}

/// The transport of a notification.
pub struct TransportInfo {
    /// Always `websocket`.
    pub method: String,
    pub session_id: Secret,
}

} // verus!
