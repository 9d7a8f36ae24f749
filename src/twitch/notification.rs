//! Chat notifications: subscriptions, gifts, raids, announcements and the
//! like, as they appear in a channel's chat.
use vstd::prelude::*;

use crate::twitch::chat::ChatAnnouncementColor;
use crate::twitch::events::{ChatMessageBadge, ChatMessageMessage};

verus! {

pub struct ChatNotification {
    pub broadcaster_user_id: String,
    pub broadcaster_user_name: String,
    pub broadcaster_user_login: String,
    pub chatter_user_id: String,
    pub chatter_user_name: String,
    pub chatter_is_anonymous: bool,
    pub color: String,
    pub badges: Vec<ChatMessageBadge>,
    /// The message Twitch shows for the notification.
    pub system_message: String,
    pub message_id: String,
    /// What the user wrote along with the notification.
    pub message: ChatMessageMessage,
    pub notice_type: ChatNotificationType,
    /// The fields from here on are set for notifications of a shared chat
    /// session.
    pub source_broadcaster_user_id: Option<String>,
    pub source_broadcaster_user_name: Option<String>,
    pub source_broadcaster_user_login: Option<String>,
    pub source_message_id: Option<String>,
    pub source_badges: Option<Vec<ChatMessageBadge>>,
}

/// Condition of a chat notification subscription.
pub struct ChatNotificationCondition {
    pub broadcaster_user_id: String,
    pub user_id: String,
}

/// The kind of a notification, with its details; the shared chat kinds
/// come from another channel of a shared chat session.
pub enum ChatNotificationType {
    Sub { sub: ChatNotificationSub },
    Resub { resub: ChatNotificationResub },
    SubGift { sub_gift: ChatNotificationSubGift },
    CommunitySubGift { community_sub_gift: ChatNotificationCommunitySubGift },
    GiftPaidUpgrade { gift_paid_upgrade: ChatNotificationGiftPaidUpgrade },
    PrimePaidUpgrade { prime_paid_upgrade: ChatNotificationPrimePaidUpgrade },
    Raid { raid: ChatNotificationRaid },
    Unraid { unraid: ChatNotificationUnraid },
    PayItForward { pay_it_forward: ChatNotificationPayItForward },
    Announcement { announcement: ChatNotificationAnnouncement },
    BitsBadgeTier { bits_badge_tier: ChatNotificationBitsBadgeTier },
    CharityDonation { charity_donation: ChatNotificationCharityDonation },
    SharedChatSub { shared_chat_sub: ChatNotificationSub },
    SharedChatResub { shared_chat_resub: ChatNotificationResub },
    SharedChatSubGift { shared_chat_sub_gift: ChatNotificationSubGift },
    SharedChatCommunitySubGift { shared_chat_community_sub_gift: ChatNotificationCommunitySubGift },
    SharedChatGiftPaidUpgrade { shared_chat_gift_paid_upgrade: ChatNotificationGiftPaidUpgrade },
    SharedChatPrimePaidUpgrade { shared_chat_prime_paid_upgrade: ChatNotificationPrimePaidUpgrade },
    SharedChatRaid { shared_chat_raid: ChatNotificationRaid },
    SharedChatPayItForward { shared_chat_pay_it_forward: ChatNotificationPayItForward },
    SharedChatAnnouncement { shared_chat_announcement: ChatNotificationAnnouncement },
}

pub struct ChatNotificationSub {
    pub sub_tier: SubTier,
    pub is_prime: bool,
    pub duration_months: u32,
}

pub struct ChatNotificationResub {
    pub cumulative_months: u32,
    pub duration_months: u32,
    pub streak_months: u32,
    pub sub_tier: SubTier,
    pub is_prime: bool,
    pub is_gift: bool,
    pub gifter_is_anonymous: bool,
    pub gifter_user_id: String,
    pub gifter_user_name: String,
    pub gifter_user_login: Option<String>,
}

pub struct ChatNotificationSubGift {
    pub duration_months: u32,
    /// Left out when the gifter is anonymous or chose not to share it.
    pub cumulative_total: Option<u32>,
    pub recipient_user_id: String,
    pub recipient_user_name: String,
    pub recipient_user_login: String,
    pub sub_tier: SubTier,
    pub community_gift_id: Option<String>,
}

pub struct ChatNotificationCommunitySubGift {
    pub id: String,
    pub total: u32,
    pub sub_tier: SubTier,
    pub cumulative_total: Option<u32>,
}

pub struct ChatNotificationGiftPaidUpgrade {
    pub gifter_is_anonymous: bool,
    pub gifter_user_id: Option<String>,
    pub gifter_user_name: Option<String>,
}

pub struct ChatNotificationPrimePaidUpgrade {
    pub sub_tier: SubTier,
}

/// The tier of a subscription.
#[derive(Clone, Copy, Debug, PartialEq, Eq, Structural)]
pub enum SubTier {
    FirstLevel,
    SecondLevel,
    ThirdLevel,
}

pub struct ChatNotificationRaid {
    pub user_id: String,
    pub user_name: String,
    pub user_login: String,
    pub viewer_count: u32,
    pub profile_image_url: String,
}

/// A raid was cancelled; it carries nothing.
pub struct ChatNotificationUnraid {}

pub struct ChatNotificationPayItForward {
    pub gifter_is_anonymous: bool,
    pub gifter_user_id: String,
    pub gifter_user_name: Option<String>,
    pub gifter_user_login: String,
}

pub struct ChatNotificationAnnouncement {
    pub color: ChatAnnouncementColor,
}

pub struct ChatNotificationBitsBadgeTier {
    pub tier: u32,
}

pub struct ChatNotificationCharityDonation {
    pub charity_name: String,
    pub amount: ChatNotificationCharityDonationAmount,
}

/// An amount of money: `value` in units of `10^-decimal_place` of the
/// currency.
pub struct ChatNotificationCharityDonationAmount {
    pub value: u32,
    pub decimal_place: u32,
    /// ISO 4217 code.
    pub currency: String,
}

} // verus!
