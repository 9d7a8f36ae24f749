use twitch_tools::twitch::auth::{Scope, Scopes};
use twitch_tools::twitch::channel::{Channel, ChannelsRequest, ChannelsResponse};
use twitch_tools::twitch::chat::{
    ChatAnnouncementColor, ChatColor, ChatColorsRequest, ChatColorsResponse,
    SendChatMessagesResponse, SentChatMessage,
};
use twitch_tools::twitch::config::TokenConfig;
use twitch_tools::twitch::events::{ChatMessageFragment, ChatMessageMention};
use twitch_tools::twitch::follower::ChannelFollowersRequest;
use twitch_tools::twitch::secret::Secret;
use twitch_tools::twitch::stream::StreamsRequest;
use twitch_tools::twitch::token_manager::TokenManager;
use twitch_tools::twitch::user::UsersRequest;

#[test]
fn scopes_join_with_spaces() {
    assert_eq!(Scopes::from_vec(vec![]).to_param(), "");
    assert_eq!(Scopes::from_vec(vec![Scope::UserReadChat]).to_param(), "user:read:chat");
    assert_eq!(
        Scopes::from_vec(vec![
            Scope::UserReadChat,
            Scope::UserWriteChat,
            Scope::ModeratorManageAnnouncements,
            Scope::ModeratorReadFollowers,
        ])
        .to_param(),
        "user:read:chat user:write:chat moderator:manage:announcements moderator:read:followers"
    );
}

#[test]
fn users_request_builders() {
    let me = UsersRequest::me();
    assert_eq!((me.id, me.login), (None, None));
    let by_id = UsersRequest::id("1234".to_string());
    assert_eq!((by_id.id.as_deref(), by_id.login), (Some("1234"), None));
    let by_login = UsersRequest::login("foo".to_string());
    assert_eq!((by_login.id, by_login.login.as_deref()), (None, Some("foo")));
}

#[test]
fn followers_total_only() {
    let r = ChannelFollowersRequest::total_only("42".to_string());
    assert_eq!(r.user_id.as_deref(), Some("-"));
    assert_eq!(r.broadcaster_id, "42");
    assert_eq!(r.first, Some(1));
    assert!(r.after.is_none());
}

#[test]
fn streams_request_by_user() {
    let r = StreamsRequest::user_id("99".to_string());
    assert_eq!(r.user_id.as_deref(), Some("99"));
    assert!(r.user_login.is_none() && r.game_id.is_none() && r.type_.is_none());
    assert!(r.language.is_none() && r.first.is_none());
    assert!(r.before.is_none() && r.after.is_none());
}

fn channel(id: &str) -> Channel {
    Channel {
        broadcaster_id: id.to_string(),
        broadcaster_login: "login".to_string(),
        broadcaster_name: "name".to_string(),
        broadcaster_language: "en".to_string(),
        game_name: String::new(),
        game_id: String::new(),
        title: "title".to_string(),
        delay: 0,
        tags: vec![],
        content_classification_labels: vec![],
        is_branded_content: false,
    }
}

#[test]
fn single_results() {
    assert_eq!(ChannelsRequest::id("7".to_string()).broadcaster_id, "7");
    assert!(ChannelsResponse { data: vec![] }.into_channel().is_none());
    let found = ChannelsResponse { data: vec![channel("7")] }.into_channel();
    assert_eq!(found.map(|c| c.broadcaster_id), Some("7".to_string()));

    assert_eq!(ChatColorsRequest::id("8".to_string()).user_id, "8");
    let color = ChatColor {
        user_id: "8".to_string(),
        user_login: "l".to_string(),
        user_name: "n".to_string(),
        color: "#FF0000".to_string(),
    };
    let got = ChatColorsResponse { data: vec![color] }.into_chat_color();
    assert_eq!(got.map(|c| c.color), Some("#FF0000".to_string()));

    let sent = SentChatMessage { message_id: "m".to_string(), is_sent: true, drop_reason: None };
    let got = SendChatMessagesResponse { data: vec![sent] }.into_chat_message();
    assert_eq!(got.map(|m| (m.message_id, m.is_sent)), Some(("m".to_string(), true)));
}

#[test]
fn fragment_text_of_every_kind() {
    let text = ChatMessageFragment::Text { text: "hello".to_string() };
    assert_eq!(text.text(), "hello");
    let mention = ChatMessageFragment::Mention {
        text: "@bob".to_string(),
        mention: ChatMessageMention {
            user_id: "1".to_string(),
            user_name: "Bob".to_string(),
            user_login: "bob".to_string(),
        },
    };
    assert_eq!(mention.text(), "@bob");
}

#[test]
fn secrets_and_tokens() {
    let s = Secret::new("abc".to_string());
    assert_eq!(s.access_secret_value(), "abc");
    assert_eq!(s.bearer().secret().access_secret_value(), "abc");
    assert_eq!(s.masked(), "***");
    assert_eq!(Secret::new(String::new()).masked(), "");
    assert_eq!(Secret::new("é1".to_string()).masked(), "***");

    let config = TokenConfig {
        access_token: Secret::new("access".to_string()),
        refresh_token: Secret::new("refresh".to_string()),
    };
    let tm = TokenManager::with_config(Secret::new("client".to_string()), config);
    assert_eq!(tm.access_token().access_secret_value(), "access");
    assert_eq!(tm.client_id().access_secret_value(), "client");
    assert_eq!(tm.refresh_token.access_secret_value(), "refresh");
}

#[test]
fn announcement_color_defaults_to_primary() {
    assert_eq!(ChatAnnouncementColor::default(), ChatAnnouncementColor::Primary);
}
