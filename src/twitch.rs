//! Data of the Twitch Helix and EventSub APIs: request builders, responses
//! and event payloads, as plain values.
pub mod auth;
pub mod channel;
pub mod chat;
pub mod config;
pub mod events;
pub mod follower;
pub mod notification;
pub mod pagination;
pub mod secret;
pub mod stream;
pub mod token_manager;
pub mod user;
