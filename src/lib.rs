//! Playback core for short sound effects, and the logic of the chat and todo
//! tools built around it.
//!
//! The core holds the decisions of a mixing loop that overlaps any number of
//! triggered sounds into one paced stream of chunks: `mixer` (playing set,
//! mix plan, trigger protocol), `pacing` (drift-free deadlines), `decode`
//! (what a decoder may hand over), `channels` (the output's channel map) and
//! `output` (trigger checks and errors).
pub mod channels;
pub mod chat_view;
pub mod decode;
pub mod mixer;
pub mod output;
pub mod pacing;
pub mod routing;
pub mod todo;
pub mod twitch;
