//! Mirrors a chat channel onto a publishing platform: messages are folded
//! into posts, media is uploaded, posts are published and a cursor records
//! how far the mirror has come.

pub mod album;
pub mod generator;
pub mod media;
pub mod persistence;
pub mod publish;
pub mod text;
pub mod twittergram;
pub mod types;
pub mod upload;
pub mod window;
