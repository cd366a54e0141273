//! Verified core of a Discord bot: the global chat registry, the rules that
//! route events, the texts the bot answers with, and the bookkeeping of the
//! SNS cross-posting tokens.

pub mod text;
pub mod globalchat;
pub mod time;
pub mod sns_post;
pub mod listener;
pub mod mention;
pub mod commands;
pub mod failure;
pub mod attachment;
pub mod backup;
pub mod mastodon;
pub mod twitter;
pub mod config;
