//! The configuration records read at startup: credentials and target
//! communities for both platforms, and the chosen bot mode.

use vstd::prelude::*;
use crate::common::BotMode;

verus! {

/// The whole configuration of one bot process.
#[derive(Debug)]
pub struct Config {
    pub mode: BotMode,
    pub reddit: RedditConfig,
    pub lemmy: LemmyConfig,
}

/// Credentials and target subreddit for the source side.
#[derive(Debug)]
pub struct RedditConfig {
    pub client_id: String,
    pub client_secret: String,
    pub username: String,
    pub password: String,
    pub subreddit: String,
}

/// Credentials and target community for the destination side.
#[derive(Debug)]
pub struct LemmyConfig {
    pub instance: String,
    pub community: String,
    pub username: String,
    pub password: String,
}

} // verus!
