//! Rate-controlled access to a game-statistics API and the match-history
//! summaries built on top of it.

pub mod api_fetcher;
pub mod auth;
pub mod discord_bot_types;
pub mod interaction;
pub mod lol_command;
pub mod match_history;
pub mod models;
pub mod pager;
pub mod rate_limit;
pub mod responder;
pub mod retry;
pub mod search_history;
pub mod text;
