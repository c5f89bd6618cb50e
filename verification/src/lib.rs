//! The decisions of a Telegram bot that queues music downloads on a deemix server.
use vstd::prelude::*;

pub mod bot;
pub mod config;
pub mod deemix;
pub mod env;
pub mod http;
pub mod jobs;
pub mod json;
pub mod keyboard;
pub mod links;
pub mod mediaserver;
pub mod spotify;
pub mod text;
pub mod turn;
pub mod users;
pub mod voice;

verus! {

} // verus!
