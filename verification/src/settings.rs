//! What the bot is configured with.

use vstd::prelude::*;

verus! {

/// Where the store is and how long to wait for it.
#[derive(Debug)]
pub struct Database {
    pub url: String,
    pub timeout_ms: u64,
}

/// The chat account of the bot.
#[derive(Debug)]
pub struct Telegram {
    pub token: String,
}

/// Where crashes are reported.
#[derive(Debug)]
pub struct Sentry {
    pub dsn: String,
}

/// All settings of the bot.
#[derive(Debug)]
pub struct Settings {
    pub database: Database,
    pub telegram: Telegram,
    pub sentry: Sentry,
}

} // verus!
