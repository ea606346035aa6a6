//! Roll calls for chat conversations: one open call per conversation,
//! deduplicated attendance responses, bounded history and the replies
//! a chat bot gives for each command.

pub mod db;
pub mod models;
pub mod settings;
pub mod telegram;
pub mod util;
