//! Roll calls: the stored row, a row about to be stored, and a change to a
//! stored row.

use super::type_aliases::{CallId, ChatId, Timestamp};
use crate::util::clock::now;
use vstd::prelude::*;

pub mod status;

pub use status::CallStatus;

verus! {

/// One attendance poll of a conversation.
#[derive(Debug)]
pub struct RollCall {
    pub id: CallId,
    pub chat_id: ChatId,
    pub status: CallStatus,
    pub title: String,
    pub quiet: bool,
    pub created_at: Timestamp,
    pub updated_at: Timestamp,
}

/// What a `RollCall` holds, with its title as a sequence of characters.
pub struct RollCallData {
    pub id: CallId,
    pub chat_id: ChatId,
    pub status: CallStatus,
    pub title: Seq<char>,
    pub quiet: bool,
    pub created_at: Timestamp,
    pub updated_at: Timestamp,
}

impl View for RollCall {
    type V = RollCallData;

    open spec fn view(&self) -> RollCallData {
        RollCallData {
            id: self.id,
            chat_id: self.chat_id,
            status: self.status,
            title: self.title@,
            quiet: self.quiet,
            created_at: self.created_at,
            updated_at: self.updated_at,
        }
    }
}

/// What each call of a list holds.
pub open spec fn calls_data(calls: Seq<RollCall>) -> Seq<RollCallData> {
    calls.map_values(|call: RollCall| call@)
}

impl Clone for RollCall {
    fn clone(&self) -> (copy: Self)
        ensures
            copy == *self,
    {
        RollCall {
            id: self.id,
            chat_id: self.chat_id,
            status: self.status,
            title: self.title.clone(),
            quiet: self.quiet,
            created_at: self.created_at,
            updated_at: self.updated_at,
        }
    }
}

/// The values of a roll call that is about to be stored.
#[derive(Debug)]
pub struct NewRollCall<'a> {
    pub chat_id: ChatId,
    pub status: CallStatus,
    pub title: &'a str,
    pub quiet: bool,
    pub created_at: Timestamp,
    pub updated_at: Timestamp,
}

impl<'a> NewRollCall<'a> {
    /// The row that these values make under the identifier `id`.
    pub open spec fn row(self, id: CallId) -> RollCallData {
        RollCallData {
            id,
            chat_id: self.chat_id,
            status: self.status,
            title: self.title@,
            quiet: self.quiet,
            created_at: self.created_at,
            updated_at: self.updated_at,
        }
    }

    /// The values of a call started at `at`: open, not quiet.
    pub open spec fn started(chat_id: ChatId, title: Seq<char>, at: Timestamp) -> RollCallData {
        RollCallData {
            id: 0,
            chat_id,
            status: CallStatus::Open,
            title,
            quiet: false,
            created_at: at,
            updated_at: at,
        }
    }

    /// The call that is stored for these values under the identifier `id`.
    pub fn into_row(self, id: CallId) -> (call: RollCall)
        ensures
            call@ == self.row(id),
    {
        RollCall {
            id,
            chat_id: self.chat_id,
            status: self.status,
            title: self.title.to_owned(),
            quiet: self.quiet,
            created_at: self.created_at,
            updated_at: self.updated_at,
        }
    }

    /// A call that starts at the time `at`.
    pub fn at(chat_id: ChatId, title: &'a str, at: Timestamp) -> (call: NewRollCall<'a>)
        ensures
            call.row(0) == Self::started(chat_id, title@, at),
    {
        NewRollCall {
            chat_id,
            title,
            status: CallStatus::Open,
            quiet: false,
            created_at: at,
            updated_at: at,
        }
    }

    /// A call that starts now, by the wall clock.
    pub fn new(chat_id: ChatId, title: &'a str) -> (call: NewRollCall<'a>)
        ensures
            call.row(0) == Self::started(chat_id, title@, call.created_at),
    {
        NewRollCall::at(chat_id, title, now())
    }
}

/// A change to a stored roll call: each field that is `Some` is written.
#[derive(Debug)]
pub struct UpdateRollCall<'a> {
    pub status: Option<CallStatus>,
    pub title: Option<&'a str>,
    pub quiet: Option<bool>,
    pub updated_at: Option<Timestamp>,
}

impl<'a> UpdateRollCall<'a> {
    /// The row `call` after this change.
    pub open spec fn apply(self, call: RollCallData) -> RollCallData {
        RollCallData {
            id: call.id,
            chat_id: call.chat_id,
            status: match self.status {
                Some(status) => status,
                None => call.status,
            },
            title: match self.title {
                Some(title) => title@,
                None => call.title,
            },
            quiet: match self.quiet {
                Some(quiet) => quiet,
                None => call.quiet,
            },
            created_at: call.created_at,
            updated_at: match self.updated_at {
                Some(at) => at,
                None => call.updated_at,
            },
        }
    }

    /// Writes this change to a copy of `call`.
    pub fn apply_to(&self, call: &RollCall) -> (changed: RollCall)
        ensures
            changed@ == self.apply(call@),
    {
        RollCall {
            id: call.id,
            chat_id: call.chat_id,
            status: match self.status {
                Some(status) => status,
                None => call.status,
            },
            title: match self.title {
                Some(title) => title.to_owned(),
                None => call.title.clone(),
            },
            quiet: match self.quiet {
                Some(quiet) => quiet,
                None => call.quiet,
            },
            created_at: call.created_at,
            updated_at: match self.updated_at {
                Some(at) => at,
                None => call.updated_at,
            },
        }
    }

    /// A change that only stamps the time `at`.
    pub fn at(at: Timestamp) -> (update: UpdateRollCall<'static>)
        ensures
            update.status is None,
            update.title is None,
            update.quiet is None,
            update.updated_at == Some(at),
    {
        UpdateRollCall { status: None, title: None, quiet: None, updated_at: Some(at) }
    }

    /// A change that only stamps the current time.
    pub fn new() -> (update: UpdateRollCall<'static>)
        ensures
            update.status is None,
            update.title is None,
            update.quiet is None,
            update.updated_at is Some,
    {
        UpdateRollCall::at(now())
    }

    /// The same change, which also sets the status.
    pub fn with_status(self, status: CallStatus) -> (update: UpdateRollCall<'a>)
        ensures
            update.status == Some(status),
            update.title == self.title,
            update.quiet == self.quiet,
            update.updated_at == self.updated_at,
    {
        UpdateRollCall {
            status: Some(status),
            title: self.title,
            quiet: self.quiet,
            updated_at: self.updated_at,
        }
    }

    /// The same change, which also sets the quiet flag.
    pub fn with_quiet(self, quiet: bool) -> (update: UpdateRollCall<'a>)
        ensures
            update.status == self.status,
            update.title == self.title,
            update.quiet == Some(quiet),
            update.updated_at == self.updated_at,
    {
        UpdateRollCall {
            status: self.status,
            title: self.title,
            quiet: Some(quiet),
            updated_at: self.updated_at,
        }
    }

    /// The same change, which also sets the title.
    pub fn with_title(self, title: &'a str) -> (update: UpdateRollCall<'a>)
        ensures
            update.status == self.status,
            update.title == Some(title),
            update.quiet == self.quiet,
            update.updated_at == self.updated_at,
    {
        UpdateRollCall {
            status: self.status,
            title: Some(title),
            quiet: self.quiet,
            updated_at: self.updated_at,
        }
    }
}

} // verus!
