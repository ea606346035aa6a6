//! Responses to roll calls, and the tokens that tell apart who answers.

use super::type_aliases::{CallId, ResponseId, Timestamp, UserId};
use crate::util::clock::now;
use crate::util::text::{concatenate, decimal, decimal_string, lowercase};
use crypto::digest::Digest;
use crypto::sha2::Sha256;
use vstd::prelude::*;

pub mod attendance;

pub use attendance::{Attendance, AttendanceStatus};

verus! {

/// One identity's answer to one roll call.
#[derive(Debug)]
pub struct RollCallResponse {
    pub id: ResponseId,
    pub roll_call_id: CallId,
    pub unique_token: String,
    pub user_id: Option<UserId>,
    pub user_name: Option<String>,
    pub status: AttendanceStatus,
    pub reason: Option<String>,
    pub created_at: Timestamp,
    pub updated_at: Timestamp,
}

/// What a `RollCallResponse` holds, with its texts as sequences of characters.
pub struct ResponseData {
    pub id: ResponseId,
    pub roll_call_id: CallId,
    pub unique_token: Seq<char>,
    pub user_id: Option<UserId>,
    pub user_name: Option<Seq<char>>,
    pub status: AttendanceStatus,
    pub reason: Option<Seq<char>>,
    pub created_at: Timestamp,
    pub updated_at: Timestamp,
}

/// The characters of an optional text.
pub open spec fn text_of(text: Option<String>) -> Option<Seq<char>> {
    match text {
        Some(s) => Some(s@),
        None => None,
    }
}

impl View for RollCallResponse {
    type V = ResponseData;

    open spec fn view(&self) -> ResponseData {
        ResponseData {
            id: self.id,
            roll_call_id: self.roll_call_id,
            unique_token: self.unique_token@,
            user_id: self.user_id,
            user_name: text_of(self.user_name),
            status: self.status,
            reason: text_of(self.reason),
            created_at: self.created_at,
            updated_at: self.updated_at,
        }
    }
}

/// What each response of a list holds.
pub open spec fn responses_data(responses: Seq<RollCallResponse>) -> Seq<ResponseData> {
    responses.map_values(|response: RollCallResponse| response@)
}

fn clone_text(text: &Option<String>) -> (copy: Option<String>)
    ensures
        copy == *text,
{
    match text {
        Some(s) => Some(s.clone()),
        None => None,
    }
}

impl Clone for RollCallResponse {
    fn clone(&self) -> (copy: Self)
        ensures
            copy == *self,
    {
        RollCallResponse {
            id: self.id,
            roll_call_id: self.roll_call_id,
            unique_token: self.unique_token.clone(),
            user_id: self.user_id,
            user_name: clone_text(&self.user_name),
            status: self.status,
            reason: clone_text(&self.reason),
            created_at: self.created_at,
            updated_at: self.updated_at,
        }
    }
}

/// The SHA-256 digest of the UTF-8 bytes of a text, written in hexadecimal
/// digits.
pub uninterp spec fn sha256_hex(input: Seq<char>) -> Seq<char>;

/// Feeds `input` to rust-crypto's `Sha256` with `input_str` and reads the
/// digest with `result_str`. The digest depends on the text alone.
#[verifier::external_body]
fn hash(input: &str) -> (digest: String)
    ensures
        digest@ == sha256_hex(input@),
{
    let mut hasher = Sha256::new();
    hasher.input_str(input);
    hasher.result_str()
}

/// Why no token can be made for an identity.
#[derive(Debug, PartialEq, Eq, Copy, Clone, Structural)]
pub enum InvalidInput {
    /// A user identifier that is zero or negative.
    UserId,
    /// An empty display name.
    UserName,
}

/// The token of a user who answers for themself.
pub open spec fn self_token(user_id: UserId) -> Seq<char> {
    "self:"@ + sha256_hex(decimal(user_id as nat))
}

/// The token of somebody who is answered for by name. Upper and lower case
/// make no difference.
pub open spec fn named_token(user_name: Seq<char>) -> Seq<char> {
    "for:"@ + sha256_hex(lowercase(user_name))
}

fn make_self_token(user_id: UserId) -> (token: String)
    requires
        user_id > 0,
    ensures
        token@ == self_token(user_id),
{
    let numeral = decimal_string(user_id as u64);
    let digest = hash(numeral.as_str());
    concatenate("self:", digest.as_str())
}

fn make_named_token(user_name: &str) -> (token: String)
    ensures
        token@ == named_token(user_name@),
{
    let lower = user_name.to_lowercase();
    let digest = hash(lower.as_str());
    concatenate("for:", digest.as_str())
}

/// The token under which the answers of the user `user_id` are filed. A
/// user identifier that is not positive gets none.
pub fn token_for_self(user_id: UserId) -> (r: Result<String, InvalidInput>)
    ensures
        match r {
            Ok(token) => user_id > 0 && token@ == self_token(user_id),
            Err(e) => user_id <= 0 && e == InvalidInput::UserId,
        },
{
    if user_id <= 0 {
        return Err(InvalidInput::UserId);
    }
    Ok(make_self_token(user_id))
}

/// The token under which the answers given for `user_name` are filed. An
/// empty name gets none.
pub fn token_for_named(user_name: &str) -> (r: Result<String, InvalidInput>)
    ensures
        match r {
            Ok(token) => user_name@.len() > 0 && token@ == named_token(user_name@),
            Err(e) => user_name@.len() == 0 && e == InvalidInput::UserName,
        },
{
    if user_name.is_empty() {
        return Err(InvalidInput::UserName);
    }
    Ok(make_named_token(user_name))
}

/// A token made for a user never equals one made for a name, whatever the
/// digests are: the two prefixes differ in their first character.
pub proof fn lemma_tokens_are_separate(user_id: UserId, user_name: Seq<char>)
    ensures
        self_token(user_id) != named_token(user_name),
{
    reveal_strlit("self:");
    reveal_strlit("for:");
    assert(self_token(user_id)[0] == 's');
    assert(named_token(user_name)[0] == 'f');
}

/// The values of a response that is about to be stored.
#[derive(Debug)]
pub struct NewRollCallResponse<'a> {
    pub roll_call_id: CallId,
    pub unique_token: String,
    pub user_id: Option<UserId>,
    pub user_name: &'a str,
    pub status: AttendanceStatus,
    pub reason: &'a str,
    pub created_at: Timestamp,
    pub updated_at: Timestamp,
}

impl<'a> NewRollCallResponse<'a> {
    /// The row that these values make under the identifier `id`.
    pub open spec fn row(self, id: ResponseId) -> ResponseData {
        ResponseData {
            id,
            roll_call_id: self.roll_call_id,
            unique_token: self.unique_token@,
            user_id: self.user_id,
            user_name: Some(self.user_name@),
            status: self.status,
            reason: Some(self.reason@),
            created_at: self.created_at,
            updated_at: self.updated_at,
        }
    }

    /// The response that is stored for these values under the identifier
    /// `id`.
    pub fn into_row(self, id: ResponseId) -> (response: RollCallResponse)
        ensures
            response@ == self.row(id),
    {
        RollCallResponse {
            id,
            roll_call_id: self.roll_call_id,
            unique_token: self.unique_token,
            user_id: self.user_id,
            user_name: Some(self.user_name.to_owned()),
            status: self.status,
            reason: Some(self.reason.to_owned()),
            created_at: self.created_at,
            updated_at: self.updated_at,
        }
    }

    /// The row of an answer that the user `user_id` gives at `at`.
    pub open spec fn answer_self(
        call_id: CallId,
        user_id: UserId,
        user_name: Seq<char>,
        attendance: Attendance,
        at: Timestamp,
    ) -> ResponseData {
        ResponseData {
            id: 0,
            roll_call_id: call_id,
            unique_token: self_token(user_id),
            user_id: Some(user_id),
            user_name: Some(user_name),
            status: attendance.status,
            reason: Some(attendance.reason@),
            created_at: at,
            updated_at: at,
        }
    }

    /// The row of an answer that is given at `at` for somebody called
    /// `user_name`.
    pub open spec fn answer_for(
        call_id: CallId,
        user_name: Seq<char>,
        attendance: Attendance,
        at: Timestamp,
    ) -> ResponseData {
        ResponseData {
            id: 0,
            roll_call_id: call_id,
            unique_token: named_token(user_name),
            user_id: None,
            user_name: Some(user_name),
            status: attendance.status,
            reason: Some(attendance.reason@),
            created_at: at,
            updated_at: at,
        }
    }

    /// The answer of the user `user_id` for themself, given at `at`.
    pub fn self_at(
        call_id: CallId,
        user_id: UserId,
        user_name: &'a str,
        attendance: &'a Attendance,
        at: Timestamp,
    ) -> (response: NewRollCallResponse<'a>)
        requires
            user_id > 0,
        ensures
            response.row(0) == Self::answer_self(call_id, user_id, user_name@, *attendance, at),
    {
        NewRollCallResponse {
            roll_call_id: call_id,
            unique_token: make_self_token(user_id),
            user_id: Some(user_id),
            user_name,
            status: attendance.status,
            reason: attendance.reason.as_str(),
            created_at: at,
            updated_at: at,
        }
    }

    /// The answer of the user `user_id` for themself, given now.
    pub fn new_self(
        call_id: CallId,
        user_id: UserId,
        user_name: &'a str,
        attendance: &'a Attendance,
    ) -> (response: NewRollCallResponse<'a>)
        requires
            user_id > 0,
        ensures
            response.row(0) == Self::answer_self(
                call_id,
                user_id,
                user_name@,
                *attendance,
                response.created_at,
            ),
    {
        NewRollCallResponse::self_at(call_id, user_id, user_name, attendance, now())
    }

    /// An answer given at `at` for somebody called `user_name`.
    pub fn for_at(
        call_id: CallId,
        user_name: &'a str,
        attendance: &'a Attendance,
        at: Timestamp,
    ) -> (response: NewRollCallResponse<'a>)
        requires
            user_name@.len() > 0,
        ensures
            response.row(0) == Self::answer_for(call_id, user_name@, *attendance, at),
    {
        NewRollCallResponse {
            roll_call_id: call_id,
            unique_token: make_named_token(user_name),
            user_id: None,
            user_name,
            status: attendance.status,
            reason: attendance.reason.as_str(),
            created_at: at,
            updated_at: at,
        }
    }

    /// An answer given now for somebody called `user_name`.
    pub fn new_for(call_id: CallId, user_name: &'a str, attendance: &'a Attendance) -> (response:
        NewRollCallResponse<'a>)
        requires
            user_name@.len() > 0,
        ensures
            response.row(0) == Self::answer_for(
                call_id,
                user_name@,
                *attendance,
                response.created_at,
            ),
    {
        NewRollCallResponse::for_at(call_id, user_name, attendance, now())
    }
}

/// What a repeated answer overwrites in the stored response.
#[derive(Debug)]
pub struct UpdateRollCallResponse<'a> {
    pub user_name: Option<&'a str>,
    pub status: Option<AttendanceStatus>,
    pub reason: Option<&'a str>,
    pub updated_at: Option<Timestamp>,
}

impl<'a> UpdateRollCallResponse<'a> {
    /// The row `response` after this change.
    pub open spec fn apply(self, response: ResponseData) -> ResponseData {
        ResponseData {
            id: response.id,
            roll_call_id: response.roll_call_id,
            unique_token: response.unique_token,
            user_id: response.user_id,
            user_name: match self.user_name {
                Some(name) => Some(name@),
                None => response.user_name,
            },
            status: match self.status {
                Some(status) => status,
                None => response.status,
            },
            reason: match self.reason {
                Some(reason) => Some(reason@),
                None => response.reason,
            },
            created_at: response.created_at,
            updated_at: match self.updated_at {
                Some(at) => at,
                None => response.updated_at,
            },
        }
    }

    /// Writes this change to a copy of `response`.
    pub fn apply_to(&self, response: &RollCallResponse) -> (changed: RollCallResponse)
        ensures
            changed@ == self.apply(response@),
    {
        RollCallResponse {
            id: response.id,
            roll_call_id: response.roll_call_id,
            unique_token: response.unique_token.clone(),
            user_id: response.user_id,
            user_name: match self.user_name {
                Some(name) => Some(name.to_owned()),
                None => clone_text(&response.user_name),
            },
            status: match self.status {
                Some(status) => status,
                None => response.status,
            },
            reason: match self.reason {
                Some(reason) => Some(reason.to_owned()),
                None => clone_text(&response.reason),
            },
            created_at: response.created_at,
            updated_at: match self.updated_at {
                Some(at) => at,
                None => response.updated_at,
            },
        }
    }

    /// The change that an answer given at `at` makes.
    pub fn at(
        user_name: &'a str,
        status: AttendanceStatus,
        reason: &'a str,
        at: Timestamp,
    ) -> (update: UpdateRollCallResponse<'a>)
        ensures
            update.user_name == Some(user_name),
            update.status == Some(status),
            update.reason == Some(reason),
            update.updated_at == Some(at),
    {
        UpdateRollCallResponse {
            user_name: Some(user_name),
            status: Some(status),
            reason: Some(reason),
            updated_at: Some(at),
        }
    }

    /// The change that an answer given now makes.
    pub fn new(user_name: &'a str, status: AttendanceStatus, reason: &'a str) -> (update:
        UpdateRollCallResponse<'a>)
        ensures
            update.user_name == Some(user_name),
            update.status == Some(status),
            update.reason == Some(reason),
            update.updated_at is Some,
    {
        UpdateRollCallResponse::at(user_name, status, reason, now())
    }
}

} // verus!
