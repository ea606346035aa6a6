//! The repository: the operations on roll calls that the bot is given, and
//! a repository that keeps its store in memory.

use super::helpers::{
    answer_recorded, call_created, call_updated, closing, quiet_updated, retitling, snapshot_read,
    Connection, QueryError, QueryResult,
};
use super::tables::{empty_tables, open_calls};
use crate::models::roll_call_responses::{Attendance, NewRollCallResponse};
use crate::models::roll_calls::RollCall;
use crate::models::type_aliases::{CallWithResponses, ChatId, Timestamp, UserId};
use crate::util::clock::now;
use crate::util::text::concatenate;
use vstd::prelude::*;

verus! {

/// Why the repository could not do what it was asked.
#[derive(Debug, PartialEq, Eq)]
pub enum DatabaseError {
    /// No connection to the store could be had.
    ConnectError(String),
    /// A statement failed.
    QueryError(String),
}

pub type DatabaseResult<T> = Result<T, DatabaseError>;

impl DatabaseError {
    /// The error in words.
    pub open spec fn message(self) -> Seq<char> {
        match self {
            DatabaseError::ConnectError(cause) => "Database connection error: "@ + cause@,
            DatabaseError::QueryError(cause) => "Database query error: "@ + cause@,
        }
    }

    /// The error in words.
    pub fn to_string(&self) -> (text: String)
        ensures
            text@ == self.message(),
    {
        match self {
            DatabaseError::ConnectError(cause) => concatenate(
                "Database connection error: ",
                cause.as_str(),
            ),
            DatabaseError::QueryError(cause) => concatenate(
                "Database query error: ",
                cause.as_str(),
            ),
        }
    }
}

impl QueryError {
    /// The error in words.
    pub open spec fn message(self) -> Seq<char> {
        match self {
            QueryError::Timeout => "the connection timed out"@,
            QueryError::OutOfIds => "no identifier is left"@,
        }
    }

    /// The error in words.
    pub fn to_string(&self) -> (text: String)
        ensures
            text@ == self.message(),
    {
        match self {
            QueryError::Timeout => "the connection timed out".to_owned(),
            QueryError::OutOfIds => "no identifier is left".to_owned(),
        }
    }
}

/// The operations on roll calls. Each one takes effect as a whole or not
/// at all; that a conversation has no open call is no error.
pub trait Repository {
    /// Starts a roll call in the conversation, closing the calls that are
    /// open there.
    fn create_call(&mut self, chat_id: ChatId, title: &str) -> DatabaseResult<RollCall>;

    /// Closes the open call of the conversation.
    fn end_call(&mut self, chat_id: ChatId) -> DatabaseResult<Option<RollCall>>;

    /// Gives the open call of the conversation a new title.
    fn update_title(&mut self, chat_id: ChatId, new_title: &str) -> DatabaseResult<
        Option<RollCall>,
    >;

    /// Sets the quiet flag of the open call of the conversation.
    fn update_quiet(&mut self, chat_id: ChatId, quiet: bool) -> DatabaseResult<
        Option<CallWithResponses>,
    >;

    /// Records what a user answers for themself.
    fn set_response(
        &mut self,
        chat_id: ChatId,
        user_id: UserId,
        user_name: &str,
        attendance: &Attendance,
    ) -> DatabaseResult<Option<CallWithResponses>>
        requires
            user_id > 0,
    ;

    /// Records what is answered for somebody by name.
    fn set_response_for(
        &mut self,
        chat_id: ChatId,
        user_name: &str,
        attendance: &Attendance,
    ) -> DatabaseResult<Option<CallWithResponses>>
        requires
            user_name@.len() > 0,
    ;

    /// The open call of the conversation with its responses.
    fn get_call_with_responses(&mut self, chat_id: ChatId) -> DatabaseResult<
        Option<CallWithResponses>,
    >;
}

/// Whether `result` is what the repository makes of the outcome `inner` of
/// a statement: the same value, or the statement's failure in words.
pub open spec fn is_query_result<T>(result: DatabaseResult<T>, inner: QueryResult<T>) -> bool {
    match (result, inner) {
        (Ok(value), Ok(found)) => value == found,
        (Err(DatabaseError::QueryError(cause)), Err(e)) => cause@ == e.message(),
        _ => false,
    }
}

/// Whether `result` says that no connection could be had.
pub open spec fn is_connect_error<T>(result: DatabaseResult<T>) -> bool {
    result matches Err(DatabaseError::ConnectError(_))
}

fn query_result<T>(inner: QueryResult<T>) -> (result: DatabaseResult<T>)
    ensures
        is_query_result(result, inner),
{
    match inner {
        Ok(value) => Ok(value),
        Err(e) => Err(DatabaseError::QueryError(e.to_string())),
    }
}

fn connect_error<T>() -> (result: DatabaseResult<T>)
    ensures
        is_connect_error(result),
{
    Err(DatabaseError::ConnectError("the store is not connected".to_owned()))
}

/// A repository whose store is in memory. It can be cut off from its store
/// and joined to it again, and its connection can be told to give out.
pub struct MemoryRepository {
    conn: Connection,
    connected: bool,
}

impl MemoryRepository {
    /// The connection to the store.
    pub closed spec fn connection(&self) -> &Connection {
        &self.conn
    }

    /// Whether the repository is joined to its store.
    pub closed spec fn connected(&self) -> bool {
        self.connected
    }

    /// A repository with an empty store.
    pub fn new() -> (repository: MemoryRepository)
        ensures
            repository.connection()@ == empty_tables(),
            repository.connection().statements_left() is None,
            repository.connected(),
    {
        MemoryRepository { conn: Connection::new(), connected: true }
    }

    /// A repository on the store behind the given connection.
    pub fn with_connection(conn: Connection) -> (repository: MemoryRepository)
        ensures
            repository.connection() == conn,
            repository.connected(),
    {
        MemoryRepository { conn, connected: true }
    }

    /// The connection to the store, which outlives the repository.
    pub fn into_connection(self) -> (conn: Connection)
        ensures
            conn == self.connection(),
    {
        self.conn
    }

    /// Cuts the repository off from its store, or joins it again.
    pub fn set_connected(&mut self, connected: bool)
        ensures
            final(self).connection() == old(self).connection(),
            final(self).connected() == connected,
    {
        self.connected = connected;
    }
}

impl Repository for MemoryRepository {
    /// Starts a call at the time that the clock shows. The conversation
    /// then has exactly one open call.
    fn create_call(&mut self, chat_id: ChatId, title: &str) -> (result: DatabaseResult<RollCall>)
        ensures
            final(self).connected() == old(self).connected(),
            !old(self).connected() ==> is_connect_error(result) && final(self).connection()
                == old(self).connection(),
            old(self).connected() ==> exists|now: Timestamp, inner: QueryResult<RollCall>|
                {
                    &&& is_query_result(result, inner)
                    &&& call_created(
                        old(self).connection(),
                        final(self).connection(),
                        chat_id,
                        title@,
                        now,
                        inner,
                    )
                },
            result is Ok ==> open_calls(final(self).connection()@.calls, chat_id).len() == 1,
    {
        if !self.connected {
            return connect_error();
        }
        assert(self.conn == self.connection());
        let now = now();
        let inner = super::helpers::create_call(&mut self.conn, chat_id, title, now);
        let result = query_result(inner);
        assert(self.conn == self.connection());
        result
    }

    /// Closes the open call at the time that the clock shows.
    fn end_call(&mut self, chat_id: ChatId) -> (result: DatabaseResult<Option<RollCall>>)
        ensures
            final(self).connected() == old(self).connected(),
            !old(self).connected() ==> is_connect_error(result) && final(self).connection()
                == old(self).connection(),
            old(self).connected() ==> exists|now: Timestamp, inner: QueryResult<Option<RollCall>>|
                {
                    &&& is_query_result(result, inner)
                    &&& call_updated(
                        old(self).connection(),
                        final(self).connection(),
                        chat_id,
                        closing(now),
                        inner,
                    )
                },
    {
        if !self.connected {
            return connect_error();
        }
        assert(self.conn == self.connection());
        let now = now();
        let inner = super::helpers::end_call(&mut self.conn, chat_id, now);
        let result = query_result(inner);
        assert(self.conn == self.connection());
        result
    }

    /// Retitles the open call at the time that the clock shows.
    fn update_title(&mut self, chat_id: ChatId, new_title: &str) -> (result: DatabaseResult<
        Option<RollCall>,
    >)
        ensures
            final(self).connected() == old(self).connected(),
            !old(self).connected() ==> is_connect_error(result) && final(self).connection()
                == old(self).connection(),
            old(self).connected() ==> exists|now: Timestamp, inner: QueryResult<Option<RollCall>>|
                {
                    &&& is_query_result(result, inner)
                    &&& call_updated(
                        old(self).connection(),
                        final(self).connection(),
                        chat_id,
                        retitling(new_title, now),
                        inner,
                    )
                },
    {
        if !self.connected {
            return connect_error();
        }
        assert(self.conn == self.connection());
        let now = now();
        let inner = super::helpers::update_title(&mut self.conn, chat_id, new_title, now);
        let result = query_result(inner);
        assert(self.conn == self.connection());
        result
    }

    /// Sets the quiet flag of the open call at the time that the clock
    /// shows.
    fn update_quiet(&mut self, chat_id: ChatId, quiet: bool) -> (result: DatabaseResult<
        Option<CallWithResponses>,
    >)
        ensures
            final(self).connected() == old(self).connected(),
            !old(self).connected() ==> is_connect_error(result) && final(self).connection()
                == old(self).connection(),
            old(self).connected() ==> exists|
                now: Timestamp,
                inner: QueryResult<Option<CallWithResponses>>,
            |
                {
                    &&& is_query_result(result, inner)
                    &&& quiet_updated(
                        old(self).connection(),
                        final(self).connection(),
                        chat_id,
                        quiet,
                        now,
                        inner,
                    )
                },
    {
        if !self.connected {
            return connect_error();
        }
        assert(self.conn == self.connection());
        let now = now();
        let inner = super::helpers::update_quiet(&mut self.conn, chat_id, quiet, now);
        let result = query_result(inner);
        assert(self.conn == self.connection());
        result
    }

    /// Records a user's own answer at the time that the clock shows.
    fn set_response(
        &mut self,
        chat_id: ChatId,
        user_id: UserId,
        user_name: &str,
        attendance: &Attendance,
    ) -> (result: DatabaseResult<Option<CallWithResponses>>)
        ensures
            final(self).connected() == old(self).connected(),
            !old(self).connected() ==> is_connect_error(result) && final(self).connection()
                == old(self).connection(),
            old(self).connected() ==> exists|
                now: Timestamp,
                inner: QueryResult<Option<CallWithResponses>>,
            |
                {
                    &&& is_query_result(result, inner)
                    &&& answer_recorded(
                        old(self).connection(),
                        final(self).connection(),
                        chat_id,
                        NewRollCallResponse::answer_self(0, user_id, user_name@, *attendance, now),
                        inner,
                    )
                },
    {
        if !self.connected {
            return connect_error();
        }
        assert(self.conn == self.connection());
        let now = now();
        let inner = super::helpers::set_response(
            &mut self.conn,
            chat_id,
            user_id,
            user_name,
            attendance,
            now,
        );
        let result = query_result(inner);
        assert(self.conn == self.connection());
        result
    }

    /// Records an answer given for somebody at the time that the clock
    /// shows.
    fn set_response_for(
        &mut self,
        chat_id: ChatId,
        user_name: &str,
        attendance: &Attendance,
    ) -> (result: DatabaseResult<Option<CallWithResponses>>)
        ensures
            final(self).connected() == old(self).connected(),
            !old(self).connected() ==> is_connect_error(result) && final(self).connection()
                == old(self).connection(),
            old(self).connected() ==> exists|
                now: Timestamp,
                inner: QueryResult<Option<CallWithResponses>>,
            |
                {
                    &&& is_query_result(result, inner)
                    &&& answer_recorded(
                        old(self).connection(),
                        final(self).connection(),
                        chat_id,
                        NewRollCallResponse::answer_for(0, user_name@, *attendance, now),
                        inner,
                    )
                },
    {
        if !self.connected {
            return connect_error();
        }
        assert(self.conn == self.connection());
        let now = now();
        let inner = super::helpers::set_response_for(
            &mut self.conn,
            chat_id,
            user_name,
            attendance,
            now,
        );
        let result = query_result(inner);
        assert(self.conn == self.connection());
        result
    }

    /// Reads the open call with its responses.
    fn get_call_with_responses(&mut self, chat_id: ChatId) -> (result: DatabaseResult<
        Option<CallWithResponses>,
    >)
        ensures
            final(self).connected() == old(self).connected(),
            !old(self).connected() ==> is_connect_error(result) && final(self).connection()
                == old(self).connection(),
            old(self).connected() ==> exists|inner: QueryResult<Option<CallWithResponses>>|
                {
                    &&& is_query_result(result, inner)
                    &&& snapshot_read(
                        old(self).connection(),
                        final(self).connection(),
                        chat_id,
                        inner,
                    )
                },
    {
        if !self.connected {
            return connect_error();
        }
        assert(self.conn == self.connection());
        let inner = super::helpers::get_call_with_responses(&mut self.conn, chat_id);
        let result = query_result(inner);
        assert(self.conn == self.connection());
        result
    }
}

} // verus!
