//! The store in memory, and the statements that read and change it. Each
//! operation either takes effect as a whole or leaves the store as it was.

use super::checks::{call_id_after, find_call, response_id_after, restored, rows_are_well_formed};
use super::invariants::{
    lemma_answered_well_formed, lemma_created_well_formed, lemma_current_call, lemma_filed_at,
    lemma_updated_well_formed,
};
use super::laws::lemma_single_open_call;
use super::tables::{
    all_closed, answered, answers, belongs_to, closed_at, created, current_call, empty_tables,
    filed_at, is_current, is_filed, is_kept, is_open_in, is_pruned,
    lacks_response_id, newer_closed_calls, newer_closed_in, open_calls, overwritten, pruned,
    responses_of, same_key, updated, well_formed, with_calls, TablesData, RETENTION_LIMIT,
};
use crate::models::roll_call_responses::{
    responses_data, Attendance, NewRollCallResponse, ResponseData, RollCallResponse,
    UpdateRollCallResponse,
};
use crate::models::roll_calls::{
    calls_data, CallStatus, NewRollCall, RollCall, RollCallData, UpdateRollCall,
};
use crate::models::type_aliases::{CallId, CallWithResponses, ChatId, ResponseId, Timestamp, UserId};
use crate::util::sequences::lemma_filter_next;
use crate::util::sorting::sort_by_time;
use vstd::prelude::*;

verus! {

/// Why a statement failed.
#[derive(Debug, PartialEq, Eq, Copy, Clone, Structural)]
pub enum QueryError {
    /// The connection gave out before the statement ran.
    Timeout,
    /// No identifier is left for a new row.
    OutOfIds,
}

pub type QueryResult<T> = Result<T, QueryError>;

/// Whether a connection that still runs `left` statements runs `needed`
/// more. A connection without a limit runs any number.
pub open spec fn can_run(left: Option<u64>, needed: nat) -> bool {
    match left {
        Some(n) => n >= needed,
        None => true,
    }
}

/// How many statements a connection still runs after `needed` statements
/// were asked of it: it gives out at the first one that it cannot run.
pub open spec fn after_statements(left: Option<u64>, needed: nat) -> Option<u64> {
    match left {
        Some(n) => if n >= needed {
            Some((n - needed) as u64)
        } else {
            Some(0)
        },
        None => None,
    }
}

/// A connection to a store in memory. It can be told to give out after a
/// number of statements, so that failures can be tried out.
pub struct Connection {
    calls: Vec<RollCall>,
    responses: Vec<RollCallResponse>,
    next_call_id: CallId,
    next_response_id: ResponseId,
    statements_left: Option<u64>,
}

impl View for Connection {
    type V = TablesData;

    closed spec fn view(&self) -> TablesData {
        TablesData {
            calls: calls_data(self.calls@),
            responses: responses_data(self.responses@),
            next_call_id: self.next_call_id,
            next_response_id: self.next_response_id,
        }
    }
}

fn clone_calls(calls: &Vec<RollCall>) -> (copy: Vec<RollCall>)
    ensures
        copy@ == calls@,
{
    let mut copy: Vec<RollCall> = Vec::new();
    let mut i: usize = 0;
    while i < calls.len()
        invariant
            i <= calls.len(),
            copy@ == calls@.take(i as int),
        decreases calls.len() - i,
    {
        copy.push(calls[i].clone());
        i += 1;
    }
    assert(calls@.take(calls.len() as int) == calls@);
    copy
}

fn clone_responses(responses: &Vec<RollCallResponse>) -> (copy: Vec<RollCallResponse>)
    ensures
        copy@ == responses@,
{
    let mut copy: Vec<RollCallResponse> = Vec::new();
    let mut i: usize = 0;
    while i < responses.len()
        invariant
            i <= responses.len(),
            copy@ == responses@.take(i as int),
        decreases responses.len() - i,
    {
        copy.push(responses[i].clone());
        i += 1;
    }
    assert(responses@.take(responses.len() as int) == responses@);
    copy
}

impl Connection {
    /// How many statements the connection still runs; `None` for any
    /// number.
    pub closed spec fn statements_left(&self) -> Option<u64> {
        self.statements_left
    }

    #[verifier::type_invariant]
    spec fn rows_well_formed(self) -> bool {
        well_formed(self@)
    }

    /// Whether the rows of the store are well-formed. They always are.
    pub open spec fn wf(&self) -> bool {
        well_formed(self@)
    }

    /// A connection to an empty store, which never gives out.
    pub fn new() -> (conn: Connection)
        ensures
            conn@ == empty_tables(),
            conn.statements_left() is None,
            conn.wf(),
    {
        let conn = Connection {
            calls: Vec::new(),
            responses: Vec::new(),
            next_call_id: 1,
            next_response_id: 1,
            statements_left: None,
        };
        assert(calls_data(conn.calls@) == Seq::<RollCallData>::empty());
        assert(responses_data(conn.responses@) == Seq::<ResponseData>::empty());
        conn
    }

    /// A connection to a store that holds the given rows, which never
    /// gives out; or nothing where the rows are not well-formed: where an
    /// identifier comes twice or is the greatest there is, where a call
    /// holds two responses for one token, or where a response belongs to
    /// none of the calls. Several calls of a conversation may be open.
    pub fn with_rows(calls: Vec<RollCall>, responses: Vec<RollCallResponse>) -> (conn: Option<
        Connection,
    >)
        ensures
            match conn {
                Some(conn) => {
                    &&& conn@ == restored(calls_data(calls@), responses_data(responses@))
                    &&& conn.statements_left() is None
                    &&& conn.wf()
                },
                None => !well_formed(restored(calls_data(calls@), responses_data(responses@))),
            },
    {
        if !rows_are_well_formed(&calls, &responses) {
            return None;
        }
        let next_call_id = call_id_after(&calls);
        let next_response_id = response_id_after(&responses);
        Some(
            Connection { calls, responses, next_call_id, next_response_id, statements_left: None },
        )
    }

    /// Lets the connection run `statements` more statements and then give
    /// out.
    pub fn fail_after(&mut self, statements: u64)
        ensures
            final(self)@ == old(self)@,
            final(self).statements_left() == Some(statements),
            final(self).wf(),
    {
        proof {
            use_type_invariant(&*self);
        }
        self.statements_left = Some(statements);
    }

    /// Lets the connection run any number of statements.
    pub fn never_fail(&mut self)
        ensures
            final(self)@ == old(self)@,
            final(self).statements_left() is None,
            final(self).wf(),
    {
        proof {
            use_type_invariant(&*self);
        }
        self.statements_left = None;
    }

    /// A copy of the stored roll calls, in the order in which they are
    /// stored.
    pub fn calls(&self) -> (calls: Vec<RollCall>)
        ensures
            calls_data(calls@) == self@.calls,
    {
        clone_calls(&self.calls)
    }

    /// A copy of the stored responses, in the order in which they are
    /// stored.
    pub fn responses(&self) -> (responses: Vec<RollCallResponse>)
        ensures
            responses_data(responses@) == self@.responses,
    {
        clone_responses(&self.responses)
    }

    /// Asks the connection for `needed` statements. It grants them all or
    /// gives out.
    fn run(&mut self, needed: u64) -> (granted: QueryResult<()>)
        ensures
            final(self)@ == old(self)@,
            final(self).calls == old(self).calls,
            final(self).responses == old(self).responses,
            final(self).statements_left() == after_statements(
                old(self).statements_left(),
                needed as nat,
            ),
            match granted {
                Ok(_) => can_run(old(self).statements_left(), needed as nat),
                Err(e) => !can_run(old(self).statements_left(), needed as nat) && e
                    == QueryError::Timeout,
            },
    {
        proof {
            use_type_invariant(&*self);
        }
        match self.statements_left {
            Some(left) => {
                if left >= needed {
                    self.statements_left = Some(left - needed);
                    Ok(())
                } else {
                    self.statements_left = Some(0);
                    Err(QueryError::Timeout)
                }
            },
            None => Ok(()),
        }
    }
}

impl Connection {
    /// Takes the rows out of the store, which is left empty.
    fn take_rows(&mut self) -> (rows: (Vec<RollCall>, Vec<RollCallResponse>))
        ensures
            calls_data(rows.0@) == old(self)@.calls,
            responses_data(rows.1@) == old(self)@.responses,
            rows.0@ == old(self).calls@,
            rows.1@ == old(self).responses@,
            final(self).next_call_id == old(self).next_call_id,
            final(self).next_response_id == old(self).next_response_id,
            final(self).statements_left == old(self).statements_left,
    {
        let mut taken = Connection {
            calls: Vec::new(),
            responses: Vec::new(),
            next_call_id: self.next_call_id,
            next_response_id: self.next_response_id,
            statements_left: self.statements_left,
        };
        assert(calls_data(taken.calls@) == Seq::<RollCallData>::empty());
        assert(responses_data(taken.responses@) == Seq::<ResponseData>::empty());
        std::mem::swap(self, &mut taken);
        let Connection { calls, responses, .. } = taken;
        (calls, responses)
    }

    /// Puts `changed` in the place of the call at `i`.
    fn put_call(&mut self, i: usize, changed: RollCall)
        requires
            i < old(self)@.calls.len(),
            well_formed(
                TablesData {
                    calls: old(self)@.calls.update(i as int, changed@),
                    ..old(self)@
                },
            ),
        ensures
            final(self)@ == (TablesData {
                calls: old(self)@.calls.update(i as int, changed@),
                ..old(self)@
            }),
            final(self).statements_left == old(self).statements_left,
    {
        let next_call_id = self.next_call_id;
        let next_response_id = self.next_response_id;
        let (mut calls, responses) = self.take_rows();
        assert(calls_data(calls@.update(i as int, changed)) == calls_data(calls@).update(
            i as int,
            changed@,
        ));
        calls.set(i, changed);
        self.put_rows(calls, responses, next_call_id, next_response_id);
    }

    /// Puts rows into the store.
    fn put_rows(
        &mut self,
        calls: Vec<RollCall>,
        responses: Vec<RollCallResponse>,
        next_call_id: CallId,
        next_response_id: ResponseId,
    )
        requires
            well_formed(
                TablesData {
                    calls: calls_data(calls@),
                    responses: responses_data(responses@),
                    next_call_id,
                    next_response_id,
                },
            ),
        ensures
            final(self)@ == (TablesData {
                calls: calls_data(calls@),
                responses: responses_data(responses@),
                next_call_id,
                next_response_id,
            }),
            final(self).statements_left == old(self).statements_left,
    {
        *self = Connection {
            calls,
            responses,
            next_call_id,
            next_response_id,
            statements_left: self.statements_left,
        };
    }
}

fn close_all_calls(calls: &mut Vec<RollCall>, chat_id: ChatId, now: Timestamp)
    ensures
        calls_data(final(calls)@) == all_closed(calls_data(old(calls)@), chat_id, now),
{
    let ghost before = calls@;
    let update = UpdateRollCall::at(now).with_status(CallStatus::Closed);
    let mut i: usize = 0;
    while i < calls.len()
        invariant
            i <= calls.len(),
            calls.len() == before.len(),
            update.status == Some(CallStatus::Closed),
            update.title is None,
            update.quiet is None,
            update.updated_at == Some(now),
            forall|k: int|
                0 <= k < i ==> (#[trigger] calls@[k])@ == closed_at(before[k]@, chat_id, now),
            forall|k: int| i <= k < calls.len() ==> #[trigger] calls@[k] == before[k],
        decreases calls.len() - i,
    {
        if calls[i].chat_id == chat_id && calls[i].status == CallStatus::Open {
            let closed = update.apply_to(&calls[i]);
            calls.set(i, closed);
        }
        i += 1;
    }
    assert(calls_data(calls@) == all_closed(calls_data(before), chat_id, now));
}

fn count_newer_closed_calls(calls: &Vec<RollCall>, chat_id: ChatId, at: Timestamp) -> (count: usize)
    ensures
        count == newer_closed_calls(calls_data(calls@), chat_id, at).len(),
{
    let mut count: usize = 0;
    let mut i: usize = 0;
    while i < calls.len()
        invariant
            i <= calls.len(),
            count <= i,
            count == newer_closed_calls(calls_data(calls@).take(i as int), chat_id, at).len(),
        decreases calls.len() - i,
    {
        proof {
            lemma_filter_next(calls_data(calls@), i as int, newer_closed_in(chat_id, at));
        }
        if calls[i].chat_id == chat_id && calls[i].status == CallStatus::Closed
            && calls[i].created_at > at {
            count += 1;
        }
        i += 1;
    }
    assert(calls_data(calls@).take(calls.len() as int) == calls_data(calls@));
    count
}

fn delete_old_calls(calls: &Vec<RollCall>, chat_id: ChatId) -> (kept: Vec<RollCall>)
    ensures
        calls_data(kept@) == pruned(calls_data(calls@), chat_id),
{
    let ghost data = calls_data(calls@);
    let mut kept: Vec<RollCall> = Vec::new();
    let mut i: usize = 0;
    while i < calls.len()
        invariant
            i <= calls.len(),
            data == calls_data(calls@),
            calls_data(kept@) == data.take(i as int).filter(is_kept(data, chat_id)),
        decreases calls.len() - i,
    {
        proof {
            lemma_filter_next(data, i as int, is_kept(data, chat_id));
        }
        let old = calls[i].chat_id == chat_id && calls[i].status == CallStatus::Closed
            && count_newer_closed_calls(calls, chat_id, calls[i].created_at) >= RETENTION_LIMIT;
        assert(old == is_pruned(data, chat_id, data[i as int]));
        if !old {
            let call = calls[i].clone();
            assert(calls_data(kept@.push(call)) == calls_data(kept@).push(call@));
            kept.push(call);
        }
        i += 1;
    }
    assert(data.take(calls.len() as int) == data);
    kept
}

fn delete_orphans(responses: &Vec<RollCallResponse>, calls: &Vec<RollCall>) -> (kept: Vec<
    RollCallResponse,
>)
    ensures
        responses_data(kept@) == with_calls(responses_data(responses@), calls_data(calls@)),
{
    let ghost data = responses_data(responses@);
    let mut kept: Vec<RollCallResponse> = Vec::new();
    let mut i: usize = 0;
    while i < responses.len()
        invariant
            i <= responses.len(),
            data == responses_data(responses@),
            responses_data(kept@) == data.take(i as int).filter(belongs_to(calls_data(calls@))),
        decreases responses.len() - i,
    {
        proof {
            lemma_filter_next(data, i as int, belongs_to(calls_data(calls@)));
        }
        if find_call(calls, responses[i].roll_call_id) {
            let response = responses[i].clone();
            assert(responses_data(kept@.push(response)) == responses_data(kept@).push(
                response@,
            ));
            kept.push(response);
        }
        i += 1;
    }
    assert(data.take(responses.len() as int) == data);
    kept
}

/// What starting a call in the conversation `chat_id` at the time `now`
/// makes of a store and hands back. It takes three statements and an
/// identifier. With both, the store is the one that `created` describes and
/// the new call is handed back. Where the connection gives out before the
/// third statement, or no identifier is left, nothing is changed.
pub open spec fn call_created(
    before: &Connection,
    after: &Connection,
    chat_id: ChatId,
    title: Seq<char>,
    now: Timestamp,
    result: QueryResult<RollCall>,
) -> bool {
    &&& after.statements_left() == after_statements(before.statements_left(), 3)
    &&& match result {
        Ok(call) => {
            &&& can_run(before.statements_left(), 3)
            &&& before@.next_call_id < i64::MAX
            &&& after@ == created(before@, chat_id, title, now)
            &&& call@ == after@.calls.last()
        },
        Err(e) => {
            &&& after@ == before@
            &&& e == if can_run(before.statements_left(), 3) {
                QueryError::OutOfIds
            } else {
                QueryError::Timeout
            }
            &&& !can_run(before.statements_left(), 3) || before@.next_call_id == i64::MAX
        },
    }
}

/// Starts a roll call in the conversation `chat_id` at the time `now`. In
/// one step the open calls of the conversation are closed, retention drops
/// its oldest closed calls with their responses, and the new call is
/// stored, so that the conversation then has exactly one open call. Where
/// the connection gives out on the way, or no identifier is left, nothing
/// is changed.
pub fn create_call(conn: &mut Connection, chat_id: ChatId, title: &str, now: Timestamp) -> (result:
    QueryResult<RollCall>)
    ensures
        final(conn).wf(),
        call_created(old(conn), final(conn), chat_id, title@, now, result),
        result is Ok ==> open_calls(final(conn)@.calls, chat_id).len() == 1,
{
    proof {
        use_type_invariant(&*conn);
    }
    match conn.run(3) {
        Err(e) => {
            return Err(e);
        },
        Ok(_) => {},
    }
    if conn.next_call_id == i64::MAX {
        return Err(QueryError::OutOfIds);
    }
    proof {
        lemma_created_well_formed(conn@, chat_id, title@, now);
        lemma_single_open_call(conn@, chat_id, title@, now);
    }
    let mut calls = clone_calls(&conn.calls);
    close_all_calls(&mut calls, chat_id, now);
    let mut kept = delete_old_calls(&calls, chat_id);
    let responses = delete_orphans(&conn.responses, &kept);
    let call = NewRollCall::at(chat_id, title, now).into_row(conn.next_call_id);
    let inserted = call.clone();
    assert(calls_data(kept@.push(call)) == calls_data(kept@).push(call@));
    kept.push(call);
    let next_call_id = conn.next_call_id + 1;
    let next_response_id = conn.next_response_id;
    conn.put_rows(kept, responses, next_call_id, next_response_id);
    Ok(inserted)
}

fn find_current_call(calls: &Vec<RollCall>, chat_id: ChatId) -> (found: Option<usize>)
    ensures
        match found {
            Some(i) => current_call(calls_data(calls@), chat_id) == Some(i as int),
            None => current_call(calls_data(calls@), chat_id) is None,
        },
{
    let ghost data = calls_data(calls@);
    let mut found: Option<usize> = None;
    let mut i: usize = 0;
    while i < calls.len()
        invariant
            i <= calls.len(),
            data == calls_data(calls@),
            match found {
                Some(best) => best < i && is_current(data.take(i as int), chat_id, best as int),
                None => forall|k: int| 0 <= k < i ==> !is_open_in(#[trigger] data[k], chat_id),
            },
        decreases calls.len() - i,
    {
        let ghost before = data.take(i as int);
        let ghost after = data.take(i + 1);
        assert(forall|k: int| 0 <= k < i ==> before[k] == after[k]);
        if calls[i].chat_id == chat_id && calls[i].status == CallStatus::Open {
            match found {
                Some(best) => {
                    if calls[i].updated_at > calls[best].updated_at {
                        found = Some(i);
                        assert(is_current(after, chat_id, i as int)) by {
                            assert forall|j: int|
                                0 <= j < after.len() && is_open_in(
                                    #[trigger] after[j],
                                    chat_id,
                                ) implies after[j].updated_at < after[i as int].updated_at || (
                            after[j].updated_at == after[i as int].updated_at && i <= j) by {
                                if j < i {
                                    assert(is_open_in(before[j], chat_id));
                                }
                            }
                        }
                    } else {
                        assert(is_current(after, chat_id, best as int)) by {
                            assert forall|j: int|
                                0 <= j < after.len() && is_open_in(
                                    #[trigger] after[j],
                                    chat_id,
                                ) implies after[j].updated_at < after[best as int].updated_at || (
                            after[j].updated_at == after[best as int].updated_at && best <= j) by {
                                if j < i {
                                    assert(is_open_in(before[j], chat_id));
                                }
                            }
                        }
                    }
                },
                None => {
                    found = Some(i);
                    assert(is_current(after, chat_id, i as int));
                },
            }
        } else {
            match found {
                Some(best) => {
                    assert(is_current(after, chat_id, best as int)) by {
                        assert forall|j: int|
                            0 <= j < after.len() && is_open_in(
                                #[trigger] after[j],
                                chat_id,
                            ) implies after[j].updated_at < after[best as int].updated_at || (
                        after[j].updated_at == after[best as int].updated_at && best <= j) by {
                            if j < i {
                                assert(is_open_in(before[j], chat_id));
                            }
                        }
                    }
                },
                None => {},
            }
        }
        i += 1;
    }
    assert(data.take(calls.len() as int) == data);
    proof {
        match found {
            Some(best) => {
                lemma_current_call(data, chat_id, best as int);
            },
            None => {
                assert forall|k: int| !is_current(data, chat_id, k) by {
                    if is_current(data, chat_id, k) {
                        assert(is_open_in(data[k], chat_id));
                    }
                }
            },
        }
    }
    found
}

/// How many statements an operation takes that first looks for the current
/// open call and, where there is one, runs `more` statements on it.
pub open spec fn statements_for(at: Option<int>, more: nat) -> nat {
    if at is Some {
        1 + more
    } else {
        1
    }
}

/// Whether `result` is the call at `at` in `tables`, or nothing where `at`
/// is nothing.
pub open spec fn is_call_at(result: Option<RollCall>, tables: TablesData, at: Option<int>) -> bool {
    match (result, at) {
        (Some(call), Some(i)) => call@ == tables.calls[i],
        (None, None) => true,
        _ => false,
    }
}

/// Whether `result` is the call at `at` in `tables` with its responses, the
/// one changed last first, or nothing where `at` is nothing.
pub open spec fn is_snapshot_at(
    result: Option<CallWithResponses>,
    tables: TablesData,
    at: Option<int>,
) -> bool {
    match (result, at) {
        (Some(found), Some(i)) => {
            &&& found.0@ == tables.calls[i]
            &&& responses_data(found.1@) == responses_of(tables.responses, tables.calls[i].id)
        },
        (None, None) => true,
        _ => false,
    }
}

/// What writing `update` to the current open call of the conversation
/// makes of a store and hands back. It takes one statement. The store is
/// the one that `updated` describes, and the changed call is handed back,
/// or nothing where the conversation has no open call. Where the
/// connection gives out, nothing is changed.
pub open spec fn call_updated(
    before: &Connection,
    after: &Connection,
    chat_id: ChatId,
    update: UpdateRollCall,
    result: QueryResult<Option<RollCall>>,
) -> bool {
    &&& after.statements_left() == after_statements(before.statements_left(), 1)
    &&& match result {
        Ok(changed) => {
            &&& can_run(before.statements_left(), 1)
            &&& after@ == updated(before@, chat_id, update)
            &&& is_call_at(changed, after@, current_call(before@.calls, chat_id))
        },
        Err(e) => {
            &&& !can_run(before.statements_left(), 1)
            &&& e == QueryError::Timeout
            &&& after@ == before@
        },
    }
}

fn update_call(conn: &mut Connection, chat_id: ChatId, update: UpdateRollCall) -> (result:
    QueryResult<Option<RollCall>>)
    ensures
        final(conn).wf(),
        call_updated(old(conn), final(conn), chat_id, update, result),
{
    proof {
        use_type_invariant(&*conn);
    }
    match conn.run(1) {
        Err(e) => {
            return Err(e);
        },
        Ok(_) => {},
    }
    proof {
        lemma_updated_well_formed(conn@, chat_id, update);
    }
    match find_current_call(&conn.calls, chat_id) {
        Some(i) => {
            let changed = update.apply_to(&conn.calls[i]);
            let copy = changed.clone();
            conn.put_call(i, changed);
            Ok(Some(copy))
        },
        None => Ok(None),
    }
}

/// The change that closes a call at `at`.
pub open spec fn closing(at: Timestamp) -> UpdateRollCall<'static> {
    UpdateRollCall {
        status: Some(CallStatus::Closed),
        title: None,
        quiet: None,
        updated_at: Some(at),
    }
}

/// The change that gives a call the title `title` at `at`.
pub open spec fn retitling<'a>(title: &'a str, at: Timestamp) -> UpdateRollCall<'a> {
    UpdateRollCall { status: None, title: Some(title), quiet: None, updated_at: Some(at) }
}

/// The change that sets the quiet flag of a call at `at`.
pub open spec fn muting(quiet: bool, at: Timestamp) -> UpdateRollCall<'static> {
    UpdateRollCall { status: None, title: None, quiet: Some(quiet), updated_at: Some(at) }
}

/// Closes the current open call of the conversation at the time `now` and
/// hands it back; nothing is changed and nothing handed back where the
/// conversation has no open call. Fails, without any change, only where
/// the connection gives out.
pub fn end_call(conn: &mut Connection, chat_id: ChatId, now: Timestamp) -> (result: QueryResult<
    Option<RollCall>,
>)
    ensures
        final(conn).wf(),
        call_updated(old(conn), final(conn), chat_id, closing(now), result),
{
    let update = UpdateRollCall::at(now).with_status(CallStatus::Closed);
    assert(update == closing(now));
    update_call(conn, chat_id, update)
}

/// Gives the current open call of the conversation a new title at the time
/// `now` and hands it back; nothing is changed and nothing handed back
/// where the conversation has no open call. Fails, without any change,
/// only where the connection gives out.
pub fn update_title(
    conn: &mut Connection,
    chat_id: ChatId,
    new_title: &str,
    now: Timestamp,
) -> (result: QueryResult<Option<RollCall>>)
    ensures
        final(conn).wf(),
        call_updated(old(conn), final(conn), chat_id, retitling(new_title, now), result),
{
    let update = UpdateRollCall::at(now).with_title(new_title);
    assert(update == retitling(new_title, now));
    update_call(conn, chat_id, update)
}

fn find_responses(responses: &Vec<RollCallResponse>, call_id: CallId) -> (found: Vec<
    RollCallResponse,
>)
    ensures
        responses_data(found@) == responses_of(responses_data(responses@), call_id),
{
    let ghost data = responses_data(responses@);
    let mut kept: Vec<RollCallResponse> = Vec::new();
    let mut i: usize = 0;
    while i < responses.len()
        invariant
            i <= responses.len(),
            data == responses_data(responses@),
            responses_data(kept@) == data.take(i as int).filter(answers(call_id)),
        decreases responses.len() - i,
    {
        proof {
            lemma_filter_next(data, i as int, answers(call_id));
        }
        if responses[i].roll_call_id == call_id {
            let response = responses[i].clone();
            assert(responses_data(kept@.push(response)) == responses_data(kept@).push(
                response@,
            ));
            kept.push(response);
        }
        i += 1;
    }
    assert(data.take(responses.len() as int) == data);
    sort_by_time(&kept, true)
}

/// What setting the quiet flag of the current open call of the
/// conversation at the time `now` makes of a store and hands back. It takes
/// one statement to change the call and, where there is one, one to read
/// its responses. The changed call is handed back with its responses, the
/// one changed last first, or nothing where the conversation has no open
/// call. Where the connection gives out, nothing is changed.
pub open spec fn quiet_updated(
    before: &Connection,
    after: &Connection,
    chat_id: ChatId,
    quiet: bool,
    now: Timestamp,
    result: QueryResult<Option<CallWithResponses>>,
) -> bool {
    let needed = statements_for(current_call(before@.calls, chat_id), 1);
    &&& after.statements_left() == after_statements(before.statements_left(), needed)
    &&& match result {
        Ok(found) => {
            &&& can_run(before.statements_left(), needed)
            &&& after@ == updated(before@, chat_id, muting(quiet, now))
            &&& is_snapshot_at(found, after@, current_call(before@.calls, chat_id))
        },
        Err(e) => {
            &&& !can_run(before.statements_left(), needed)
            &&& e == QueryError::Timeout
            &&& after@ == before@
        },
    }
}

/// Sets the quiet flag of the current open call of the conversation at the
/// time `now` and hands the call back with its responses, the one changed
/// last first; nothing is changed and nothing handed back where the
/// conversation has no open call. Fails, without any change, only where
/// the connection gives out.
pub fn update_quiet(conn: &mut Connection, chat_id: ChatId, quiet: bool, now: Timestamp) -> (result:
    QueryResult<Option<CallWithResponses>>)
    ensures
        final(conn).wf(),
        quiet_updated(old(conn), final(conn), chat_id, quiet, now, result),
{
    let update = UpdateRollCall::at(now).with_quiet(quiet);
    assert(update == muting(quiet, now));
    proof {
        use_type_invariant(&*conn);
    }
    let at = find_current_call(&conn.calls, chat_id);
    match conn.run(if at.is_some() { 2 } else { 1 }) {
        Err(e) => {
            return Err(e);
        },
        Ok(_) => {},
    }
    proof {
        lemma_updated_well_formed(conn@, chat_id, update);
    }
    match at {
        Some(i) => {
            let changed = update.apply_to(&conn.calls[i]);
            let copy = changed.clone();
            conn.put_call(i, changed);
            let responses = find_responses(&conn.responses, copy.id);
            Ok(Some((copy, responses)))
        },
        None => Ok(None),
    }
}

/// What looking for the current open call of the conversation hands back.
/// It takes one statement, and the store is never changed. Of several open
/// calls the one changed last is found, and of those changed at the same
/// time the one stored first.
pub open spec fn current_call_read(
    before: &Connection,
    after: &Connection,
    chat_id: ChatId,
    result: QueryResult<Option<RollCall>>,
) -> bool {
    &&& after@ == before@
    &&& after.statements_left() == after_statements(before.statements_left(), 1)
    &&& match result {
        Ok(found) => {
            &&& can_run(before.statements_left(), 1)
            &&& is_call_at(found, before@, current_call(before@.calls, chat_id))
        },
        Err(e) => !can_run(before.statements_left(), 1) && e == QueryError::Timeout,
    }
}

/// The current open call of the conversation; nothing where the
/// conversation has no open call. Fails only where the connection gives
/// out.
pub fn get_current_call(conn: &mut Connection, chat_id: ChatId) -> (result: QueryResult<
    Option<RollCall>,
>)
    ensures
        final(conn).wf(),
        current_call_read(old(conn), final(conn), chat_id, result),
{
    proof {
        use_type_invariant(&*conn);
    }
    match conn.run(1) {
        Err(e) => {
            return Err(e);
        },
        Ok(_) => {},
    }
    match find_current_call(&conn.calls, chat_id) {
        Some(i) => Ok(Some(conn.calls[i].clone())),
        None => Ok(None),
    }
}

/// What reading the responses to a call hands back: all of them, the one
/// changed last first, those changed at the same time in the order in
/// which they are stored. It takes one statement, and the store is never
/// changed.
pub open spec fn responses_read(
    before: &Connection,
    after: &Connection,
    call_id: CallId,
    result: QueryResult<Vec<RollCallResponse>>,
) -> bool {
    &&& after@ == before@
    &&& after.statements_left() == after_statements(before.statements_left(), 1)
    &&& match result {
        Ok(found) => {
            &&& can_run(before.statements_left(), 1)
            &&& responses_data(found@) == responses_of(before@.responses, call_id)
        },
        Err(e) => !can_run(before.statements_left(), 1) && e == QueryError::Timeout,
    }
}

/// The responses to the call `call_id`, the one changed last first. Fails
/// only where the connection gives out.
pub fn get_responses(conn: &mut Connection, call_id: CallId) -> (result: QueryResult<
    Vec<RollCallResponse>,
>)
    ensures
        final(conn).wf(),
        responses_read(old(conn), final(conn), call_id, result),
{
    proof {
        use_type_invariant(&*conn);
    }
    match conn.run(1) {
        Err(e) => {
            return Err(e);
        },
        Ok(_) => {},
    }
    Ok(find_responses(&conn.responses, call_id))
}

/// What reading the current open call of the conversation with its
/// responses hands back. It takes one statement to find the call and,
/// where there is one, one to read its responses, the one changed last
/// first. The store is never changed.
pub open spec fn snapshot_read(
    before: &Connection,
    after: &Connection,
    chat_id: ChatId,
    result: QueryResult<Option<CallWithResponses>>,
) -> bool {
    let needed = statements_for(current_call(before@.calls, chat_id), 1);
    &&& after@ == before@
    &&& after.statements_left() == after_statements(before.statements_left(), needed)
    &&& match result {
        Ok(found) => {
            &&& can_run(before.statements_left(), needed)
            &&& is_snapshot_at(found, before@, current_call(before@.calls, chat_id))
        },
        Err(e) => !can_run(before.statements_left(), needed) && e == QueryError::Timeout,
    }
}

/// The current open call of the conversation with its responses, the one
/// changed last first; nothing where the conversation has no open call.
/// The store is not changed. Fails only where the connection gives out.
pub fn get_call_with_responses(conn: &mut Connection, chat_id: ChatId) -> (result: QueryResult<
    Option<CallWithResponses>,
>)
    ensures
        final(conn).wf(),
        snapshot_read(old(conn), final(conn), chat_id, result),
{
    proof {
        use_type_invariant(&*conn);
    }
    let at = find_current_call(&conn.calls, chat_id);
    match conn.run(if at.is_some() { 2 } else { 1 }) {
        Err(e) => {
            return Err(e);
        },
        Ok(_) => {},
    }
    match at {
        Some(i) => {
            let open_call = conn.calls[i].clone();
            let responses = find_responses(&conn.responses, open_call.id);
            Ok(Some((open_call, responses)))
        },
        None => Ok(None),
    }
}

fn find_response(responses: &Vec<RollCallResponse>, record: &NewRollCallResponse) -> (found: Option<
    usize,
>)
    ensures
        match found {
            Some(i) => filed_at(responses_data(responses@), record.row(0)) == Some(i as int),
            None => filed_at(responses_data(responses@), record.row(0)) is None,
        },
{
    let ghost data = responses_data(responses@);
    let mut i: usize = 0;
    while i < responses.len()
        invariant
            i <= responses.len(),
            data == responses_data(responses@),
            forall|k: int| 0 <= k < i ==> !same_key(#[trigger] data[k], record.row(0)),
        decreases responses.len() - i,
    {
        if responses[i].roll_call_id == record.roll_call_id && responses[i].unique_token
            == record.unique_token {
            proof {
                assert(is_filed(data, record.row(0), i as int));
                lemma_filed_at(data, record.row(0), i as int);
            }
            return Some(i);
        }
        i += 1;
    }
    proof {
        assert forall|k: int| !is_filed(data, record.row(0), k) by {
            if is_filed(data, record.row(0), k) {
                assert(same_key(data[k], record.row(0)));
            }
        }
    }
    None
}

/// The statements that recording an answer takes: one to look for the
/// current open call and, where there is one, one to file the answer and
/// one to read the responses.
pub open spec fn statements_to_answer(tables: TablesData, chat_id: ChatId) -> nat {
    statements_for(current_call(tables.calls, chat_id), 2)
}

/// What recording the answer `record` in the conversation `chat_id` makes
/// of a store and hands back. Where the conversation has an open call, the
/// answer is filed under that call and the token of `record`: written over
/// the response that is filed there, which keeps its identifier, its user
/// and the time of its creation, or stored as a new response. The call is
/// handed back with all its responses, the one changed last first. Where
/// the conversation has no open call, nothing is changed and nothing handed
/// back. Where the connection gives out, or a new response finds no
/// identifier, nothing is changed.
pub open spec fn answer_recorded(
    before: &Connection,
    after: &Connection,
    chat_id: ChatId,
    record: ResponseData,
    result: QueryResult<Option<CallWithResponses>>,
) -> bool {
    let needed = statements_to_answer(before@, chat_id);
    &&& after.statements_left() == after_statements(before.statements_left(), needed)
    &&& match result {
        Ok(found) => {
            &&& can_run(before.statements_left(), needed)
            &&& !lacks_response_id(before@, chat_id, record)
            &&& after@ == answered(before@, chat_id, record)
            &&& is_snapshot_at(found, after@, current_call(before@.calls, chat_id))
        },
        Err(e) => {
            &&& after@ == before@
            &&& e == if can_run(before.statements_left(), needed) {
                QueryError::OutOfIds
            } else {
                QueryError::Timeout
            }
            &&& !can_run(before.statements_left(), needed) || lacks_response_id(
                before@,
                chat_id,
                record,
            )
        },
    }
}

fn set_response_base<'a, F: Fn(CallId) -> NewRollCallResponse<'a>>(
    conn: &mut Connection,
    chat_id: ChatId,
    value_fn: F,
) -> (result: QueryResult<Option<CallWithResponses>>)
    requires
        forall|call_id: CallId| value_fn.requires((call_id,)),
    ensures
        final(conn).wf(),
        current_call(old(conn)@.calls, chat_id) matches Some(i) ==> exists|
            record: NewRollCallResponse<'a>,
        |
            {
                &&& value_fn.ensures((old(conn)@.calls[i].id,), record)
                &&& answer_recorded(old(conn), final(conn), chat_id, record.row(0), result)
            },
        current_call(old(conn)@.calls, chat_id) is None ==> forall|record: ResponseData|
            answer_recorded(old(conn), final(conn), chat_id, record, result),
{
    proof {
        use_type_invariant(&*conn);
    }
    let i = match find_current_call(&conn.calls, chat_id) {
        Some(i) => i,
        None => {
            return match conn.run(1) {
                Ok(_) => Ok(None),
                Err(e) => Err(e),
            };
        },
    };
    let open_call = conn.calls[i].clone();
    let mut record = value_fn(open_call.id);
    let ghost made = record;
    record.roll_call_id = open_call.id;
    assert(record.row(0) == ResponseData { roll_call_id: open_call.id, ..made.row(0) });
    match conn.run(3) {
        Err(e) => {
            return Err(e);
        },
        Ok(_) => {},
    }
    let update = UpdateRollCallResponse::at(
        record.user_name,
        record.status,
        record.reason,
        record.updated_at,
    );
    let ghost before = conn@;
    match find_response(&conn.responses, &record) {
        Some(k) => {
            let changed = update.apply_to(&conn.responses[k]);
            assert(changed@ == overwritten(conn@.responses[k as int], record.row(0)));
            proof {
                lemma_answered_well_formed(before, chat_id, made.row(0));
            }
            let (calls, mut responses) = conn.take_rows();
            assert(responses_data(responses@.update(k as int, changed)) == responses_data(
                responses@,
            ).update(k as int, changed@));
            responses.set(k, changed);
            let next_call_id = conn.next_call_id;
            let next_response_id = conn.next_response_id;
            conn.put_rows(calls, responses, next_call_id, next_response_id);
        },
        None => {
            if conn.next_response_id == i64::MAX {
                return Err(QueryError::OutOfIds);
            }
            proof {
                lemma_answered_well_formed(before, chat_id, made.row(0));
            }
            let response = record.into_row(conn.next_response_id);
            let (calls, mut responses) = conn.take_rows();
            assert(responses_data(responses@.push(response)) == responses_data(responses@).push(
                response@,
            ));
            responses.push(response);
            let next_call_id = conn.next_call_id;
            let next_response_id = conn.next_response_id + 1;
            conn.put_rows(calls, responses, next_call_id, next_response_id);
        },
    }
    assert(conn@ == answered(before, chat_id, made.row(0)));
    let responses = find_responses(&conn.responses, open_call.id);
    let result = Ok(Some((open_call, responses)));
    assert(answer_recorded(old(conn), conn, chat_id, made.row(0), result));
    result
}

/// Records at the time `now` what the user `user_id` answers for themself
/// in the conversation `chat_id`. A second answer of the same user to the
/// same call is written over the first.
pub fn set_response(
    conn: &mut Connection,
    chat_id: ChatId,
    user_id: UserId,
    user_name: &str,
    attendance: &Attendance,
    now: Timestamp,
) -> (result: QueryResult<Option<CallWithResponses>>)
    requires
        user_id > 0,
    ensures
        final(conn).wf(),
        answer_recorded(
            old(conn),
            final(conn),
            chat_id,
            NewRollCallResponse::answer_self(0, user_id, user_name@, *attendance, now),
            result,
        ),
{
    let value_fn = |call_id: CallId| -> (record: NewRollCallResponse)
        ensures
            record.row(0) == NewRollCallResponse::answer_self(
                call_id,
                user_id,
                user_name@,
                *attendance,
                now,
            ),
        { NewRollCallResponse::self_at(call_id, user_id, user_name, attendance, now) };
    set_response_base(conn, chat_id, value_fn)
}

/// Records at the time `now` what is answered for somebody called
/// `user_name` in the conversation `chat_id`. A second answer for the same
/// name to the same call, in upper or lower case, is written over the
/// first.
pub fn set_response_for(
    conn: &mut Connection,
    chat_id: ChatId,
    user_name: &str,
    attendance: &Attendance,
    now: Timestamp,
) -> (result: QueryResult<Option<CallWithResponses>>)
    requires
        user_name@.len() > 0,
    ensures
        final(conn).wf(),
        answer_recorded(
            old(conn),
            final(conn),
            chat_id,
            NewRollCallResponse::answer_for(0, user_name@, *attendance, now),
            result,
        ),
{
    let value_fn = |call_id: CallId| -> (record: NewRollCallResponse)
        ensures
            record.row(0) == NewRollCallResponse::answer_for(call_id, user_name@, *attendance, now),
        { NewRollCallResponse::for_at(call_id, user_name, attendance, now) };
    set_response_base(conn, chat_id, value_fn)
}

} // verus!
