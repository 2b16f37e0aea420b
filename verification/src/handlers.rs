use vstd::prelude::*;

use crate::db;
use crate::db::QueryOutcome;
use crate::db::spec_list_result;
use crate::db::spec_single_result;
use crate::errors::ErrView;
use crate::errors::MyError;
use crate::errors::spec_body_of;
use crate::errors::spec_status_of;
use crate::json::json_of_book;
use crate::json::json_of_books;
use crate::json::json_of_status;
use crate::json::spec_json_of_book;
use crate::json::spec_json_of_books;
use crate::json::spec_json_of_status;
use crate::models::Status;

verus! {

/// An HTTP response as a handler decides it: a status code and the
/// body text.
pub struct Reply {
    pub status: u16,
    pub body: String,
}

/// What a handler observed while fetching: either the pool refused a
/// connection, with its diagnostic text, or a leased connection ran
/// the statement with this outcome.
pub enum FetchOutcome {
    PoolExhausted(String),
    Ready(QueryOutcome),
}

/// Spec-level reply for a failure kind: the taxonomy mapping and
/// nothing else.
pub open spec fn spec_error_reply(e: ErrView) -> (int, Seq<char>) {
    (spec_status_of(e), spec_body_of(e))
}

/// Spec-level reply of a handler owed one record: 200 with the
/// record's JSON object on success, the taxonomy mapping otherwise.
pub open spec fn spec_single_reply(o: FetchOutcome) -> (int, Seq<char>) {
    match o {
        FetchOutcome::PoolExhausted(m) => spec_error_reply(ErrView::PoolExhausted(m@)),
        FetchOutcome::Ready(q) => match spec_single_result(q) {
            Ok(bv) => (200, spec_json_of_book(bv)),
            Err(e) => spec_error_reply(e),
        },
    }
}

/// Spec-level reply of the list handler: 200 with the JSON array of
/// all records on success, the taxonomy mapping otherwise.
pub open spec fn spec_list_reply(o: FetchOutcome) -> (int, Seq<char>) {
    match o {
        FetchOutcome::PoolExhausted(m) => spec_error_reply(ErrView::PoolExhausted(m@)),
        FetchOutcome::Ready(q) => match spec_list_result(q) {
            Ok(bs) => (200, spec_json_of_books(bs)),
            Err(e) => spec_error_reply(e),
        },
    }
}

/// The one place a failure kind becomes an HTTP reply.
fn error_reply(e: MyError) -> (rep: Reply)
    ensures
        rep.status as int == spec_error_reply(e@).0,
        rep.body@ == spec_error_reply(e@).1,
{
    let status = e.http_status();
    let body = e.http_body();
    Reply { status, body }
}

/// Create handler decision: the caller decoded the draft, bound it
/// positionally and ran the insert; this turns what came back into
/// the HTTP reply.
pub fn add_book(o: FetchOutcome) -> (rep: Reply)
    ensures
        rep.status as int == spec_single_reply(o).0,
        rep.body@ == spec_single_reply(o).1,
{
    match o {
        FetchOutcome::PoolExhausted(m) => error_reply(MyError::ConnectionPoolExhausted(m)),
        FetchOutcome::Ready(q) => match db::add_book(q) {
            Ok(b) => Reply { status: 200, body: json_of_book(&b) },
            Err(e) => error_reply(e),
        },
    }
}

/// List handler decision: every record as a JSON array; an empty
/// table is an empty array with status 200, never an error.
pub fn get_book(o: FetchOutcome) -> (rep: Reply)
    ensures
        rep.status as int == spec_list_reply(o).0,
        rep.body@ == spec_list_reply(o).1,
{
    match o {
        FetchOutcome::PoolExhausted(m) => error_reply(MyError::ConnectionPoolExhausted(m)),
        FetchOutcome::Ready(q) => match db::get_book(q) {
            Ok(bs) => Reply { status: 200, body: json_of_books(&bs) },
            Err(e) => error_reply(e),
        },
    }
}

/// Read-by-id handler decision: the matched record, or the absence
/// mapping when no row matched.
pub fn get_book_id(o: FetchOutcome) -> (rep: Reply)
    ensures
        rep.status as int == spec_single_reply(o).0,
        rep.body@ == spec_single_reply(o).1,
{
    match o {
        FetchOutcome::PoolExhausted(m) => error_reply(MyError::ConnectionPoolExhausted(m)),
        FetchOutcome::Ready(q) => match db::get_book_id(q) {
            Ok(b) => Reply { status: 200, body: json_of_book(&b) },
            Err(e) => error_reply(e),
        },
    }
}

/// Liveness probe: always 200 with the fixed status body, touching
/// no storage.
pub fn status() -> (rep: Reply)
    ensures
        rep.status == 200,
        rep.body@ == spec_json_of_status("ok"@),
{
    let s = Status { status: String::from_str("ok") };
    Reply { status: 200, body: json_of_status(&s) }
}

} // verus!
