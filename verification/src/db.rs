use vstd::prelude::*;

use crate::errors::ErrView;
use crate::errors::MyError;
use crate::models::Book;
use crate::models::BookView;
use crate::models::views_of;
use crate::rows::DbRow;
use crate::rows::book_from_row;
use crate::rows::spec_book_of_row;

verus! {

/// Outcome of one data-layer statement as reported by the driver:
/// the two driver failure points, or the rows the statement returned.
pub enum QueryOutcome {
    /// Statement preparation failed.
    PrepareFailed,
    /// Query execution failed.
    ExecuteFailed,
    /// The statement ran and returned these rows.
    Rows(Vec<DbRow>),
}

/// Whether every returned row converts to a record.
pub open spec fn all_rows_map(rows: Seq<DbRow>) -> bool {
    forall|j: int| 0 <= j < rows.len() ==> spec_book_of_row(rows[j]@) is Some
}

/// The records of a fully convertible row set, in row order.
pub open spec fn spec_mapped(rows: Seq<DbRow>) -> Seq<BookView> {
    rows.map_values(|r: DbRow| spec_book_of_row(r@).unwrap())
}

/// Spec-level result of the list operation on a query outcome:
/// driver failures become storage errors, a row that does not
/// convert becomes a mapping error, and an empty row set is an
/// empty list, never an error.
pub open spec fn spec_list_result(q: QueryOutcome) -> Result<Seq<BookView>, ErrView> {
    match q {
        QueryOutcome::PrepareFailed => Err(ErrView::Storage),
        QueryOutcome::ExecuteFailed => Err(ErrView::Storage),
        QueryOutcome::Rows(rows) => if all_rows_map(rows@) {
            Ok(spec_mapped(rows@))
        } else {
            Err(ErrView::Mapping)
        },
    }
}

/// Spec-level result of an operation owed exactly one record: the
/// last returned row, or absence when none came back.
pub open spec fn spec_single_result(q: QueryOutcome) -> Result<BookView, ErrView> {
    match spec_list_result(q) {
        Err(e) => Err(e),
        Ok(bs) => if bs.len() == 0 {
            Err(ErrView::NotFound)
        } else {
            Ok(bs.last())
        },
    }
}

/// Law: a record a single-record operation returns is always mapped
/// from one of the rows the driver handed back — never a fabricated
/// or zero-valued record in place of absence.
pub proof fn lemma_single_result_from_rows(q: QueryOutcome)
    ensures
        spec_single_result(q) matches Ok(bv) ==> (q matches QueryOutcome::Rows(rows)
            && exists|j: int| 0 <= j < rows@.len() && spec_book_of_row(rows@[j]@) == Some(bv)),
{
    if spec_single_result(q) is Ok {
        match q {
            QueryOutcome::Rows(rows) => {
                let bs = spec_mapped(rows@);
                let k = rows@.len() - 1;
                assert(bs.len() == rows@.len());
                assert(bs.last() == bs[k]);
                assert(bs[k] == spec_book_of_row(rows@[k]@).unwrap());
                assert(spec_book_of_row(rows@[k]@) is Some);
            },
            QueryOutcome::PrepareFailed => {
            },
            QueryOutcome::ExecuteFailed => {
            },
        }
    }
}

/// The view of a single-record result.
pub open spec fn res_view_book(r: Result<Book, MyError>) -> Result<BookView, ErrView> {
    match r {
        Ok(b) => Ok(b@),
        Err(e) => Err(e@),
    }
}

/// The view of a record-list result.
pub open spec fn res_view_books(r: Result<Vec<Book>, MyError>) -> Result<
    Seq<BookView>,
    ErrView,
> {
    match r {
        Ok(bs) => Ok(views_of(bs@)),
        Err(e) => Err(e@),
    }
}

/// Converts every returned row, in order; the first row that does
/// not convert makes the whole set a mapping failure.
fn map_rows(rows: &Vec<DbRow>) -> (r: Result<Vec<Book>, MyError>)
    ensures
        all_rows_map(rows@) ==> (r matches Ok(bs) && views_of(bs@) == spec_mapped(rows@)),
        !all_rows_map(rows@) ==> (r matches Err(e) && e@ == ErrView::Mapping),
{
    let mut out: Vec<Book> = Vec::new();
    let n = rows.len();
    let mut i: usize = 0;
    while i < n
        invariant
            i <= n,
            n == rows@.len(),
            forall|j: int| 0 <= j < i ==> spec_book_of_row(rows@[j]@) is Some,
            views_of(out@) == spec_mapped(rows@.subrange(0, i as int)),
        decreases n - i,
    {
        let ghost out0 = out@;
        match book_from_row(&rows[i]) {
            Ok(b) => {
                let ghost bv = b@;
                out.push(b);
                proof {
                    let sub1 = rows@.subrange(0, i as int + 1);
                    let sub0 = rows@.subrange(0, i as int);
                    assert(spec_book_of_row(rows@[i as int]@) is Some);
                    assert(bv == spec_book_of_row(rows@[i as int]@).unwrap());
                    assert(out@.len() == out0.len() + 1);
                    assert(views_of(out0).len() == out0.len());
                    assert(spec_mapped(sub0).len() == sub0.len());
                    assert(out0.len() == i as int);
                    assert(views_of(out@).len() == sub1.len());
                    assert forall|j: int| 0 <= j < sub1.len() implies views_of(out@)[j]
                        == spec_mapped(sub1)[j] by {
                        assert(views_of(out@)[j] == out@[j]@);
                        assert(spec_mapped(sub1)[j] == spec_book_of_row(sub1[j]@).unwrap());
                        assert(sub1[j] == rows@[j]);
                        if j < i as int {
                            assert(out@[j] == out0[j]);
                            assert(views_of(out0)[j] == out0[j]@);
                            assert(spec_mapped(sub0)[j] == spec_book_of_row(sub0[j]@).unwrap());
                            assert(sub0[j] == rows@[j]);
                        } else {
                            assert(out@[j]@ == bv);
                        }
                    }
                    assert(views_of(out@) =~= spec_mapped(sub1));
                }
            },
            Err(e) => {
                assert(spec_book_of_row(rows@[i as int]@) is None);
                return Err(e);
            },
        }
        i = i + 1;
    }
    proof {
        assert(rows@.subrange(0, n as int) =~= rows@);
    }
    Ok(out)
}

/// The shared decision for the two single-record operations.
fn single_book(q: QueryOutcome) -> (r: Result<Book, MyError>)
    ensures
        res_view_book(r) == spec_single_result(q),
{
    match q {
        QueryOutcome::PrepareFailed => Err(MyError::StorageError),
        QueryOutcome::ExecuteFailed => Err(MyError::StorageError),
        QueryOutcome::Rows(rows) => {
            let mut books = match map_rows(&rows) {
                Ok(bs) => bs,
                Err(e) => {
                    return Err(e);
                },
            };
            let ghost pre = books@;
            proof {
                assert(views_of(pre).len() == pre.len());
            }
            match books.pop() {
                Some(b) => {
                    proof {
                        assert(views_of(pre).last() == pre.last()@);
                    }
                    Ok(b)
                },
                None => Err(MyError::NotFound),
            }
        },
    }
}

/// Decision part of the insert operation: the statement inserts the
/// four draft fields and returns the created row; exactly one row is
/// owed, so an empty returning set is a storage-contract breach
/// surfaced as absence.
pub fn add_book(q: QueryOutcome) -> (r: Result<Book, MyError>)
    ensures
        res_view_book(r) == spec_single_result(q),
{
    single_book(q)
}

/// Decision part of the list operation: every returned row, in
/// storage order; an empty table yields an empty list, never an
/// error.
pub fn get_book(q: QueryOutcome) -> (r: Result<Vec<Book>, MyError>)
    ensures
        res_view_books(r) == spec_list_result(q),
{
    match q {
        QueryOutcome::PrepareFailed => Err(MyError::StorageError),
        QueryOutcome::ExecuteFailed => Err(MyError::StorageError),
        QueryOutcome::Rows(rows) => map_rows(&rows),
    }
}

/// Decision part of the read-by-id operation: the single matched
/// row, or absence when no row matched; callers never receive a
/// zero-valued record in place of absence.
pub fn get_book_id(q: QueryOutcome) -> (r: Result<Book, MyError>)
    ensures
        res_view_book(r) == spec_single_result(q),
{
    single_book(q)
}

} // verus!
