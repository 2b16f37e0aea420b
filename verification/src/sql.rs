use vstd::prelude::*;

use crate::models::BookNoId;
use crate::models::col_author;
use crate::models::col_category;
use crate::models::col_id;
use crate::models::col_isbn;
use crate::models::col_title;
use crate::rows::CellView;
use crate::rows::DbValue;

verus! {

/// The column list of the insert statement and of every returning or
/// select clause; a fixed constant of the schema, never derived from
/// request input.
pub open spec fn spec_all_columns() -> Seq<char> {
    col_id() + ", "@ + col_title() + ", "@ + col_isbn() + ", "@ + col_author() + ", "@
        + col_category()
}

/// The four draft columns, in the positional-parameter order of the
/// insert statement.
pub open spec fn spec_draft_columns() -> Seq<char> {
    col_title() + ", "@ + col_isbn() + ", "@ + col_author() + ", "@ + col_category()
}

/// Text of the insert statement: the four draft fields are bound
/// positionally, and the returning clause yields the full created
/// row, identifier included.
pub open spec fn spec_insert_sql() -> Seq<char> {
    "INSERT INTO book.book ("@ + spec_draft_columns()
        + ") VALUES ($1, $2, $3, $4) RETURNING "@ + spec_all_columns()
}

/// Text of the unfiltered select over all rows.
pub open spec fn spec_select_all_sql() -> Seq<char> {
    "SELECT "@ + spec_all_columns() + " FROM book.book"@
}

/// Text of the select filtered by identifier; the identifier is
/// bound positionally, never interpolated.
pub open spec fn spec_select_by_id_sql() -> Seq<char> {
    "SELECT "@ + spec_all_columns() + " FROM book.book WHERE "@ + col_id() + " = $1"@
}

/// Appends the full column list to `out`.
fn push_all_columns(out: &mut String)
    ensures
        final(out)@ == old(out)@ + spec_all_columns(),
{
    out.append("id");
    out.append(", ");
    out.append("title");
    out.append(", ");
    out.append("isbn");
    out.append(", ");
    out.append("author");
    out.append(", ");
    out.append("category");
    proof {
        assert(out@ =~= old(out)@ + spec_all_columns());
    }
}

/// Appends the draft column list to `out`.
fn push_draft_columns(out: &mut String)
    ensures
        final(out)@ == old(out)@ + spec_draft_columns(),
{
    out.append("title");
    out.append(", ");
    out.append("isbn");
    out.append(", ");
    out.append("author");
    out.append(", ");
    out.append("category");
    proof {
        assert(out@ =~= old(out)@ + spec_draft_columns());
    }
}

/// Builds the insert statement text.
pub fn insert_sql() -> (s: String)
    ensures
        s@ == spec_insert_sql(),
{
    let mut out = String::from_str("INSERT INTO book.book (");
    push_draft_columns(&mut out);
    out.append(") VALUES ($1, $2, $3, $4) RETURNING ");
    push_all_columns(&mut out);
    proof {
        assert(out@ =~= spec_insert_sql());
    }
    out
}

/// Builds the list statement text.
pub fn select_all_sql() -> (s: String)
    ensures
        s@ == spec_select_all_sql(),
{
    let mut out = String::from_str("SELECT ");
    push_all_columns(&mut out);
    out.append(" FROM book.book");
    proof {
        assert(out@ =~= spec_select_all_sql());
    }
    out
}

/// Builds the read-by-id statement text.
pub fn select_by_id_sql() -> (s: String)
    ensures
        s@ == spec_select_by_id_sql(),
{
    let mut out = String::from_str("SELECT ");
    push_all_columns(&mut out);
    out.append(" FROM book.book WHERE ");
    out.append("id");
    out.append(" = $1");
    proof {
        assert(out@ =~= spec_select_by_id_sql());
    }
    out
}

/// The positional parameters of the insert statement: exactly the
/// four draft fields, as text cells, in draft-column order.
pub fn insert_params(d: &BookNoId) -> (v: Vec<DbValue>)
    ensures
        v@.len() == 4,
        v@[0]@ == CellView::Text(d@.title),
        v@[1]@ == CellView::Text(d@.isbn),
        v@[2]@ == CellView::Text(d@.author),
        v@[3]@ == CellView::Text(d@.category),
{
    let mut v: Vec<DbValue> = Vec::new();
    v.push(DbValue::Text(d.title.clone()));
    v.push(DbValue::Text(d.isbn.clone()));
    v.push(DbValue::Text(d.author.clone()));
    v.push(DbValue::Text(d.category.clone()));
    v
}

/// The positional parameter of the read-by-id statement: the
/// requested identifier alone.
pub fn select_by_id_params(id: i32) -> (v: Vec<DbValue>)
    ensures
        v@.len() == 1,
        v@[0]@ == CellView::Int(id as int),
{
    let mut v: Vec<DbValue> = Vec::new();
    v.push(DbValue::Int(id));
    v
}

} // verus!
