use vstd::prelude::*;

use crate::errors::ErrView;
use crate::errors::MyError;
use crate::models::Book;
use crate::models::BookView;
use crate::models::col_author;
use crate::models::col_category;
use crate::models::col_id;
use crate::models::col_isbn;
use crate::models::col_title;

verus! {

/// Mathematical view of a cell value.
#[verifier::ext_equal]
pub ghost enum CellView {
    Int(int),
    Text(Seq<char>),
}

/// A database cell value as the data layer reads it: the two column
/// types of the book table.
pub enum DbValue {
    Int(i32),
    Text(String),
}

impl View for DbValue {
    type V = CellView;

    open spec fn view(&self) -> CellView {
        match self {
            DbValue::Int(i) => CellView::Int(*i as int),
            DbValue::Text(s) => CellView::Text(s@),
        }
    }
}

/// Mathematical view of one named column.
#[verifier::ext_equal]
pub ghost struct ColView {
    pub name: Seq<char>,
    pub value: CellView,
}

/// One named column of a returned row.
pub struct DbColumn {
    pub name: String,
    pub value: DbValue,
}

impl View for DbColumn {
    type V = ColView;

    open spec fn view(&self) -> ColView {
        ColView { name: self.name@, value: self.value@ }
    }
}

/// A returned row: named columns in storage order.
pub struct DbRow {
    pub columns: Vec<DbColumn>,
}

impl View for DbRow {
    type V = Seq<ColView>;

    open spec fn view(&self) -> Seq<ColView> {
        self.columns@.map_values(|c: DbColumn| c@)
    }
}

/// The value of the first column with the given name, if any.
pub open spec fn lookup(cols: Seq<ColView>, name: Seq<char>) -> Option<CellView>
    decreases cols.len(),
{
    if cols.len() == 0 {
        None
    } else if cols.first().name == name {
        Some(cols.first().value)
    } else {
        lookup(cols.drop_first(), name)
    }
}

/// The integer held by the named column, if it exists and is an integer.
pub open spec fn int_at(cols: Seq<ColView>, name: Seq<char>) -> Option<int> {
    match lookup(cols, name) {
        Some(CellView::Int(i)) => Some(i),
        _ => None,
    }
}

/// The text held by the named column, if it exists and is text.
pub open spec fn text_at(cols: Seq<ColView>, name: Seq<char>) -> Option<Seq<char>> {
    match lookup(cols, name) {
        Some(CellView::Text(s)) => Some(s),
        _ => None,
    }
}

/// The record a row converts to: defined exactly when the row carries
/// an integer identifier column and the four text columns, matched by
/// name, case-sensitively.
pub open spec fn spec_book_of_row(cols: Seq<ColView>) -> Option<BookView> {
    match (
        int_at(cols, col_id()),
        text_at(cols, col_title()),
        text_at(cols, col_isbn()),
        text_at(cols, col_author()),
        text_at(cols, col_category()),
    ) {
        (Some(id), Some(title), Some(isbn), Some(author), Some(category)) => (Some(
            BookView { id, title, isbn, author, category },
        )),
        _ => None,
    }
}

/// A reference to the value of the first column named `key`, if any.
fn find_value<'a>(row: &'a DbRow, key: &String) -> (res: Option<&'a DbValue>)
    ensures
        match res {
            Some(v) => lookup(row@, key@) == Some(v@),
            None => lookup(row@, key@) is None,
        },
{
    let n = row.columns.len();
    assert(row@.len() == n);
    assert(row@.skip(0) =~= row@);
    let mut i: usize = 0;
    while i < n
        invariant
            i <= n,
            n == row.columns.len(),
            row@.len() == n,
            lookup(row@.skip(i as int), key@) == lookup(row@, key@),
        decreases n - i,
    {
        assert(row@[i as int] == row.columns@[i as int]@);
        assert(row@.skip(i as int).first() == row@[i as int]);
        if key.eq(&row.columns[i].name) {
            assert(lookup(row@.skip(i as int), key@) == Some(row@[i as int].value));
            return Some(&row.columns[i].value);
        }
        assert(row@.skip(i as int).drop_first() =~= row@.skip(i as int + 1));
        i = i + 1;
    }
    assert(row@.skip(n as int) =~= Seq::<ColView>::empty());
    None
}

/// Converts a returned row into a record by explicit column-name
/// lookup; any missing column or mismatched type is a mapping failure.
pub fn book_from_row(row: &DbRow) -> (r: Result<Book, MyError>)
    ensures
        match spec_book_of_row(row@) {
            Some(bv) => r matches Ok(b) && b@ == bv,
            None => r matches Err(e) && e@ == ErrView::Mapping,
        },
{
    let key_id = String::from_str("id");
    let key_title = String::from_str("title");
    let key_isbn = String::from_str("isbn");
    let key_author = String::from_str("author");
    let key_category = String::from_str("category");
    let id: i32 = match find_value(row, &key_id) {
        Some(v) => match v {
            DbValue::Int(i) => *i,
            _ => {
                return Err(MyError::MappingError);
            },
        },
        None => {
            return Err(MyError::MappingError);
        },
    };
    let title: String = match find_value(row, &key_title) {
        Some(v) => match v {
            DbValue::Text(s) => s.clone(),
            _ => {
                return Err(MyError::MappingError);
            },
        },
        None => {
            return Err(MyError::MappingError);
        },
    };
    let isbn: String = match find_value(row, &key_isbn) {
        Some(v) => match v {
            DbValue::Text(s) => s.clone(),
            _ => {
                return Err(MyError::MappingError);
            },
        },
        None => {
            return Err(MyError::MappingError);
        },
    };
    let author: String = match find_value(row, &key_author) {
        Some(v) => match v {
            DbValue::Text(s) => s.clone(),
            _ => {
                return Err(MyError::MappingError);
            },
        },
        None => {
            return Err(MyError::MappingError);
        },
    };
    let category: String = match find_value(row, &key_category) {
        Some(v) => match v {
            DbValue::Text(s) => s.clone(),
            _ => {
                return Err(MyError::MappingError);
            },
        },
        None => {
            return Err(MyError::MappingError);
        },
    };
    Ok(Book { id, title, isbn, author, category })
}

} // verus!
