use vstd::prelude::*;

verus! {

/// Mathematical view of a persisted book record.
#[verifier::ext_equal]
pub ghost struct BookView {
    pub id: int,
    pub title: Seq<char>,
    pub isbn: Seq<char>,
    pub author: Seq<char>,
    pub category: Seq<char>,
}

/// Mathematical view of a creation payload: a book before storage
/// has assigned an identifier.
#[verifier::ext_equal]
pub ghost struct DraftView {
    pub title: Seq<char>,
    pub isbn: Seq<char>,
    pub author: Seq<char>,
    pub category: Seq<char>,
}

impl DraftView {
    /// The record this draft becomes once storage assigns `id`.
    pub open spec fn with_id(self, id: int) -> BookView {
        BookView {
            id,
            title: self.title,
            isbn: self.isbn,
            author: self.author,
            category: self.category,
        }
    }
}

impl BookView {
    /// The draft part of a record: every field except the identifier.
    pub open spec fn draft(self) -> DraftView {
        DraftView { title: self.title, isbn: self.isbn, author: self.author, category: self.category }
    }
}

/// A persisted book record; `id` is assigned by storage, unique and
/// immutable once created.
pub struct Book {
    pub id: i32,
    pub title: String,
    pub isbn: String,
    pub author: String,
    pub category: String,
}

impl View for Book {
    type V = BookView;

    open spec fn view(&self) -> BookView {
        BookView {
            id: self.id as int,
            title: self.title@,
            isbn: self.isbn@,
            author: self.author@,
            category: self.category@,
        }
    }
}

impl Clone for Book {
    fn clone(&self) -> (res: Self)
        ensures
            res@ == self@,
    {
        Book {
            id: self.id,
            title: self.title.clone(),
            isbn: self.isbn.clone(),
            author: self.author.clone(),
            category: self.category.clone(),
        }
    }
}

/// The creation payload: the fields of a book without an identifier.
pub struct BookNoId {
    pub title: String,
    pub isbn: String,
    pub author: String,
    pub category: String,
}

impl View for BookNoId {
    type V = DraftView;

    open spec fn view(&self) -> DraftView {
        DraftView {
            title: self.title@,
            isbn: self.isbn@,
            author: self.author@,
            category: self.category@,
        }
    }
}

impl Clone for BookNoId {
    fn clone(&self) -> (res: Self)
        ensures
            res@ == self@,
    {
        BookNoId {
            title: self.title.clone(),
            isbn: self.isbn.clone(),
            author: self.author.clone(),
            category: self.category.clone(),
        }
    }
}

impl BookNoId {
    /// The record this draft becomes once storage assigns `id`.
    pub fn into_book(self, id: i32) -> (b: Book)
        ensures
            b@ == self@.with_id(id as int),
    {
        Book { id, title: self.title, isbn: self.isbn, author: self.author, category: self.category }
    }
}

/// The views of a record sequence.
pub open spec fn views_of(bs: Seq<Book>) -> Seq<BookView> {
    bs.map_values(|b: Book| b@)
}

/// Name of the identifier column; field names are the contract with
/// both the wire format and the storage column names.
pub open spec fn col_id() -> Seq<char> {
    "id"@
}

/// Name of the title column.
pub open spec fn col_title() -> Seq<char> {
    "title"@
}

/// Name of the isbn column.
pub open spec fn col_isbn() -> Seq<char> {
    "isbn"@
}

/// Name of the author column.
pub open spec fn col_author() -> Seq<char> {
    "author"@
}

/// Name of the category column.
pub open spec fn col_category() -> Seq<char> {
    "category"@
}

/// Body of the liveness probe response.
pub struct Status {
    pub status: String,
}

impl View for Status {
    type V = Seq<char>;

    open spec fn view(&self) -> Seq<char> {
        self.status@
    }
}

} // verus!
