use vstd::prelude::*;

use crate::errors::ErrView;
use crate::errors::MyError;
use crate::models::Book;
use crate::models::BookNoId;
use crate::models::BookView;
use crate::models::DraftView;
use crate::models::views_of;

verus! {

/// Mathematical view of the table model.
#[verifier::ext_equal]
pub ghost struct TableView {
    pub rows: Seq<BookView>,
    pub next_id: int,
}

impl TableView {
    /// Well-formedness the storage contract guarantees: every
    /// identifier was assigned below the next free one, and no two
    /// rows share an identifier.
    pub open spec fn wf(self) -> bool {
        &&& 1 <= self.next_id
        &&& forall|i: int|
            0 <= i < self.rows.len() ==> (#[trigger] self.rows[i]).id < self.next_id
        &&& forall|i: int, j: int|
            0 <= i < j < self.rows.len() ==> (#[trigger] self.rows[i]).id != (
            #[trigger] self.rows[j]).id
    }
}

/// The first row carrying the identifier, if any.
pub open spec fn spec_find(rows: Seq<BookView>, id: int) -> Option<BookView>
    decreases rows.len(),
{
    if rows.len() == 0 {
        None
    } else if rows.first().id == id {
        Some(rows.first())
    } else {
        spec_find(rows.drop_first(), id)
    }
}

/// Insert as the storage contract promises it: the draft becomes a
/// row under the next free identifier, appended in storage order.
pub open spec fn spec_insert(t: TableView, d: DraftView) -> (TableView, BookView) {
    let b = d.with_id(t.next_id);
    (TableView { rows: t.rows.push(b), next_id: t.next_id + 1 }, b)
}

/// Law: a read by identifier misses exactly when no row carries the
/// identifier, however many other rows exist.
pub proof fn lemma_find_absent(rows: Seq<BookView>, id: int)
    ensures
        spec_find(rows, id) is None <==> (forall|i: int|
            0 <= i < rows.len() ==> (#[trigger] rows[i]).id != id),
    decreases rows.len(),
{
    if rows.len() > 0 {
        let rest = rows.drop_first();
        lemma_find_absent(rest, id);
        if spec_find(rows, id) is None {
            assert forall|i: int| 0 <= i < rows.len() implies (#[trigger] rows[i]).id != id by {
                if i > 0 {
                    assert(rest[i - 1] == rows[i]);
                }
            }
        } else {
            if rows.first().id != id {
                assert(spec_find(rest, id) is Some);
                let k = choose|i: int| 0 <= i < rest.len() && (#[trigger] rest[i]).id == id;
                assert(rows[k + 1] == rest[k]);
            }
        }
    }
}

/// Finding an identifier that no existing row carries, after a row
/// with that identifier is appended, yields the appended row.
proof fn lemma_find_push_fresh(rows: Seq<BookView>, b: BookView)
    requires
        forall|i: int| 0 <= i < rows.len() ==> (#[trigger] rows[i]).id != b.id,
    ensures
        spec_find(rows.push(b), b.id) == Some(b),
    decreases rows.len(),
{
    let all = rows.push(b);
    if rows.len() == 0 {
        assert(all.first() == b);
    } else {
        assert(all.first() == rows[0]);
        assert(all.drop_first() =~= rows.drop_first().push(b));
        assert forall|i: int|
            0 <= i < rows.drop_first().len() implies (#[trigger] rows.drop_first()[i]).id
            != b.id by {
            assert(rows.drop_first()[i] == rows[i + 1]);
        }
        lemma_find_push_fresh(rows.drop_first(), b);
    }
}

/// Appending a row with a different identifier does not change what
/// a read by the first identifier finds.
proof fn lemma_find_push_other(rows: Seq<BookView>, b: BookView, id: int)
    requires
        b.id != id,
    ensures
        spec_find(rows.push(b), id) == spec_find(rows, id),
    decreases rows.len(),
{
    let all = rows.push(b);
    assert(all.len() == rows.len() + 1);
    if rows.len() == 0 {
        assert(all.first() == b);
        assert(all.drop_first() =~= Seq::<BookView>::empty());
        assert(spec_find(all, id) == spec_find(all.drop_first(), id));
        assert(spec_find(all.drop_first(), id) is None);
    } else {
        assert(all.first() == rows[0]);
        assert(all.drop_first() =~= rows.drop_first().push(b));
        lemma_find_push_other(rows.drop_first(), b, id);
        if rows.first().id == id {
            assert(spec_find(rows, id) == Some(rows.first()));
            assert(spec_find(all, id) == Some(all.first()));
        } else {
            assert(spec_find(rows, id) == spec_find(rows.drop_first(), id));
            assert(spec_find(all, id) == spec_find(all.drop_first(), id));
            assert(spec_find(all.drop_first(), id) == spec_find(rows.drop_first().push(b), id));
        }
    }
}

/// Law: inserting a valid draft and then reading back the assigned
/// identifier yields exactly the inserted record, and keeps the
/// table well formed.
pub proof fn lemma_insert_then_get(t: TableView, d: DraftView)
    requires
        t.wf(),
    ensures
        spec_insert(t, d).0.wf(),
        spec_find(spec_insert(t, d).0.rows, spec_insert(t, d).1.id) == Some(spec_insert(t, d).1),
{
    let t2 = spec_insert(t, d).0;
    let b = spec_insert(t, d).1;
    assert forall|i: int| 0 <= i < t2.rows.len() implies (#[trigger] t2.rows[i]).id
        < t2.next_id by {
        if i < t.rows.len() {
            assert(t2.rows[i] == t.rows[i]);
        } else {
            assert(t2.rows[i] == b);
        }
    }
    assert forall|i: int, j: int|
        0 <= i < j < t2.rows.len() implies (#[trigger] t2.rows[i]).id != (
    #[trigger] t2.rows[j]).id by {
        if j < t.rows.len() {
            assert(t2.rows[i] == t.rows[i]);
            assert(t2.rows[j] == t.rows[j]);
        } else {
            assert(t2.rows[i] == t.rows[i]);
            assert(t2.rows[j] == b);
            assert(t.rows[i].id < t.next_id);
        }
    }
    assert forall|i: int| 0 <= i < t.rows.len() implies (#[trigger] t.rows[i]).id != b.id by {
        assert(t.rows[i].id < t.next_id);
    }
    lemma_find_push_fresh(t.rows, b);
}

/// Law: two successive inserts assign distinct identifiers and each
/// returned record carries exactly its own draft's fields; reading
/// either identifier afterwards yields the matching record, with no
/// cross-talk between the two.
pub proof fn lemma_two_inserts_no_cross_talk(t: TableView, d1: DraftView, d2: DraftView)
    requires
        t.wf(),
    ensures
        spec_insert(t, d1).1.id != spec_insert(spec_insert(t, d1).0, d2).1.id,
        spec_insert(t, d1).1.draft() == d1,
        spec_insert(spec_insert(t, d1).0, d2).1.draft() == d2,
        spec_find(
            spec_insert(spec_insert(t, d1).0, d2).0.rows,
            spec_insert(t, d1).1.id,
        ) == Some(spec_insert(t, d1).1),
        spec_find(
            spec_insert(spec_insert(t, d1).0, d2).0.rows,
            spec_insert(spec_insert(t, d1).0, d2).1.id,
        ) == Some(spec_insert(spec_insert(t, d1).0, d2).1),
{
    let t1 = spec_insert(t, d1).0;
    let b1 = spec_insert(t, d1).1;
    let t2 = spec_insert(t1, d2).0;
    let b2 = spec_insert(t1, d2).1;
    lemma_insert_then_get(t, d1);
    lemma_insert_then_get(t1, d2);
    lemma_find_push_other(t1.rows, b2, b1.id);
    assert(spec_find(t1.rows, b1.id) == Some(b1));
}

/// In-memory model of the storage contract the data layer assumes:
/// rows kept in storage order, identifiers assigned from a counter
/// starting at one.
pub struct Table {
    pub rows: Vec<Book>,
    pub next_id: i32,
}

impl View for Table {
    type V = TableView;

    open spec fn view(&self) -> TableView {
        TableView { rows: views_of(self.rows@), next_id: self.next_id as int }
    }
}

impl Table {
    /// An empty table.
    pub fn new() -> (t: Table)
        ensures
            t@.wf(),
            t@.rows.len() == 0,
            t@.next_id == 1,
    {
        Table { rows: Vec::new(), next_id: 1 }
    }

    /// Insert: assigns the next free identifier and appends the row;
    /// the returned record always carries the assigned identifier.
    pub fn insert(&mut self, d: BookNoId) -> (b: Book)
        requires
            old(self)@.wf(),
            old(self)@.next_id < i32::MAX as int,
        ensures
            final(self)@ == spec_insert(old(self)@, d@).0,
            b@ == spec_insert(old(self)@, d@).1,
            final(self)@.wf(),
            1 <= b@.id,
    {
        let id = self.next_id;
        self.next_id = self.next_id + 1;
        let b = d.into_book(id);
        let copy = b.clone();
        let ghost rows0 = self.rows@;
        self.rows.push(copy);
        proof {
            assert forall|i: int|
                0 <= i < views_of(self.rows@).len() implies #[trigger] views_of(self.rows@)[i]
                == views_of(rows0).push(b@)[i] by {
                assert(views_of(self.rows@)[i] == self.rows@[i]@);
                if i < rows0.len() {
                    assert(self.rows@[i] == rows0[i]);
                    assert(views_of(rows0)[i] == rows0[i]@);
                }
            }
            assert(views_of(self.rows@) =~= views_of(rows0).push(b@));
            assert(self@ =~= spec_insert(old(self)@, d@).0);
            lemma_insert_then_get(old(self)@, d@);
        }
        b
    }

    /// Every record, in storage order; total, an empty table gives
    /// an empty list, never an error.
    pub fn list_all(&self) -> (v: Vec<Book>)
        ensures
            views_of(v@) == self@.rows,
    {
        let mut v: Vec<Book> = Vec::new();
        let n = self.rows.len();
        let mut i: usize = 0;
        while i < n
            invariant
                i <= n,
                n == self.rows@.len(),
                views_of(v@) == views_of(self.rows@).subrange(0, i as int),
            decreases n - i,
        {
            let ghost v0 = v@;
            let b = self.rows[i].clone();
            let ghost bv = b@;
            v.push(b);
            proof {
                let all = views_of(self.rows@);
                assert(bv == self.rows@[i as int]@);
                assert(views_of(v0).len() == v0.len());
                assert(v0.len() == i as int);
                assert(v@.len() == i as int + 1);
                assert(all.len() == n as int);
                assert forall|j: int|
                    0 <= j < views_of(v@).len() implies #[trigger] views_of(v@)[j] == all.subrange(
                    0,
                    i as int + 1,
                )[j] by {
                    assert(views_of(v@)[j] == v@[j]@);
                    assert(all.subrange(0, i as int + 1)[j] == all[j]);
                    assert(all[j] == self.rows@[j]@);
                    if j < i as int {
                        assert(v@[j] == v0[j]);
                        assert(views_of(v0)[j] == v0[j]@);
                        assert(all.subrange(0, i as int)[j] == all[j]);
                    }
                }
                assert(views_of(v@) =~= all.subrange(0, i as int + 1));
            }
            i = i + 1;
        }
        proof {
            assert(views_of(self.rows@).subrange(0, n as int) =~= views_of(self.rows@));
        }
        v
    }

    /// Read by identifier: the first matching record, or absence —
    /// never a zero-valued record in place of absence.
    pub fn get_by_id(&self, id: i32) -> (r: Result<Book, MyError>)
        ensures
            match spec_find(self@.rows, id as int) {
                Some(bv) => r matches Ok(b) && b@ == bv,
                None => r matches Err(e) && e@ == ErrView::NotFound,
            },
    {
        let ghost all = views_of(self.rows@);
        let n = self.rows.len();
        proof {
            assert(all.skip(0) =~= all);
        }
        let mut i: usize = 0;
        while i < n
            invariant
                i <= n,
                n == self.rows@.len(),
                all == views_of(self.rows@),
                spec_find(all.skip(i as int), id as int) == spec_find(all, id as int),
            decreases n - i,
        {
            proof {
                assert(all[i as int] == self.rows@[i as int]@);
                assert(all.skip(i as int).first() == all[i as int]);
            }
            if self.rows[i].id == id {
                return Ok(self.rows[i].clone());
            }
            proof {
                assert(all.skip(i as int).drop_first() =~= all.skip(i as int + 1));
            }
            i = i + 1;
        }
        proof {
            assert(all.skip(n as int) =~= Seq::<BookView>::empty());
        }
        Err(MyError::NotFound)
    }
}

} // verus!
