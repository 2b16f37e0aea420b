use book_service::errors::MyError;
use book_service::models::BookNoId;
use book_service::store::Table;

fn draft(title: &str, isbn: &str, author: &str, category: &str) -> BookNoId {
    BookNoId {
        title: title.to_string(),
        isbn: isbn.to_string(),
        author: author.to_string(),
        category: category.to_string(),
    }
}

#[test]
fn insert_then_get_returns_inserted_book() {
    let mut t = Table::new();
    let b = t.insert(draft("Dune", "9780441013593", "Herbert", "SciFi"));
    let got = t.get_by_id(b.id).unwrap();
    assert_eq!(got.id, b.id);
    assert_eq!(got.title, "Dune");
    assert_eq!(got.isbn, "9780441013593");
    assert_eq!(got.author, "Herbert");
    assert_eq!(got.category, "SciFi");
}

#[test]
fn list_all_on_empty_table_is_empty_not_an_error() {
    let t = Table::new();
    let all = t.list_all();
    assert!(all.is_empty());
}

#[test]
fn get_by_id_absent_is_not_found_regardless_of_other_rows() {
    let mut t = Table::new();
    for i in 0..10 {
        let b = t.insert(draft(&format!("t{}", i), "i", "a", "c"));
        assert_ne!(b.id, 999);
    }
    let r = t.get_by_id(999);
    assert!(matches!(r, Err(MyError::NotFound)));
}

#[test]
fn insert_always_assigns_an_id() {
    let mut t = Table::new();
    let b1 = t.insert(draft("one", "1", "a", "c"));
    assert_eq!(b1.id, 1);
    let b2 = t.insert(draft("two", "2", "a", "c"));
    assert_eq!(b2.id, 2);
}

#[test]
fn two_inserts_get_distinct_correctly_paired_ids() {
    let mut t = Table::new();
    let b1 = t.insert(draft("first", "111", "a1", "c1"));
    let b2 = t.insert(draft("second", "222", "a2", "c2"));
    assert_ne!(b1.id, b2.id);
    let g1 = t.get_by_id(b1.id).unwrap();
    let g2 = t.get_by_id(b2.id).unwrap();
    assert_eq!(g1.title, "first");
    assert_eq!(g1.isbn, "111");
    assert_eq!(g2.title, "second");
    assert_eq!(g2.isbn, "222");
}

#[test]
fn list_all_keeps_storage_order() {
    let mut t = Table::new();
    t.insert(draft("a", "1", "x", "c"));
    t.insert(draft("b", "2", "y", "c"));
    t.insert(draft("c", "3", "z", "c"));
    let all = t.list_all();
    assert_eq!(all.len(), 3);
    assert_eq!(all[0].title, "a");
    assert_eq!(all[1].title, "b");
    assert_eq!(all[2].title, "c");
}
