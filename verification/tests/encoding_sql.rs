use book_service::json::json_of_book;
use book_service::json::json_of_books;
use book_service::models::Book;
use book_service::rows::DbValue;
use book_service::sql::insert_params;
use book_service::sql::insert_sql;
use book_service::sql::select_all_sql;
use book_service::sql::select_by_id_params;
use book_service::sql::select_by_id_sql;
use book_service::models::BookNoId;

fn book(id: i32, title: &str, isbn: &str, author: &str, category: &str) -> Book {
    Book {
        id,
        title: title.to_string(),
        isbn: isbn.to_string(),
        author: author.to_string(),
        category: category.to_string(),
    }
}

#[test]
fn json_escapes_quotes_backslashes_and_controls() {
    let b = book(3, "a\"b", "c\\d", "e\nf", "g\u{1}h");
    let s = json_of_book(&b);
    assert_eq!(
        s.as_str(),
        "{\"id\":3,\"title\":\"a\\\"b\",\"isbn\":\"c\\\\d\",\"author\":\"e\\nf\",\"category\":\"g\\u0001h\"}"
    );
}

#[test]
fn json_renders_negative_and_large_ids() {
    let b = book(-12, "t", "i", "a", "c");
    let s = json_of_book(&b);
    assert_eq!(s.as_str(), "{\"id\":-12,\"title\":\"t\",\"isbn\":\"i\",\"author\":\"a\",\"category\":\"c\"}");
    let b2 = book(i32::MIN, "t", "i", "a", "c");
    let s2 = json_of_book(&b2);
    assert!(s2.as_str().starts_with("{\"id\":-2147483648,"));
    let b3 = book(i32::MAX, "t", "i", "a", "c");
    let s3 = json_of_book(&b3);
    assert!(s3.as_str().starts_with("{\"id\":2147483647,"));
}

#[test]
fn json_escapes_tab_and_carriage_return() {
    let b = book(1, "a\tb", "c\rd", "e", "f");
    let s = json_of_book(&b);
    assert_eq!(
        s.as_str(),
        "{\"id\":1,\"title\":\"a\\tb\",\"isbn\":\"c\\rd\",\"author\":\"e\",\"category\":\"f\"}"
    );
}

#[test]
fn json_passes_unicode_text_through_unescaped() {
    let b = book(2, "Dune \u{2014} messie", "é", "ü", "汉");
    let s = json_of_book(&b);
    assert_eq!(
        s.as_str(),
        "{\"id\":2,\"title\":\"Dune \u{2014} messie\",\"isbn\":\"é\",\"author\":\"ü\",\"category\":\"汉\"}"
    );
}

#[test]
fn json_keeps_empty_fields_as_empty_strings() {
    let b = book(5, "", "", "", "");
    let s = json_of_book(&b);
    assert_eq!(s.as_str(), "{\"id\":5,\"title\":\"\",\"isbn\":\"\",\"author\":\"\",\"category\":\"\"}");
}

#[test]
fn json_array_of_no_books_is_empty() {
    let bs: Vec<Book> = vec![];
    assert_eq!(json_of_books(&bs).as_str(), "[]");
}

#[test]
fn insert_statement_binds_positionally_and_returns_all_columns() {
    assert_eq!(
        insert_sql().as_str(),
        "INSERT INTO book.book (title, isbn, author, category) VALUES ($1, $2, $3, $4) RETURNING id, title, isbn, author, category"
    );
}

#[test]
fn select_statements_name_the_record_columns() {
    assert_eq!(
        select_all_sql().as_str(),
        "SELECT id, title, isbn, author, category FROM book.book"
    );
    assert_eq!(
        select_by_id_sql().as_str(),
        "SELECT id, title, isbn, author, category FROM book.book WHERE id = $1"
    );
}

#[test]
fn statement_text_is_independent_of_the_draft() {
    // The draft goes only into the positional parameters; hostile
    // field contents never reach the statement text.
    let d = BookNoId {
        title: "'); DROP TABLE book.book; --".to_string(),
        isbn: "i".to_string(),
        author: "a".to_string(),
        category: "c".to_string(),
    };
    let sql = insert_sql();
    assert!(!sql.as_str().contains("DROP"));
    let params = insert_params(&d);
    assert_eq!(params.len(), 4);
    assert!(matches!(&params[0], DbValue::Text(t) if t == "'); DROP TABLE book.book; --"));
    assert!(matches!(&params[1], DbValue::Text(t) if t == "i"));
    assert!(matches!(&params[2], DbValue::Text(t) if t == "a"));
    assert!(matches!(&params[3], DbValue::Text(t) if t == "c"));
}

#[test]
fn select_by_id_binds_the_requested_id() {
    let params = select_by_id_params(42);
    assert_eq!(params.len(), 1);
    assert!(matches!(params[0], DbValue::Int(42)));
}
