use book_service::db::QueryOutcome;
use book_service::handlers;
use book_service::handlers::FetchOutcome;
use book_service::rows::DbColumn;
use book_service::rows::DbRow;
use book_service::rows::DbValue;

fn col(name: &str, value: DbValue) -> DbColumn {
    DbColumn { name: name.to_string(), value }
}

fn book_row(id: i32, title: &str, isbn: &str, author: &str, category: &str) -> DbRow {
    DbRow {
        columns: vec![
            col("id", DbValue::Int(id)),
            col("title", DbValue::Text(title.to_string())),
            col("isbn", DbValue::Text(isbn.to_string())),
            col("author", DbValue::Text(author.to_string())),
            col("category", DbValue::Text(category.to_string())),
        ],
    }
}

#[test]
fn post_books_dune_round_trips_exactly() {
    let returned = book_row(1, "Dune", "9780441013593", "Herbert", "SciFi");
    let rep = handlers::add_book(FetchOutcome::Ready(QueryOutcome::Rows(vec![returned])));
    assert_eq!(rep.status, 200);
    assert_eq!(
        rep.body.as_str(),
        "{\"id\":1,\"title\":\"Dune\",\"isbn\":\"9780441013593\",\"author\":\"Herbert\",\"category\":\"SciFi\"}"
    );
    let again = book_row(1, "Dune", "9780441013593", "Herbert", "SciFi");
    let rep2 = handlers::get_book_id(FetchOutcome::Ready(QueryOutcome::Rows(vec![again])));
    assert_eq!(rep2.status, 200);
    assert_eq!(rep.body, rep2.body);
}

#[test]
fn get_missing_book_is_404_with_empty_body() {
    let rep = handlers::get_book_id(FetchOutcome::Ready(QueryOutcome::Rows(vec![])));
    assert_eq!(rep.status, 404);
    assert_eq!(rep.body.as_str(), "");
}

#[test]
fn list_on_empty_table_is_200_with_empty_array() {
    let rep = handlers::get_book(FetchOutcome::Ready(QueryOutcome::Rows(vec![])));
    assert_eq!(rep.status, 200);
    assert_eq!(rep.body.as_str(), "[]");
}

#[test]
fn list_serializes_every_row_in_order() {
    let rows = vec![book_row(1, "a", "1", "x", "c"), book_row(2, "b", "2", "y", "d")];
    let rep = handlers::get_book(FetchOutcome::Ready(QueryOutcome::Rows(rows)));
    assert_eq!(rep.status, 200);
    assert_eq!(
        rep.body.as_str(),
        "[{\"id\":1,\"title\":\"a\",\"isbn\":\"1\",\"author\":\"x\",\"category\":\"c\"},{\"id\":2,\"title\":\"b\",\"isbn\":\"2\",\"author\":\"y\",\"category\":\"d\"}]"
    );
}

#[test]
fn pool_exhaustion_is_500_with_the_diagnostic_body() {
    let rep = handlers::get_book(FetchOutcome::PoolExhausted("pool timed out".to_string()));
    assert_eq!(rep.status, 500);
    assert_eq!(rep.body.as_str(), "pool timed out");
}

#[test]
fn driver_failures_are_500_with_a_generic_body() {
    let rep = handlers::add_book(FetchOutcome::Ready(QueryOutcome::PrepareFailed));
    assert_eq!(rep.status, 500);
    assert_eq!(rep.body.as_str(), "internal error");
    let rep2 = handlers::get_book(FetchOutcome::Ready(QueryOutcome::ExecuteFailed));
    assert_eq!(rep2.status, 500);
    assert_eq!(rep2.body.as_str(), "internal error");
}

#[test]
fn unmappable_row_is_500_with_a_generic_body() {
    let missing_isbn = DbRow {
        columns: vec![
            col("id", DbValue::Int(7)),
            col("title", DbValue::Text("x".to_string())),
            col("author", DbValue::Text("y".to_string())),
            col("category", DbValue::Text("z".to_string())),
        ],
    };
    let rep = handlers::get_book_id(FetchOutcome::Ready(QueryOutcome::Rows(vec![missing_isbn])));
    assert_eq!(rep.status, 500);
    assert_eq!(rep.body.as_str(), "internal error");
}

#[test]
fn mistyped_column_is_500_with_a_generic_body() {
    let bad = DbRow {
        columns: vec![
            col("id", DbValue::Text("not a number".to_string())),
            col("title", DbValue::Text("x".to_string())),
            col("isbn", DbValue::Text("i".to_string())),
            col("author", DbValue::Text("y".to_string())),
            col("category", DbValue::Text("z".to_string())),
        ],
    };
    let rep = handlers::get_book_id(FetchOutcome::Ready(QueryOutcome::Rows(vec![bad])));
    assert_eq!(rep.status, 500);
    assert_eq!(rep.body.as_str(), "internal error");
}

#[test]
fn insert_returning_no_row_surfaces_as_404() {
    let rep = handlers::add_book(FetchOutcome::Ready(QueryOutcome::Rows(vec![])));
    assert_eq!(rep.status, 404);
    assert_eq!(rep.body.as_str(), "");
}

#[test]
fn single_record_operations_take_the_last_returned_row() {
    let rows = vec![book_row(1, "a", "1", "x", "c"), book_row(2, "b", "2", "y", "d")];
    let rep = handlers::get_book_id(FetchOutcome::Ready(QueryOutcome::Rows(rows)));
    assert_eq!(rep.status, 200);
    assert_eq!(
        rep.body.as_str(),
        "{\"id\":2,\"title\":\"b\",\"isbn\":\"2\",\"author\":\"y\",\"category\":\"d\"}"
    );
}

#[test]
fn mapping_goes_by_column_name_not_position() {
    let scrambled = DbRow {
        columns: vec![
            col("category", DbValue::Text("c".to_string())),
            col("author", DbValue::Text("y".to_string())),
            col("extra", DbValue::Int(99)),
            col("isbn", DbValue::Text("2".to_string())),
            col("title", DbValue::Text("b".to_string())),
            col("id", DbValue::Int(4)),
        ],
    };
    let rep = handlers::get_book_id(FetchOutcome::Ready(QueryOutcome::Rows(vec![scrambled])));
    assert_eq!(rep.status, 200);
    assert_eq!(
        rep.body.as_str(),
        "{\"id\":4,\"title\":\"b\",\"isbn\":\"2\",\"author\":\"y\",\"category\":\"c\"}"
    );
}

#[test]
fn status_probe_is_200_ok_body() {
    let rep = handlers::status();
    assert_eq!(rep.status, 200);
    assert_eq!(rep.body.as_str(), "{\"status\":\"ok\"}");
}
