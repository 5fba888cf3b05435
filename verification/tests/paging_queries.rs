//! Keyset paging, engine dialects and the id normalization of iter paging.

use valence_platform::iter::paging::{
    assert_safe_table_name, bare_record_id_from_query_cell, count_from_cell, count_query,
    ids_from_cells, is_mem_engine, is_sql_document_engine, is_surreal_engine, keyset_page,
    ordered_ids_query, page_query, page_request_admits, page_row_ids, uses_in_process_keyset,
    CountCell, COUNT_NON_INTEGER_MESSAGE, COUNT_NO_ROWS_MESSAGE, UNSAFE_TABLE_NAME_MESSAGE,
};
use valence_platform::model::IdCell;

const MEM: &str = "mem";
const SQLITE: &str = "sqlite";

fn strings(v: &[&str]) -> Vec<String> {
    v.iter().map(|s| s.to_string()).collect()
}

#[test]
fn keyset_page_sorts_dedups_and_limits() {
    let raw = strings(&["c", "a", "b", "a", "d"]);
    assert_eq!(keyset_page(&raw, None, 3), strings(&["a", "b", "c"]));
    assert_eq!(keyset_page(&raw, None, 10), strings(&["a", "b", "c", "d"]));
    assert_eq!(keyset_page(&raw, None, 0), Vec::<String>::new());
}

#[test]
fn keyset_page_starts_strictly_after_cursor() {
    let raw = strings(&["c", "a", "b", "d"]);
    assert_eq!(keyset_page(&raw, Some("b"), 10), strings(&["c", "d"]));
    assert_eq!(keyset_page(&raw, Some("bb"), 1), strings(&["c"]));
    assert_eq!(keyset_page(&raw, Some("z"), 10), Vec::<String>::new());
    // An empty cursor means "from the start".
    assert_eq!(keyset_page(&raw, Some(""), 2), strings(&["a", "b"]));
}

#[test]
fn consecutive_pages_cover_every_id_once() {
    let raw = strings(&["e", "b", "d", "a", "c", "b"]);
    let first = keyset_page(&raw, None, 2);
    assert_eq!(first, strings(&["a", "b"]));
    let second = keyset_page(&raw, Some(first.last().unwrap()), 2);
    assert_eq!(second, strings(&["c", "d"]));
    let third = keyset_page(&raw, Some(second.last().unwrap()), 2);
    assert_eq!(third, strings(&["e"]));
    let fourth = keyset_page(&raw, Some(third.last().unwrap()), 2);
    assert!(fourth.is_empty());
}

#[test]
fn table_name_check() {
    assert_eq!(assert_safe_table_name("widget_2"), Ok(()));
    let err = assert_safe_table_name("w; DROP").unwrap_err();
    assert_eq!(err, format!("{}{:?}", UNSAFE_TABLE_NAME_MESSAGE, "w; DROP"));
    assert!(assert_safe_table_name("wid\"get").unwrap_err().ends_with("\"wid\\\"get\""));
    assert_eq!(page_request_admits("widget", 0), Ok(false));
    assert_eq!(page_request_admits("widget", 7), Ok(true));
    assert_eq!(
        page_request_admits("a-b", 7),
        Err(format!("{}{:?}", UNSAFE_TABLE_NAME_MESSAGE, "a-b"))
    );
}

#[test]
fn engine_dialects() {
    assert!(is_surreal_engine("surrealdb"));
    assert!(!is_surreal_engine("sqlite"));
    assert!(is_mem_engine("mem", MEM));
    assert!(is_mem_engine("valence-inmemory", MEM));
    assert!(!is_mem_engine("surreal", MEM));
    assert!(is_sql_document_engine("sqlite", SQLITE));
    assert!(is_sql_document_engine("postgres-docs", SQLITE));
    assert!(is_sql_document_engine("hybrid", SQLITE));
    assert!(!is_sql_document_engine("surreal", SQLITE));
    assert!(uses_in_process_keyset("mem", SQLITE));
    assert!(uses_in_process_keyset("redis", SQLITE));
    assert!(!uses_in_process_keyset("surrealkv", SQLITE));
    assert!(!uses_in_process_keyset("sqlite", SQLITE));
}

#[test]
fn count_queries_per_engine() {
    assert_eq!(
        count_query("surreal", "widget", MEM, SQLITE),
        "SELECT VALUE count FROM (SELECT count() AS count FROM widget GROUP ALL)"
    );
    assert_eq!(count_query("mem", "widget", MEM, SQLITE), "SELECT count() AS count FROM widget");
    assert_eq!(
        count_query("sqlite", "widget", MEM, SQLITE),
        "SELECT COUNT(*) AS count FROM widget"
    );
    assert_eq!(
        count_query("redis", "widget", MEM, SQLITE),
        "SELECT VALUE count FROM (SELECT count() AS count FROM widget GROUP ALL)"
    );
}

#[test]
fn count_cells() {
    assert_eq!(count_from_cell(Some(CountCell::Int(42))), Ok(42));
    assert_eq!(count_from_cell(Some(CountCell::Object { count: Some(7) })), Ok(7));
    assert_eq!(
        count_from_cell(Some(CountCell::Object { count: None })),
        Err(COUNT_NON_INTEGER_MESSAGE.to_string())
    );
    assert_eq!(count_from_cell(Some(CountCell::Other)), Err(COUNT_NON_INTEGER_MESSAGE.to_string()));
    assert_eq!(count_from_cell(None), Err(COUNT_NO_ROWS_MESSAGE.to_string()));
}

#[test]
fn ordered_ids_queries() {
    let q = ordered_ids_query("surreal", "widget", Some("w7"), Some(25), SQLITE);
    assert_eq!(
        q.text,
        "SELECT VALUE id FROM widget WHERE id > type::record($tb, $rid) ORDER BY id ASC LIMIT 25"
    );
    assert_eq!(
        q.params,
        vec![
            ("tb".to_string(), "widget".to_string()),
            ("rid".to_string(), "w7".to_string())
        ]
    );
    let q = ordered_ids_query("sqlite", "widget", Some("w7"), Some(3), SQLITE);
    assert_eq!(q.text, "SELECT id FROM widget WHERE id > $rid ORDER BY id ASC LIMIT 3");
    assert_eq!(q.params, vec![("rid".to_string(), "w7".to_string())]);
    let q = ordered_ids_query("sqlite", "widget", None, None, SQLITE);
    assert_eq!(q.text, "SELECT id FROM widget ORDER BY id ASC");
    assert!(q.params.is_empty());
    let q = ordered_ids_query("mem", "widget", Some("w7"), Some(3), SQLITE);
    assert_eq!(q.text, "SELECT VALUE id FROM widget ORDER BY id ASC LIMIT 3");
    assert!(q.params.is_empty());
    // An empty cursor is no cursor.
    let q = ordered_ids_query("surreal", "widget", Some(""), None, SQLITE);
    assert_eq!(q.text, "SELECT VALUE id FROM widget ORDER BY id ASC");
    assert!(q.params.is_empty());
}

#[test]
fn page_queries_and_rows() {
    let p = page_query("mem", "widget", Some("b"), 2, SQLITE);
    assert!(p.in_process);
    assert_eq!(p.query.text, "SELECT VALUE id FROM widget ORDER BY id ASC");
    let rows = page_row_ids(strings(&["d", "a", "c", "b"]), true, Some("b"), 2);
    assert_eq!(rows, strings(&["c", "d"]));

    let p = page_query("surreal", "widget", Some("b"), 2, SQLITE);
    assert!(!p.in_process);
    assert_eq!(
        p.query.text,
        "SELECT VALUE id FROM widget WHERE id > type::record($tb, $rid) ORDER BY id ASC LIMIT 2"
    );
    let rows = page_row_ids(strings(&["x", "y"]), false, Some("b"), 2);
    assert_eq!(rows, strings(&["x", "y"]));
}

#[test]
fn id_cells_normalize_to_bare_ids() {
    assert_eq!(bare_record_id_from_query_cell(&IdCell::Text("widget:abc".to_string())), "abc");
    assert_eq!(bare_record_id_from_query_cell(&IdCell::Text(" plain ".to_string())), "plain");
    assert_eq!(
        bare_record_id_from_query_cell(&IdCell::Object {
            id: Some("widget:xyz".to_string()),
            keyed: true,
            rendered: "{}".to_string()
        }),
        "xyz"
    );
    assert_eq!(
        bare_record_id_from_query_cell(&IdCell::Other { rendered: "\"q\"".to_string() }),
        "q"
    );
    assert_eq!(bare_record_id_from_query_cell(&IdCell::Other { rendered: "17".to_string() }), "17");
    let ids = ids_from_cells(&vec![
        IdCell::Text("t:a".to_string()),
        IdCell::Text("t:".to_string()),
        IdCell::Other { rendered: "\"b\"".to_string() },
    ]);
    assert_eq!(ids, strings(&["a", "b"]));
}
