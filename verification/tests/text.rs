use squirrel::db::{cell_text, rows_result, statement_returns_rows};
use squirrel::models::QueryResult;
use squirrel::text::{decimal_string, has_keyword_prefix, is_blank, parse_port_number, trimmed};

#[test]
fn decimal_matches_to_string() {
    for n in [0u64, 7, 10, 99, 100, 5432, 65535, 1_000_000, u64::MAX] {
        assert_eq!(decimal_string(n), n.to_string());
    }
}

#[test]
fn port_parsing_matches_std() {
    for text in ["0", "80", "+80", "0080", "65535", "65536", "", "+", "-", "-0", " 1", "1 ", "a", "99999999999999999999"] {
        assert_eq!(parse_port_number(text), text.parse::<u16>().ok(), "text {text:?}");
    }
}

#[test]
fn trimming_matches_std() {
    for text in ["", "  ", " a ", "\t\na b\u{3000}", "\u{85}x\u{a0}", "x", "\u{200b}x"] {
        assert_eq!(trimmed(text), text.trim(), "text {text:?}");
        assert_eq!(is_blank(text), text.trim().is_empty(), "text {text:?}");
    }
}

#[test]
fn keyword_prefix_ignores_ascii_case() {
    assert!(has_keyword_prefix("select 1", "SELECT"));
    assert!(has_keyword_prefix("SeLeCt", "SELECT"));
    assert!(!has_keyword_prefix("sel", "SELECT"));
    assert!(!has_keyword_prefix("update", "SELECT"));
}

#[test]
fn statements_that_return_rows() {
    for sql in ["SELECT 1", "  select * from t", "with x as (select 1) select * from x", "TABLE t", "values (1)", "show all", "explain select 1"] {
        assert!(statement_returns_rows(sql), "sql {sql:?}");
    }
    for sql in ["update t set a = 1", "insert into t values (1)", "", "   ", "delete from t", "-- SELECT\nSELECT 1"] {
        assert!(!statement_returns_rows(sql), "sql {sql:?}");
    }
}

#[test]
fn empty_rows_have_no_columns() {
    match rows_result(vec!["id".to_string()], vec![]) {
        QueryResult::Rows { columns, rows, page, page_size, selected_row } => {
            assert!(columns.is_empty());
            assert!(rows.is_empty());
            assert_eq!(page, 0);
            assert_eq!(selected_row, 0);
            assert_eq!(page_size, QueryResult::PAGE_SIZE);
        }
        _ => panic!("expected rows"),
    }
    match rows_result(vec!["id".to_string()], vec![vec!["1".to_string()]]) {
        QueryResult::Rows { columns, .. } => assert_eq!(columns, vec!["id".to_string()]),
        _ => panic!("expected rows"),
    }
}

#[test]
fn missing_values_show_as_null() {
    assert_eq!(cell_text(None), "NULL");
    assert_eq!(cell_text(Some("x".to_string())), "x");
}
