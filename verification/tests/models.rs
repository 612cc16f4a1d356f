use squirrel::models::{ConnectionConfig, ConnectionForm, QueryResult};

// ── ConnectionForm ──────────────────────────────────────────────────────────

#[test]
fn form_default_values() {
    let form = ConnectionForm::default();
    assert_eq!(form.active_field, 0);
    assert!(!form.editing);
    assert_eq!(form.values[1], "localhost");
    assert_eq!(form.values[2], "5432");
    assert_eq!(form.values[4], "postgres");
    assert!(form.values[0].is_empty());
    assert!(form.values[3].is_empty());
    assert!(form.values[5].is_empty());
}

#[test]
fn form_next_field_wraps() {
    let mut form = ConnectionForm::default();
    for expected in 1..=5 {
        form.next_field();
        assert_eq!(form.active_field, expected);
    }
    form.next_field();
    assert_eq!(form.active_field, 0);
}

#[test]
fn form_prev_field_wraps() {
    let mut form = ConnectionForm::default();
    form.prev_field();
    assert_eq!(form.active_field, 5);
    form.prev_field();
    assert_eq!(form.active_field, 4);
}

#[test]
fn form_to_config_success() {
    let mut form = ConnectionForm::default();
    form.values[0] = "mydb".to_string();
    form.values[3] = "testdb".to_string();
    let cfg = form.to_config().unwrap();
    assert_eq!(cfg.name, "mydb");
    assert_eq!(cfg.host, "localhost");
    assert_eq!(cfg.port, 5432);
    assert_eq!(cfg.database, "testdb");
    assert_eq!(cfg.username, "postgres");
}

#[test]
fn form_to_config_missing_name() {
    let form = ConnectionForm::default();
    assert!(form.to_config().is_err());
}

#[test]
fn form_to_config_missing_database() {
    let mut form = ConnectionForm::default();
    form.values[0] = "mydb".to_string();
    assert!(form.to_config().is_err());
}

#[test]
fn form_to_config_invalid_port() {
    let mut form = ConnectionForm::default();
    form.values[0] = "mydb".to_string();
    form.values[2] = "notaport".to_string();
    form.values[3] = "testdb".to_string();
    assert!(form.to_config().is_err());
}

// ── QueryResult pagination ──────────────────────────────────────────────────

fn rows_result(count: usize) -> QueryResult {
    QueryResult::Rows {
        columns: vec!["id".to_string()],
        rows: (0..count).map(|i| vec![i.to_string()]).collect(),
        page: 0,
        page_size: 20,
        selected_row: 0,
    }
}

#[test]
fn page_count_empty() {
    let r = QueryResult::Rows { columns: vec![], rows: vec![], page: 0, page_size: 20, selected_row: 0 };
    assert_eq!(r.page_count(), 1);
}

#[test]
fn page_count_exact_multiple() {
    assert_eq!(rows_result(20).page_count(), 1);
    assert_eq!(rows_result(40).page_count(), 2);
}

#[test]
fn page_count_remainder() {
    assert_eq!(rows_result(21).page_count(), 2);
    assert_eq!(rows_result(25).page_count(), 2);
}

#[test]
fn current_page_rows_first_page() {
    assert_eq!(rows_result(25).current_page_rows().len(), 20);
}

#[test]
fn current_page_rows_last_page() {
    let mut r = rows_result(25);
    r.next_page();
    assert_eq!(r.current_page_rows().len(), 5);
}

#[test]
fn next_page_clamps_at_last() {
    let mut r = rows_result(25);
    r.next_page();
    r.next_page(); // should not go past page 1
    assert_eq!(r.current_page(), 1);
    assert_eq!(r.current_page_rows().len(), 5);
}

#[test]
fn prev_page_clamps_at_zero() {
    let mut r = rows_result(25);
    r.prev_page(); // should not underflow
    assert_eq!(r.current_page(), 0);
}

// ── Further cases ───────────────────────────────────────────────────────────

fn sample_config() -> ConnectionConfig {
    ConnectionConfig {
        name: "mydb".to_string(),
        host: "db.example.com".to_string(),
        port: 6543,
        database: "shop".to_string(),
        username: "alice".to_string(),
        password: "pw".to_string(),
    }
}

#[test]
fn connection_string_lists_all_settings() {
    assert_eq!(
        sample_config().connection_string(),
        "host=db.example.com port=6543 dbname=shop user=alice password=pw"
    );
}

#[test]
fn connection_string_port_edges() {
    let mut cfg = sample_config();
    cfg.port = 0;
    assert!(cfg.connection_string().contains(" port=0 "));
    cfg.port = 65535;
    assert!(cfg.connection_string().contains(" port=65535 "));
}

#[test]
fn form_round_trip_gives_settings_back() {
    let cfg = sample_config();
    let form = ConnectionForm::from_config(&cfg);
    assert_eq!(form.values[2], "6543");
    assert_eq!(form.active_field, 0);
    assert!(!form.editing);
    let back = form.to_config().unwrap();
    assert_eq!(back.name, cfg.name);
    assert_eq!(back.host, cfg.host);
    assert_eq!(back.port, cfg.port);
    assert_eq!(back.database, cfg.database);
    assert_eq!(back.username, cfg.username);
    assert_eq!(back.password, cfg.password);
}

#[test]
fn form_error_messages() {
    let mut form = ConnectionForm::default();
    assert_eq!(form.to_config().unwrap_err(), "Name is required");
    form.values[0] = "x".to_string();
    form.values[2] = "70000".to_string();
    assert_eq!(form.to_config().unwrap_err(), "Port must be a number (1–65535)");
    form.values[2] = "80".to_string();
    assert_eq!(form.to_config().unwrap_err(), "Database is required");
}

#[test]
fn form_port_forms_that_parse() {
    let mut form = ConnectionForm::default();
    form.values[0] = "x".to_string();
    form.values[3] = "d".to_string();
    for (text, port) in [("+80", 80u16), ("007", 7), ("0", 0), ("65535", 65535)] {
        form.values[2] = text.to_string();
        assert_eq!(form.to_config().unwrap().port, port, "port text {text:?}");
    }
    for text in ["", "+", "-1", " 80", "80 ", "65536", "1e3", "٣"] {
        form.values[2] = text.to_string();
        assert!(form.to_config().is_err(), "port text {text:?}");
    }
}

#[test]
fn form_field_moves_undo() {
    let mut form = ConnectionForm::default();
    form.next_field();
    form.next_field();
    form.prev_field();
    form.next_field();
    assert_eq!(form.active_field, 2);
    for _ in 0..6 {
        form.next_field();
    }
    assert_eq!(form.active_field, 2);
}

#[test]
fn form_typing_into_active_field() {
    let mut form = ConnectionForm::default();
    form.next_field();
    form.push_to_active('x');
    assert_eq!(form.values[1], "localhostx");
    form.erase_from_active();
    form.erase_from_active();
    assert_eq!(form.values[1], "localhos");
    form.active_value_mut().push_str("!!");
    assert_eq!(form.values[1], "localhos!!");
    let mut empty = ConnectionForm::default();
    empty.erase_from_active();
    assert_eq!(empty.values[0], "");
}

#[test]
fn affected_rows_paging() {
    let mut r = QueryResult::AffectedRows(3);
    assert_eq!(r.page_count(), 1);
    assert_eq!(r.current_page(), 0);
    assert!(r.current_page_rows().is_empty());
    r.next_page();
    r.prev_page();
    assert_eq!(r.current_page(), 0);
    assert!(r.is_well_formed());
}

#[test]
fn paging_walks_every_page() {
    let mut r = rows_result(45);
    assert_eq!(r.page_count(), 3);
    let mut seen = 0;
    for p in 0..3 {
        assert_eq!(r.current_page(), p);
        let rows = r.current_page_rows();
        assert_eq!(rows[0][0], (p * 20).to_string());
        seen += rows.len();
        r.next_page();
    }
    assert_eq!(seen, 45);
    assert_eq!(r.current_page(), 2);
    r.prev_page();
    r.next_page();
    assert_eq!(r.current_page(), 2);
}

#[test]
fn well_formed_results() {
    assert!(rows_result(25).is_well_formed());
    let zero = QueryResult::Rows { columns: vec![], rows: vec![], page: 0, page_size: 0, selected_row: 0 };
    assert!(!zero.is_well_formed());
    let beyond = QueryResult::Rows { columns: vec![], rows: vec![vec![]], page: 1, page_size: 20, selected_row: 0 };
    assert!(!beyond.is_well_formed());
}

#[test]
fn pages_taken_in_order_give_back_every_row() {
    for count in [0usize, 1, 19, 20, 21, 40, 45] {
        let r = rows_result(count);
        let pages = r.page_count();
        let mut all: Vec<Vec<String>> = Vec::new();
        for p in 0..pages {
            let shown = match &r {
                QueryResult::Rows { columns, rows, page_size, .. } => QueryResult::Rows {
                    columns: columns.clone(),
                    rows: rows.clone(),
                    page: p,
                    page_size: *page_size,
                    selected_row: 0,
                },
                QueryResult::AffectedRows(n) => QueryResult::AffectedRows(*n),
            };
            let rows = shown.current_page_rows();
            if count > 0 {
                assert!(!rows.is_empty());
            }
            all.extend(rows.iter().cloned());
        }
        let expected: Vec<Vec<String>> = (0..count).map(|i| vec![i.to_string()]).collect();
        assert_eq!(all, expected);
    }
}

#[test]
fn rows_are_selected_within_the_page() {
    let mut r = rows_result(25);
    assert_eq!(r.selected_row(), 0);
    r.select_prev_row();
    assert_eq!(r.selected_row(), 0);
    for _ in 0..30 {
        r.select_next_row();
    }
    assert_eq!(r.selected_row(), 19);
    assert_eq!(r.current_page(), 0);
    r.select_prev_row();
    assert_eq!(r.selected_row(), 18);
    r.next_page();
    assert_eq!(r.current_page(), 1);
    assert_eq!(r.selected_row(), 18);
    r.select_next_row();
    assert_eq!(r.selected_row(), 18);
    let mut affected = QueryResult::AffectedRows(3);
    affected.select_next_row();
    assert_eq!(affected.selected_row(), 0);
}
