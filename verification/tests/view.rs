use squirrel::app::Screen;
use squirrel::cli::{choose_editor, parse_args};
use squirrel::models::{ConnectionForm, QueryResult};
use squirrel::view;

fn args(list: &[&str]) -> Vec<String> {
    list.iter().map(|s| s.to_string()).collect()
}

#[test]
fn parse_args_reads_both_options() {
    let a = parse_args(&args(&["squirrel", "--connection", "db", "-q", "all"]));
    assert_eq!(a.connection.as_deref(), Some("db"));
    assert_eq!(a.query.as_deref(), Some("all"));
}

#[test]
fn parse_args_skips_unknown_and_dangling() {
    let a = parse_args(&args(&["squirrel", "-x", "-c", "a", "-c", "b", "--query"]));
    assert_eq!(a.connection.as_deref(), Some("b"));
    assert_eq!(a.query, None);
    let b = parse_args(&args(&["-c", "ignored"]));
    assert_eq!(b.connection, None);
    let c = parse_args(&args(&["squirrel", "-q", "-c", "x"]));
    assert_eq!(c.query.as_deref(), Some("-c"));
    assert_eq!(c.connection, None);
}

#[test]
fn editor_choice() {
    assert_eq!(choose_editor(Some("nano".into()), Some("vim".into())), "nano");
    assert_eq!(choose_editor(None, Some("vim".into())), "vim");
    assert_eq!(choose_editor(None, None), "vi");
}

#[test]
fn list_texts() {
    assert_eq!(view::list_title(" Q ", true), " Q  (empty — press n to create) ");
    assert_eq!(view::list_title(" Q ", false), " Q ");
    assert_eq!(view::list_entry("db", true), "▶ db");
    assert_eq!(view::list_entry("db", false), "  db");
    assert_eq!(view::queries_title("db"), " Queries — db ");
    let qs = vec!["a".to_string()];
    assert_eq!(view::preview_title(&qs, 0), " a ");
    assert_eq!(view::preview_title(&qs, 1), " Preview ");
}

#[test]
fn dialog_texts() {
    assert_eq!(view::new_query_title("db"), " New query for 'db' ");
    assert_eq!(view::name_prompt("x"), "Name: x_");
    assert_eq!(view::rename_title("old"), " Rename 'old' ");
    assert_eq!(view::rename_prompt(""), "New name: _");
}

#[test]
fn form_fields_mask_the_password() {
    assert_eq!(view::field_text("secret", 5, false), "******");
    assert_eq!(view::field_text("é", 5, true), "**_");
    assert_eq!(view::field_text("host", 1, true), "host_");
    assert_eq!(view::field_text("host", 1, false), "host");
}

#[test]
fn result_titles() {
    assert_eq!(view::affected_title("db", "q"), " db › q — Result ");
    assert_eq!(view::affected_text(3), "3 row(s) affected");
    assert_eq!(view::rows_title("db", "q", 25, 1, 2), " db › q — 25 rows (page 2/2) ");
}

#[test]
fn column_widths_are_clamped() {
    let columns = vec!["id".to_string(), "description".to_string(), "x".repeat(40)];
    let rows = vec![
        vec!["1".to_string(), "short".to_string(), "y".to_string()],
        vec!["12345".to_string(), "a much longer text here".to_string(), "z".to_string()],
    ];
    assert_eq!(view::column_widths(&columns, &rows), vec![5, 23, 30]);
    assert_eq!(view::column_widths(&columns, &[]), vec![4, 11, 30]);
}

#[test]
fn hints_follow_the_screen() {
    let mut form = ConnectionForm::default();
    let s = Screen::CreateConnection { form: form.duplicate(), status: None };
    assert_eq!(view::screen_hint(&s), "Tab/j/k: move  Enter: edit field (last: test & save)  s: save & test  Esc: back");
    form.editing = true;
    let s = Screen::CreateConnection { form, status: None };
    assert_eq!(view::screen_hint(&s), "Type text  Tab/↑↓: field  Enter/Esc: done");
    let s = Screen::ConnectionList { connections: vec![], selected: 0 };
    assert_eq!(view::screen_hint(&s), "n: new  r: rename  e: edit  d: delete  Enter: open  q: quit");
}

#[test]
fn null_cells() {
    assert!(view::shows_null(&"NULL".to_string()));
    assert!(!view::shows_null(&"null".to_string()));
}

#[test]
fn result_drawing_decisions() {
    assert!(!view::striped(0));
    assert!(view::striped(1));
    assert!(!view::striped(4));
    assert_eq!(view::no_rows_text(&vec![]).as_deref(), Some("(no rows returned)"));
    assert_eq!(view::no_rows_text(&vec!["id".to_string()]), None);
    let ok = squirrel::db::rows_result(vec!["id".to_string()], vec![vec!["1".to_string()]]);
    assert!(view::page_can_be_shown(&ok));
    let broken = QueryResult::Rows { columns: vec![], rows: vec![], page: 0, page_size: 0, selected_row: 0 };
    assert!(!view::page_can_be_shown(&broken));
    let s = Screen::Results { connection: "db".to_string(), query: "q".to_string(), result: ok };
    assert_eq!(view::screen_hint(&s), "j/k: row  ←h/→l: page  q/Esc: back");
}
