use squirrel::app::{App, Effect, Key, KeyInput, Outcome, Screen};
use squirrel::models::{ConnectionConfig, ConnectionForm, QueryResult};

fn key(code: Key) -> KeyInput {
    KeyInput { code, control: false }
}

fn ctrl(code: Key) -> KeyInput {
    KeyInput { code, control: true }
}

fn in_create_connection() -> App {
    App {
        screen: Screen::CreateConnection { form: ConnectionForm::default(), status: None },
        status: None,
        pending: None,
    }
}

fn form(app: &App) -> &ConnectionForm {
    match &app.screen {
        Screen::CreateConnection { form, .. } => form,
        _ => panic!("expected CreateConnection screen"),
    }
}

fn names(list: &[&str]) -> Vec<String> {
    list.iter().map(|s| s.to_string()).collect()
}

fn config(name: &str) -> ConnectionConfig {
    ConnectionConfig {
        name: name.to_string(),
        host: "localhost".to_string(),
        port: 5432,
        database: "testdb".to_string(),
        username: "postgres".to_string(),
        password: "secret".to_string(),
    }
}

fn connection_list(list: &[&str], selected: usize) -> App {
    App {
        screen: Screen::ConnectionList { connections: names(list), selected },
        status: None,
        pending: None,
    }
}

fn query_list(list: &[&str], selected: usize) -> App {
    App {
        screen: Screen::QueryList {
            connection: "db".to_string(),
            queries: names(list),
            selected,
            preview: String::new(),
        },
        status: None,
        pending: None,
    }
}

fn is_nothing(e: &Effect) -> bool {
    matches!(e, Effect::Nothing)
}

// ── Mode transitions ────────────────────────────────────────────────────────

#[test]
fn enter_starts_editing() {
    let mut app = in_create_connection();
    app.handle_key(key(Key::Enter));
    assert!(form(&app).editing);
}

#[test]
fn esc_in_edit_mode_stops_editing() {
    let mut app = in_create_connection();
    app.handle_key(key(Key::Enter));
    app.handle_key(key(Key::Esc));
    assert!(!form(&app).editing);
    assert!(matches!(app.screen, Screen::CreateConnection { .. }));
}

#[test]
fn enter_in_edit_mode_stops_editing() {
    let mut app = in_create_connection();
    app.handle_key(key(Key::Enter));
    app.handle_key(key(Key::Enter));
    assert!(!form(&app).editing);
    assert!(matches!(app.screen, Screen::CreateConnection { .. }));
}

#[test]
fn esc_in_nav_mode_goes_to_connection_list() {
    let mut app = in_create_connection();
    let effect = app.handle_key(key(Key::Esc));
    assert!(matches!(effect, Effect::ListConnections));
    // An empty home directory holds no connections.
    let effect = app.resume(Outcome::Names(vec![]));
    assert!(is_nothing(&effect));
    assert!(matches!(app.screen, Screen::ConnectionList { .. }));
}

// ── Text input ──────────────────────────────────────────────────────────────

#[test]
fn edit_mode_types_chars() {
    let mut app = in_create_connection();
    app.handle_key(key(Key::Enter));
    for c in ['a', 'b', 'c'] {
        app.handle_key(key(Key::Char(c)));
    }
    assert_eq!(form(&app).values[0], "abc");
}

#[test]
fn edit_mode_backspace_removes_char() {
    let mut app = in_create_connection();
    app.handle_key(key(Key::Enter));
    app.handle_key(key(Key::Char('a')));
    app.handle_key(key(Key::Char('b')));
    app.handle_key(key(Key::Backspace));
    assert_eq!(form(&app).values[0], "a");
}

#[test]
fn edit_mode_j_types_not_navigates() {
    let mut app = in_create_connection();
    app.handle_key(key(Key::Enter));
    app.handle_key(key(Key::Char('j')));
    assert_eq!(form(&app).values[0], "j");
    assert_eq!(form(&app).active_field, 0);
}

#[test]
fn edit_mode_k_types_not_navigates() {
    let mut app = in_create_connection();
    app.handle_key(key(Key::Enter));
    app.handle_key(key(Key::Char('k')));
    assert_eq!(form(&app).values[0], "k");
    assert_eq!(form(&app).active_field, 0);
}

// ── Navigation ──────────────────────────────────────────────────────────────

#[test]
fn nav_j_moves_to_next_field() {
    let mut app = in_create_connection();
    app.handle_key(key(Key::Char('j')));
    assert_eq!(form(&app).active_field, 1);
    assert_eq!(form(&app).values[0], ""); // j was not typed
}

#[test]
fn nav_k_moves_to_prev_field() {
    let mut app = in_create_connection();
    app.handle_key(key(Key::Char('j')));
    app.handle_key(key(Key::Char('j')));
    assert_eq!(form(&app).active_field, 2);
    app.handle_key(key(Key::Char('k')));
    assert_eq!(form(&app).active_field, 1);
}

#[test]
fn nav_down_moves_to_next_field() {
    let mut app = in_create_connection();
    app.handle_key(key(Key::Down));
    assert_eq!(form(&app).active_field, 1);
}

#[test]
fn nav_up_moves_to_prev_field() {
    let mut app = in_create_connection();
    app.handle_key(key(Key::Down));
    app.handle_key(key(Key::Up));
    assert_eq!(form(&app).active_field, 0);
}

// ── Global Ctrl+Q ───────────────────────────────────────────────────────────

#[test]
fn ctrl_q_quits_from_create_connection() {
    let mut app = in_create_connection();
    let result = app.handle_key(ctrl(Key::Char('q')));
    assert!(matches!(result, Effect::Quit));
}

#[test]
fn ctrl_q_quits_from_query_list() {
    let mut app = query_list(&[], 0);
    let result = app.handle_key(ctrl(Key::Char('q')));
    assert!(matches!(result, Effect::Quit));
}

#[test]
fn ctrl_q_quits_from_results() {
    let mut app = App {
        screen: Screen::Results {
            connection: "db".to_string(),
            query: "q".to_string(),
            result: QueryResult::AffectedRows(0),
        },
        status: None,
        pending: None,
    };
    let result = app.handle_key(ctrl(Key::Char('q')));
    assert!(matches!(result, Effect::Quit));
}

#[test]
fn plain_q_does_not_quit_from_create_connection() {
    let mut app = in_create_connection();
    let result = app.handle_key(key(Key::Char('q')));
    assert!(!matches!(result, Effect::Quit));
}

// ── Further flows ───────────────────────────────────────────────────────────

#[test]
fn start_without_connection_lists_connections() {
    let (mut app, effect) = App::new(None, None);
    assert!(matches!(effect, Effect::ListConnections));
    let effect = app.resume(Outcome::Names(names(&["a", "b"])));
    assert!(is_nothing(&effect));
    match &app.screen {
        Screen::ConnectionList { connections, selected } => {
            assert_eq!(connections, &names(&["a", "b"]));
            assert_eq!(*selected, 0);
        }
        _ => panic!("expected the list of connections"),
    }
    assert!(app.is_well_formed());
}

#[test]
fn start_with_connection_selects_the_named_query() {
    let (mut app, effect) = App::new(Some("shop"), Some("b"));
    assert!(matches!(effect, Effect::LoadConnection { ref name } if name == "shop"));
    let effect = app.resume(Outcome::Config(config("shop")));
    assert!(matches!(effect, Effect::ListQueries { ref connection } if connection == "shop"));
    let effect = app.resume(Outcome::Names(names(&["a", "b", "c"])));
    assert!(matches!(effect, Effect::LoadQuery { ref query, .. } if query == "b"));
    let effect = app.resume(Outcome::Text("SELECT 2".to_string()));
    assert!(is_nothing(&effect));
    match &app.screen {
        Screen::QueryList { connection, selected, preview, .. } => {
            assert_eq!(connection, "shop");
            assert_eq!(*selected, 1);
            assert_eq!(preview, "SELECT 2");
        }
        _ => panic!("expected the list of queries"),
    }
}

#[test]
fn start_with_unknown_connection_falls_back_to_list() {
    let (mut app, _) = App::new(Some("gone"), None);
    let effect = app.resume(Outcome::Failed("no such file".to_string()));
    assert!(matches!(effect, Effect::ListConnections));
}

#[test]
fn failed_listing_aborts() {
    let (mut app, _) = App::new(None, None);
    let effect = app.resume(Outcome::Failed("denied".to_string()));
    assert!(matches!(effect, Effect::Abort));
}

#[test]
fn connection_list_moves_and_clamps() {
    let mut app = connection_list(&["a", "b"], 0);
    app.handle_key(key(Key::Char('k')));
    app.handle_key(key(Key::Down));
    app.handle_key(key(Key::Char('j')));
    match &app.screen {
        Screen::ConnectionList { selected, .. } => assert_eq!(*selected, 1),
        _ => panic!("expected the list of connections"),
    }
    let effect = app.handle_key(key(Key::Char('q')));
    assert!(matches!(effect, Effect::Quit));
}

#[test]
fn deleting_a_connection_selects_a_neighbour() {
    let mut app = connection_list(&["a", "b", "c"], 2);
    let effect = app.handle_key(key(Key::Char('d')));
    assert!(matches!(effect, Effect::DeleteConnection { ref name } if name == "c"));
    assert_eq!(app.status.as_deref(), Some("Deleted 'c'"));
    let effect = app.resume(Outcome::Done);
    assert!(matches!(effect, Effect::ListConnections));
    app.resume(Outcome::Names(names(&["a", "b"])));
    match &app.screen {
        Screen::ConnectionList { selected, .. } => assert_eq!(*selected, 1),
        _ => panic!("expected the list of connections"),
    }
    assert_eq!(app.status.as_deref(), Some("Deleted 'c'"));
    // The next key clears the message.
    app.handle_key(key(Key::Other));
    assert_eq!(app.status, None);
}

#[test]
fn editing_a_connection_tests_it() {
    let mut app = connection_list(&["a"], 0);
    let effect = app.handle_key(key(Key::Char('e')));
    assert!(matches!(effect, Effect::EditConnection { ref name } if name == "a"));
    let effect = app.resume(Outcome::Done);
    assert!(matches!(effect, Effect::LoadConnection { .. }));
    let effect = app.resume(Outcome::Config(config("a")));
    assert!(matches!(effect, Effect::TestConnection { .. }));
    let effect = app.resume(Outcome::Failed("refused".to_string()));
    assert!(matches!(effect, Effect::ListConnections));
    app.resume(Outcome::Names(names(&["a"])));
    assert_eq!(app.status.as_deref(), Some("Saved but connection failed: refused"));
}

#[test]
fn saving_a_new_connection() {
    let mut app = in_create_connection();
    app.handle_key(key(Key::Char('s')));
    match &app.screen {
        Screen::CreateConnection { status, .. } => {
            assert_eq!(status.as_deref(), Some("Name is required"))
        }
        _ => panic!("expected the form"),
    }
    app.handle_key(key(Key::Enter));
    app.handle_key(key(Key::Char('m')));
    app.handle_key(key(Key::Char(' ')));
    app.handle_key(key(Key::Char('x')));
    app.handle_key(key(Key::Esc));
    for _ in 0..3 {
        app.handle_key(key(Key::Down));
    }
    app.handle_key(key(Key::Enter));
    app.handle_key(key(Key::Char('d')));
    app.handle_key(key(Key::Esc));
    assert_eq!(form(&app).values[0], "m_x");
    let effect = app.handle_key(key(Key::Char('s')));
    match effect {
        Effect::TestConnection { config } => {
            assert_eq!(config.name, "m_x");
            assert_eq!(config.database, "d");
        }
        _ => panic!("expected a connection test"),
    }
    let effect = app.resume(Outcome::Done);
    assert!(matches!(effect, Effect::SaveConnection { .. }));
    let effect = app.resume(Outcome::Done);
    assert!(matches!(effect, Effect::ListConnections));
    app.resume(Outcome::Names(names(&["m_x"])));
    assert_eq!(app.status.as_deref(), Some("'m_x' created, connection OK"));
}

#[test]
fn failed_test_keeps_the_form() {
    let mut app = in_create_connection();
    if let Screen::CreateConnection { form, .. } = &mut app.screen {
        form.values[0] = "n".to_string();
        form.values[3] = "d".to_string();
    }
    app.handle_key(key(Key::Char('s')));
    let effect = app.resume(Outcome::Failed("timeout".to_string()));
    assert!(is_nothing(&effect));
    match &app.screen {
        Screen::CreateConnection { form, status } => {
            assert_eq!(form.values[0], "n");
            assert_eq!(status.as_deref(), Some("Connection failed: timeout"));
        }
        _ => panic!("expected the form"),
    }
}

#[test]
fn running_a_query_shows_results() {
    let mut app = query_list(&["q1"], 0);
    // Enter opens the query: its text is read and shown, and nothing runs yet.
    let effect = app.handle_key(key(Key::Enter));
    assert!(matches!(effect, Effect::LoadQuery { ref query, .. } if query == "q1"));
    let effect = app.resume(Outcome::Text("SELECT 1".to_string()));
    assert!(is_nothing(&effect));
    match &app.screen {
        Screen::QueryView { connection, query, sql } => {
            assert_eq!(connection, "db");
            assert_eq!(query, "q1");
            assert_eq!(sql, "SELECT 1");
        }
        _ => panic!("expected the query view"),
    }
    // A second Enter runs it.
    let effect = app.handle_key(key(Key::Enter));
    assert!(matches!(effect, Effect::LoadConnection { ref name } if name == "db"));
    let effect = app.resume(Outcome::Config(config("db")));
    assert!(matches!(effect, Effect::RunQuery { ref sql, .. } if sql == "SELECT 1"));
    app.resume(Outcome::Rows(QueryResult::AffectedRows(4)));
    assert!(matches!(app.screen, Screen::Results { .. }));
    // Back to the query view, with its text read again.
    let effect = app.handle_key(key(Key::Esc));
    assert!(matches!(effect, Effect::LoadQuery { ref query, .. } if query == "q1"));
    let effect = app.resume(Outcome::Text("SELECT 2".to_string()));
    assert!(is_nothing(&effect));
    match &app.screen {
        Screen::QueryView { sql, .. } => assert_eq!(sql, "SELECT 2"),
        _ => panic!("expected the query view"),
    }
}

#[test]
fn leaving_results_tolerates_an_unreadable_query() {
    let mut app = App {
        screen: Screen::Results {
            connection: "db".to_string(),
            query: "q1".to_string(),
            result: QueryResult::AffectedRows(0),
        },
        status: None,
        pending: None,
    };
    let effect = app.handle_key(key(Key::Char('q')));
    assert!(matches!(effect, Effect::LoadQuery { .. }));
    let effect = app.resume(Outcome::Failed("unreadable".to_string()));
    assert!(is_nothing(&effect));
    match &app.screen {
        Screen::QueryView { query, sql, .. } => {
            assert_eq!(query, "q1");
            assert_eq!(sql, "");
        }
        _ => panic!("expected the query view"),
    }
}

#[test]
fn failing_query_reports_the_error() {
    let mut app = query_list(&["q1"], 0);
    app.handle_key(key(Key::Enter));
    app.resume(Outcome::Text("SELEC".to_string()));
    app.handle_key(key(Key::Enter));
    app.resume(Outcome::Config(config("db")));
    let effect = app.resume(Outcome::Failed("syntax error".to_string()));
    assert!(is_nothing(&effect));
    assert_eq!(app.status.as_deref(), Some("Error: syntax error"));
    assert!(matches!(app.screen, Screen::QueryView { ref sql, .. } if sql == "SELEC"));
}

#[test]
fn unreadable_settings_keep_the_query_view() {
    let mut app = query_list(&["q1"], 0);
    app.handle_key(key(Key::Enter));
    app.resume(Outcome::Text("SELECT 1".to_string()));
    app.handle_key(key(Key::Enter));
    let effect = app.resume(Outcome::Failed("no such file".to_string()));
    assert!(is_nothing(&effect));
    assert_eq!(app.status.as_deref(), Some("Cannot load connection: no such file"));
    assert!(matches!(app.screen, Screen::QueryView { .. }));
}

#[test]
fn editing_a_shown_query_shows_it_again() {
    let mut app = query_list(&["q1"], 0);
    app.handle_key(key(Key::Enter));
    app.resume(Outcome::Text("SELECT 1".to_string()));
    let effect = app.handle_key(key(Key::Char('e')));
    assert!(matches!(effect, Effect::EditQuery { ref query, .. } if query == "q1"));
    let effect = app.resume(Outcome::Done);
    assert!(matches!(effect, Effect::LoadQuery { .. }));
    app.resume(Outcome::Text("SELECT 3".to_string()));
    assert!(matches!(app.screen, Screen::QueryView { ref sql, .. } if sql == "SELECT 3"));
}

#[test]
fn query_view_goes_back_to_the_list() {
    let mut app = query_list(&["a", "q1"], 1);
    app.handle_key(key(Key::Enter));
    app.resume(Outcome::Text("SELECT 1".to_string()));
    let effect = app.handle_key(key(Key::Char('q')));
    assert!(matches!(effect, Effect::ListQueries { ref connection } if connection == "db"));
    app.resume(Outcome::Names(names(&["a", "q1"])));
    app.resume(Outcome::Text("SELECT 1".to_string()));
    match &app.screen {
        Screen::QueryList { selected, .. } => assert_eq!(*selected, 1),
        _ => panic!("expected the list of queries"),
    }
}

#[test]
fn leaving_the_query_list_lists_connections() {
    for code in [Key::Esc, Key::Left, Key::Char('h')] {
        let mut app = query_list(&["q1"], 0);
        let effect = app.handle_key(key(code));
        assert!(matches!(effect, Effect::ListConnections));
        app.resume(Outcome::Names(names(&["x", "db"])));
        match &app.screen {
            Screen::ConnectionList { connections, selected } => {
                assert_eq!(connections.len(), 2);
                assert_eq!(*selected, 0);
            }
            _ => panic!("expected the list of connections"),
        }
    }
}

#[test]
fn tab_moves_between_fields() {
    let mut app = in_create_connection();
    app.handle_key(key(Key::Tab));
    assert_eq!(form(&app).active_field, 1);
    assert!(!form(&app).editing);
    assert_eq!(form(&app).values[1], "localhost");
    for _ in 0..5 {
        app.handle_key(key(Key::Tab));
    }
    assert_eq!(form(&app).active_field, 0);
}

#[test]
fn tab_while_typing_moves_to_the_next_field() {
    let mut app = in_create_connection();
    app.handle_key(key(Key::Enter));
    app.handle_key(key(Key::Char('a')));
    app.handle_key(key(Key::Tab));
    assert_eq!(form(&app).active_field, 1);
    assert!(form(&app).editing);
    app.handle_key(key(Key::Char('h')));
    assert_eq!(form(&app).values[0], "a");
    assert_eq!(form(&app).values[1], "localhosth");
}

#[test]
fn enter_on_last_field_tests_and_saves() {
    let mut app = in_create_connection();
    app.handle_key(key(Key::Enter));
    app.handle_key(key(Key::Char('m')));
    app.handle_key(key(Key::Esc));
    for _ in 0..3 {
        app.handle_key(key(Key::Tab));
    }
    app.handle_key(key(Key::Enter));
    app.handle_key(key(Key::Char('d')));
    for _ in 0..2 {
        app.handle_key(key(Key::Tab));
    }
    assert_eq!(form(&app).active_field, 5);
    app.handle_key(key(Key::Char('p')));
    let effect = app.handle_key(key(Key::Enter));
    match effect {
        Effect::TestConnection { config } => {
            assert_eq!(config.name, "m");
            assert_eq!(config.database, "d");
            assert_eq!(config.password, "p");
        }
        _ => panic!("expected a connection test"),
    }
    let effect = app.resume(Outcome::Done);
    assert!(matches!(effect, Effect::SaveConnection { ref config } if config.name == "m"));
    let effect = app.resume(Outcome::Done);
    assert!(matches!(effect, Effect::ListConnections));
    app.resume(Outcome::Names(names(&["m"])));
    assert!(matches!(app.screen, Screen::ConnectionList { selected: 0, .. }));
    assert_eq!(app.status.as_deref(), Some("'m' created, connection OK"));
}

#[test]
fn enter_on_last_field_reports_what_is_missing() {
    let mut app = in_create_connection();
    app.handle_key(key(Key::Up));
    assert_eq!(form(&app).active_field, 5);
    let effect = app.handle_key(key(Key::Enter));
    assert!(is_nothing(&effect));
    match &app.screen {
        Screen::CreateConnection { form, status } => {
            assert!(!form.editing);
            assert_eq!(status.as_deref(), Some("Name is required"));
        }
        _ => panic!("expected the form"),
    }
}

#[test]
fn enter_on_last_field_shows_a_failed_test() {
    let mut app = in_create_connection();
    if let Screen::CreateConnection { form, .. } = &mut app.screen {
        form.values[0] = "n".to_string();
        form.values[3] = "d".to_string();
        form.active_field = 5;
    }
    let effect = app.handle_key(key(Key::Enter));
    assert!(matches!(effect, Effect::TestConnection { .. }));
    app.resume(Outcome::Failed("refused".to_string()));
    match &app.screen {
        Screen::CreateConnection { form, status } => {
            assert_eq!(form.active_field, 5);
            assert_eq!(status.as_deref(), Some("Connection failed: refused"));
        }
        _ => panic!("expected the form"),
    }
}

#[test]
fn new_query_left_blank_is_deleted() {
    let mut app = query_list(&[], 0);
    app.handle_key(key(Key::Char('n')));
    for c in [' ', 'a', ' ', 'b', ' '] {
        app.handle_key(key(Key::Char(c)));
    }
    let effect = app.handle_key(key(Key::Enter));
    match effect {
        Effect::SaveQuery { query, sql, .. } => {
            assert_eq!(query, "_a_b_");
            assert_eq!(sql, "");
        }
        _ => panic!("expected the query to be saved"),
    }
    assert!(matches!(app.resume(Outcome::Done), Effect::EditQuery { .. }));
    assert!(matches!(app.resume(Outcome::Done), Effect::LoadQuery { .. }));
    let effect = app.resume(Outcome::Text(" \n\t".to_string()));
    assert!(matches!(effect, Effect::DeleteQuery { .. }));
    let effect = app.resume(Outcome::Failed("already gone".to_string()));
    assert!(matches!(effect, Effect::ListQueries { .. }));
}

#[test]
fn renaming_a_query() {
    let mut app = query_list(&["a", "b"], 1);
    app.handle_key(key(Key::Char('r')));
    for c in ['z', 'z'] {
        app.handle_key(key(Key::Char(c)));
    }
    app.handle_key(key(Key::Backspace));
    let effect = app.handle_key(key(Key::Enter));
    assert!(matches!(effect, Effect::RenameQuery { ref old_name, ref new_name, .. }
        if old_name == "b" && new_name == "z"));
    let effect = app.resume(Outcome::Failed("A query named 'z' already exists".to_string()));
    assert!(is_nothing(&effect));
    assert_eq!(app.status.as_deref(), Some("Rename failed: A query named 'z' already exists"));
    assert!(matches!(app.screen, Screen::RenameQuery { .. }));
    app.handle_key(key(Key::Enter));
    app.resume(Outcome::Done);
    assert_eq!(app.status.as_deref(), Some("Renamed 'b' → 'z'"));
    app.resume(Outcome::Names(names(&["a", "z"])));
    app.resume(Outcome::Text("SELECT 1".to_string()));
    match &app.screen {
        Screen::QueryList { selected, preview, .. } => {
            assert_eq!(*selected, 1);
            assert_eq!(preview, "SELECT 1");
        }
        _ => panic!("expected the list of queries"),
    }
}

#[test]
fn results_pages_with_h_and_l() {
    let rows: Vec<Vec<String>> = (0..45).map(|i| vec![i.to_string()]).collect();
    let mut app = App {
        screen: Screen::Results {
            connection: "db".to_string(),
            query: "q".to_string(),
            result: squirrel::db::rows_result(vec!["id".to_string()], rows),
        },
        status: None,
        pending: None,
    };
    app.handle_key(key(Key::Char('l')));
    app.handle_key(key(Key::Right));
    app.handle_key(key(Key::Right));
    app.handle_key(key(Key::Char('h')));
    match &app.screen {
        Screen::Results { result, .. } => assert_eq!(result.current_page(), 1),
        _ => panic!("expected results"),
    }
}

#[test]
fn resume_without_work_changes_nothing() {
    let mut app = connection_list(&["a"], 0);
    let effect = app.resume(Outcome::Done);
    assert!(is_nothing(&effect));
    assert!(matches!(app.screen, Screen::ConnectionList { .. }));
}

#[test]
fn results_select_rows_with_j_and_k() {
    let rows: Vec<Vec<String>> = (0..5).map(|i| vec![i.to_string()]).collect();
    let mut app = App {
        screen: Screen::Results {
            connection: "db".to_string(),
            query: "q".to_string(),
            result: squirrel::db::rows_result(vec!["id".to_string()], rows),
        },
        status: None,
        pending: None,
    };
    for _ in 0..3 {
        assert!(is_nothing(&app.handle_key(key(Key::Char('j')))));
    }
    app.handle_key(key(Key::Up));
    for _ in 0..10 {
        app.handle_key(key(Key::Down));
    }
    app.handle_key(key(Key::Char('k')));
    match &app.screen {
        Screen::Results { result, .. } => {
            assert_eq!(result.selected_row(), 3);
            assert_eq!(result.current_page(), 0);
        }
        _ => panic!("expected results"),
    }
}
