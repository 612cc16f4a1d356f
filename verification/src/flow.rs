//! The transitions of the application, stated over its mathematical values:
//! what each key does on each screen, and how the application goes on once
//! outside work comes back.
use vstd::prelude::*;

use crate::app::{AppView, ChoiceView, EffectView, Key, KeyInput, OutcomeView, PendingView, ScreenView};
use crate::models;
use crate::models::{ConfigView, FormView, ResultView};
use crate::text;

verus! {

// ── Status messages ──────────────────────────────────────────────────────────

/// After a connection was deleted.
pub open spec fn deleted_connection_message(name: Seq<char>) -> Seq<char> {
    "Deleted '"@ + name + "'"@
}

/// After an edited connection's settings connected.
pub open spec fn edited_ok_message(name: Seq<char>) -> Seq<char> {
    "'"@ + name + "' saved, connection OK"@
}

/// After an edited connection's settings failed to connect.
pub open spec fn edited_failed_message(e: Seq<char>) -> Seq<char> {
    "Saved but connection failed: "@ + e
}

/// After an edited connection's settings could not be read.
pub open spec fn config_error_message(e: Seq<char>) -> Seq<char> {
    "Error parsing config: "@ + e
}

/// After a new connection was tested and saved.
pub open spec fn created_message(name: Seq<char>) -> Seq<char> {
    "'"@ + name + "' created, connection OK"@
}

/// In the form, after the new settings failed to connect.
pub open spec fn connection_failed_message(e: Seq<char>) -> Seq<char> {
    "Connection failed: "@ + e
}

/// After a query failed to run.
pub open spec fn run_error_message(e: Seq<char>) -> Seq<char> {
    "Error: "@ + e
}

/// After the settings to run a query with could not be read.
pub open spec fn cannot_load_message(e: Seq<char>) -> Seq<char> {
    "Cannot load connection: "@ + e
}

/// After a query was deleted.
pub open spec fn deleted_query_message(name: Seq<char>) -> Seq<char> {
    "Deleted query '"@ + name + "'"@
}

/// After a connection or query was renamed.
pub open spec fn renamed_message(old: Seq<char>, new: Seq<char>) -> Seq<char> {
    "Renamed '"@ + old + "' → '"@ + new + "'"@
}

/// After a renaming failed.
pub open spec fn rename_failed_message(e: Seq<char>) -> Seq<char> {
    "Rename failed: "@ + e
}

// ── Selection ────────────────────────────────────────────────────────────────

/// The index of the first `name` in `list`, or the length of `list` if there
/// is none.
pub open spec fn find_name(list: Seq<Seq<char>>, name: Seq<char>) -> nat
    decreases list.len(),
{
    if list.len() == 0 {
        0
    } else if list[0] == name {
        0
    } else {
        1 + find_name(list.drop_first(), name)
    }
}

/// The index that `choose` selects in `list`.
pub open spec fn choice_index(choose: ChoiceView, list: Seq<Seq<char>>) -> usize {
    match choose {
        ChoiceView::First => 0,
        ChoiceView::Named(n) => if find_name(list, n) < list.len() {
            find_name(list, n) as usize
        } else {
            0
        },
        ChoiceView::Near(i) => if list.len() == 0 {
            0
        } else if i < list.len() - 1 {
            i
        } else {
            (list.len() - 1) as usize
        },
    }
}

/// The selection `selected` fits a list of `len` entries: it is one of them,
/// or 0 when there are none.
pub open spec fn selection_fits(len: nat, selected: usize) -> bool {
    selected == 0 || selected < len
}

// ── Steps ────────────────────────────────────────────────────────────────────

/// What the screen shows while outside work is done.
pub open spec fn waiting_screen() -> ScreenView {
    ScreenView::ConnectionList { connections: Seq::empty(), selected: 0 }
}

/// Show `screen` with the status `status` and wait for the next key.
pub open spec fn show(screen: ScreenView, status: Option<Seq<char>>) -> (AppView, EffectView) {
    (AppView { screen, status, pending: None }, EffectView::Nothing)
}

/// Ask for `effect`, to go on as `pending` says.
pub open spec fn request(pending: PendingView, status: Option<Seq<char>>, effect: EffectView) -> (
    AppView,
    EffectView,
) {
    (AppView { screen: waiting_screen(), status, pending: Some(pending) }, effect)
}

/// Stop with `effect`.
pub open spec fn finish(status: Option<Seq<char>>, effect: EffectView) -> (AppView, EffectView) {
    (AppView { screen: waiting_screen(), status, pending: None }, effect)
}

/// Show the queries of `connection` with `selected` selected: read the
/// selected query's text first if there is one, else show no text.
pub open spec fn enter_query_list(
    connection: Seq<char>,
    queries: Seq<Seq<char>>,
    selected: usize,
    status: Option<Seq<char>>,
) -> (AppView, EffectView) {
    if selected < queries.len() {
        request(
            PendingView::Preview { connection, queries, selected },
            status,
            EffectView::LoadQuery { connection, query: queries[selected as int] },
        )
    } else {
        show(ScreenView::QueryList { connection, queries, selected, preview: Seq::empty() }, status)
    }
}

/// The character that typing `c` adds to a name: a space becomes `_`.
pub open spec fn name_char(c: char) -> char {
    if c == ' ' {
        '_'
    } else {
        c
    }
}

/// The key `k` on the list of connections.
pub open spec fn connection_list_key(connections: Seq<Seq<char>>, selected: usize, k: Key) -> (
    AppView,
    EffectView,
) {
    let here = ScreenView::ConnectionList { connections, selected };
    let some = connections.len() > 0;
    let name = connections[selected as int];
    match k {
        Key::Char('q') | Key::Esc => finish(None, EffectView::Quit),
        Key::Up | Key::Char('k') => show(
            ScreenView::ConnectionList {
                connections,
                selected: if selected > 0 {
                    (selected - 1) as usize
                } else {
                    0
                },
            },
            None,
        ),
        Key::Down | Key::Char('j') => if some && selected < connections.len() - 1 {
            show(ScreenView::ConnectionList { connections, selected: (selected + 1) as usize }, None)
        } else {
            show(here, None)
        },
        Key::Enter => if some {
            request(
                PendingView::Queries { connection: name, choose: ChoiceView::First, lenient: false },
                None,
                EffectView::ListQueries { connection: name },
            )
        } else {
            show(here, None)
        },
        Key::Char('n') => show(
            ScreenView::CreateConnection { form: models::default_form(), status: None },
            None,
        ),
        Key::Char('d') => if some {
            request(
                PendingView::ThenConnections { choose: ChoiceView::Near(selected) },
                Some(deleted_connection_message(name)),
                EffectView::DeleteConnection { name },
            )
        } else {
            show(here, None)
        },
        Key::Char('e') => if some {
            request(
                PendingView::EditedConnection { name, selected },
                None,
                EffectView::EditConnection { name },
            )
        } else {
            show(here, None)
        },
        Key::Char('r') => if some {
            show(ScreenView::RenameConnection { old_name: name, input: Seq::empty() }, None)
        } else {
            show(here, None)
        },
        _ => show(here, None),
    }
}

/// The form after typing `c` into the field in focus; in the name, a space
/// becomes `_`.
pub open spec fn form_typed(form: FormView, c: char) -> FormView {
    let c2 = if form.active_field == 0 && c == ' ' {
        '_'
    } else {
        c
    };
    FormView {
        values: form.values.update(
            form.active_field as int,
            form.values[form.active_field as int].push(c2),
        ),
        ..form
    }
}

/// The form after erasing the last character of the field in focus.
pub open spec fn form_erased(form: FormView) -> FormView {
    FormView {
        values: form.values.update(
            form.active_field as int,
            text::without_last(form.values[form.active_field as int]),
        ),
        ..form
    }
}

/// Test the settings that `form` holds, to save them once they connect; if
/// it holds none, say why.
pub open spec fn test_form(form: FormView, status: Option<Seq<char>>) -> (AppView, EffectView) {
    match form.to_config() {
        Ok(config) => request(
            PendingView::TestNewConnection { form, status, config },
            None,
            EffectView::TestConnection { config },
        ),
        Err(e) => show(ScreenView::CreateConnection { form, status: Some(e) }, None),
    }
}

/// Whether the focus is on the form's last field.
pub open spec fn on_last_field(form: FormView) -> bool {
    form.active_field == 5
}

/// The key `k` on the form of a new connection. Tab and the arrows move the
/// focus; Enter starts or ends typing into a field, and on the last field
/// tests the settings and saves them once they connect, as `s` does.
pub open spec fn create_connection_key(form: FormView, status: Option<Seq<char>>, k: Key) -> (
    AppView,
    EffectView,
) {
    let stay = |f: FormView| show(ScreenView::CreateConnection { form: f, status }, None);
    if form.editing {
        match k {
            Key::Enter => if on_last_field(form) {
                test_form(FormView { editing: false, ..form }, status)
            } else {
                stay(FormView { editing: false, ..form })
            },
            Key::Esc => stay(FormView { editing: false, ..form }),
            Key::Tab | Key::Down => stay(form.after_next_field()),
            Key::Up => stay(form.after_prev_field()),
            Key::Char(c) => stay(form_typed(form, c)),
            Key::Backspace => stay(form_erased(form)),
            _ => stay(form),
        }
    } else {
        match k {
            Key::Esc => request(
                PendingView::Connections { choose: ChoiceView::First },
                None,
                EffectView::ListConnections,
            ),
            Key::Tab | Key::Down | Key::Char('j') => stay(form.after_next_field()),
            Key::Up | Key::Char('k') => stay(form.after_prev_field()),
            Key::Enter => if on_last_field(form) {
                test_form(form, status)
            } else {
                stay(FormView { editing: true, ..form })
            },
            Key::Char('s') => test_form(form, status),
            _ => stay(form),
        }
    }
}

/// The key `k` on the list of queries of `connection`.
pub open spec fn query_list_key(
    connection: Seq<char>,
    queries: Seq<Seq<char>>,
    selected: usize,
    preview: Seq<char>,
    k: Key,
) -> (AppView, EffectView) {
    let here = ScreenView::QueryList { connection, queries, selected, preview };
    let some = queries.len() > 0;
    let query = queries[selected as int];
    match k {
        Key::Esc | Key::Left | Key::Char('h') => request(
            PendingView::Connections { choose: ChoiceView::First },
            None,
            EffectView::ListConnections,
        ),
        Key::Up | Key::Char('k') => enter_query_list(
            connection,
            queries,
            if selected > 0 {
                (selected - 1) as usize
            } else {
                0
            },
            None,
        ),
        Key::Down | Key::Char('j') => if some && selected < queries.len() - 1 {
            enter_query_list(connection, queries, (selected + 1) as usize, None)
        } else {
            show(here, None)
        },
        Key::Enter => if some {
            request(
                PendingView::OpenQuery { connection, query, lenient: false },
                None,
                EffectView::LoadQuery { connection, query },
            )
        } else {
            show(here, None)
        },
        Key::Char('r') => if some {
            show(
                ScreenView::RenameQuery { connection, old_name: query, input: Seq::empty() },
                None,
            )
        } else {
            show(here, None)
        },
        Key::Char('e') => if some {
            request(
                PendingView::ThenPreview { connection, queries, selected },
                None,
                EffectView::EditQuery { connection, query },
            )
        } else {
            show(here, None)
        },
        Key::Char('n') => show(
            ScreenView::CreateQueryName { connection, input: Seq::empty() },
            None,
        ),
        Key::Char('d') => if some {
            request(
                PendingView::ThenQueries {
                    connection,
                    choose: ChoiceView::Near(selected),
                    tolerate: false,
                },
                Some(deleted_query_message(query)),
                EffectView::DeleteQuery { connection, query },
            )
        } else {
            show(here, None)
        },
        _ => show(here, None),
    }
}

/// The key `k` where the name of a new query of `connection` is typed.
pub open spec fn create_query_name_key(connection: Seq<char>, input: Seq<char>, k: Key) -> (
    AppView,
    EffectView,
) {
    match k {
        Key::Esc => request(
            PendingView::Queries { connection, choose: ChoiceView::First, lenient: false },
            None,
            EffectView::ListQueries { connection },
        ),
        Key::Enter => if input.len() > 0 {
            request(
                PendingView::NewQuerySaved { connection, name: text::trim(input) },
                None,
                EffectView::SaveQuery { connection, query: text::trim(input), sql: Seq::empty() },
            )
        } else {
            show(ScreenView::CreateQueryName { connection, input }, None)
        },
        Key::Char(c) => show(
            ScreenView::CreateQueryName { connection, input: input.push(name_char(c)) },
            None,
        ),
        Key::Backspace => show(
            ScreenView::CreateQueryName { connection, input: text::without_last(input) },
            None,
        ),
        _ => show(ScreenView::CreateQueryName { connection, input }, None),
    }
}

/// The key `k` where a connection's new name is typed.
pub open spec fn rename_connection_key(old_name: Seq<char>, input: Seq<char>, k: Key) -> (
    AppView,
    EffectView,
) {
    match k {
        Key::Esc => request(
            PendingView::Connections { choose: ChoiceView::Named(old_name) },
            None,
            EffectView::ListConnections,
        ),
        Key::Enter => if input.len() > 0 {
            request(
                PendingView::RenamingConnection { old_name, input, new_name: text::trim(input) },
                None,
                EffectView::RenameConnection { old_name, new_name: text::trim(input) },
            )
        } else {
            show(ScreenView::RenameConnection { old_name, input }, None)
        },
        Key::Char(c) => show(
            ScreenView::RenameConnection { old_name, input: input.push(name_char(c)) },
            None,
        ),
        Key::Backspace => show(
            ScreenView::RenameConnection { old_name, input: text::without_last(input) },
            None,
        ),
        _ => show(ScreenView::RenameConnection { old_name, input }, None),
    }
}

/// The key `k` where a query's new name is typed.
pub open spec fn rename_query_key(
    connection: Seq<char>,
    old_name: Seq<char>,
    input: Seq<char>,
    k: Key,
) -> (AppView, EffectView) {
    match k {
        Key::Esc => request(
            PendingView::Queries {
                connection,
                choose: ChoiceView::Named(old_name),
                lenient: false,
            },
            None,
            EffectView::ListQueries { connection },
        ),
        Key::Enter => if input.len() > 0 {
            request(
                PendingView::RenamingQuery { connection, old_name, input, new_name: text::trim(input) },
                None,
                EffectView::RenameQuery { connection, old_name, new_name: text::trim(input) },
            )
        } else {
            show(ScreenView::RenameQuery { connection, old_name, input }, None)
        },
        Key::Char(c) => show(
            ScreenView::RenameQuery { connection, old_name, input: input.push(name_char(c)) },
            None,
        ),
        Key::Backspace => show(
            ScreenView::RenameQuery { connection, old_name, input: text::without_last(input) },
            None,
        ),
        _ => show(ScreenView::RenameQuery { connection, old_name, input }, None),
    }
}

/// The key `k` where the query `query` of `connection` is shown with its
/// text `sql`.
pub open spec fn query_view_key(connection: Seq<char>, query: Seq<char>, sql: Seq<char>, k: Key) -> (
    AppView,
    EffectView,
) {
    match k {
        Key::Enter => request(
            PendingView::RunQueryConfig { connection, query, sql },
            None,
            EffectView::LoadConnection { name: connection },
        ),
        Key::Char('e') => request(
            PendingView::ThenOpenQuery { connection, query },
            None,
            EffectView::EditQuery { connection, query },
        ),
        Key::Esc | Key::Char('q') => request(
            PendingView::Queries { connection, choose: ChoiceView::Named(query), lenient: false },
            None,
            EffectView::ListQueries { connection },
        ),
        _ => show(ScreenView::QueryView { connection, query, sql }, None),
    }
}

/// The key `k` on the result of `query`: `l`/Right and `h`/Left move a page,
/// `j`/Down and `k`/Up move the selected row, `q`/Esc go back to the query.
pub open spec fn results_key(connection: Seq<char>, query: Seq<char>, result: ResultView, k: Key) -> (
    AppView,
    EffectView,
) {
    match k {
        Key::Esc | Key::Char('q') => request(
            PendingView::OpenQuery { connection, query, lenient: true },
            None,
            EffectView::LoadQuery { connection, query },
        ),
        Key::Right | Key::Char('l') => show(
            ScreenView::Results { connection, query, result: result.after_next_page() },
            None,
        ),
        Key::Left | Key::Char('h') => show(
            ScreenView::Results { connection, query, result: result.after_prev_page() },
            None,
        ),
        Key::Down | Key::Char('j') => show(
            ScreenView::Results { connection, query, result: result.after_next_row() },
            None,
        ),
        Key::Up | Key::Char('k') => show(
            ScreenView::Results { connection, query, result: result.after_prev_row() },
            None,
        ),
        _ => show(ScreenView::Results { connection, query, result }, None),
    }
}

/// What the key `k` does: Ctrl+Q quits from anywhere; any other key clears the
/// status message and acts as the screen shown says.
pub open spec fn key_step(a: AppView, k: KeyInput) -> (AppView, EffectView) {
    if k.control && k.code == Key::Char('q') {
        (AppView { screen: a.screen, status: None, pending: None }, EffectView::Quit)
    } else {
        match a.screen {
            ScreenView::ConnectionList { connections, selected } => connection_list_key(
                connections,
                selected,
                k.code,
            ),
            ScreenView::CreateConnection { form, status } => create_connection_key(
                form,
                status,
                k.code,
            ),
            ScreenView::QueryList { connection, queries, selected, preview } => query_list_key(
                connection,
                queries,
                selected,
                preview,
                k.code,
            ),
            ScreenView::CreateQueryName { connection, input } => create_query_name_key(
                connection,
                input,
                k.code,
            ),
            ScreenView::RenameConnection { old_name, input } => rename_connection_key(
                old_name,
                input,
                k.code,
            ),
            ScreenView::RenameQuery { connection, old_name, input } => rename_query_key(
                connection,
                old_name,
                input,
                k.code,
            ),
            ScreenView::QueryView { connection, query, sql } => query_view_key(
                connection,
                query,
                sql,
                k.code,
            ),
            ScreenView::Results { connection, query, result } => results_key(
                connection,
                query,
                result,
                k.code,
            ),
        }
    }
}

/// How the application goes on once the work that `p` waits for came back
/// as `o`, with the status message `status`.
pub open spec fn pending_step(p: PendingView, o: OutcomeView, status: Option<Seq<char>>) -> (
    AppView,
    EffectView,
) {
    let abort = finish(status, EffectView::Abort);
    match p {
        PendingView::Start { query } => match o {
            OutcomeView::Config(c) => request(
                PendingView::Queries {
                    connection: c.name,
                    choose: match query {
                        Some(q) => ChoiceView::Named(q),
                        None => ChoiceView::First,
                    },
                    lenient: false,
                },
                status,
                EffectView::ListQueries { connection: c.name },
            ),
            _ => request(
                PendingView::Connections { choose: ChoiceView::First },
                status,
                EffectView::ListConnections,
            ),
        },
        PendingView::Connections { choose } => match o {
            OutcomeView::Names(v) => show(
                ScreenView::ConnectionList { connections: v, selected: choice_index(choose, v) },
                status,
            ),
            _ => abort,
        },
        PendingView::Queries { connection, choose, lenient } => match o {
            OutcomeView::Names(v) => enter_query_list(
                connection,
                v,
                choice_index(choose, v),
                status,
            ),
            _ => if lenient {
                enter_query_list(connection, Seq::empty(), 0, status)
            } else {
                abort
            },
        },
        PendingView::Preview { connection, queries, selected } => show(
            ScreenView::QueryList {
                connection,
                queries,
                selected,
                preview: match o {
                    OutcomeView::Text(t) => t,
                    _ => Seq::empty(),
                },
            },
            status,
        ),
        PendingView::ThenConnections { choose } => match o {
            OutcomeView::Done => request(
                PendingView::Connections { choose },
                status,
                EffectView::ListConnections,
            ),
            _ => abort,
        },
        PendingView::ThenQueries { connection, choose, tolerate } => if o is Done || tolerate {
            request(
                PendingView::Queries { connection, choose, lenient: false },
                status,
                EffectView::ListQueries { connection },
            )
        } else {
            abort
        },
        PendingView::ThenPreview { connection, queries, selected } => match o {
            OutcomeView::Done => enter_query_list(connection, queries, selected, status),
            _ => abort,
        },
        PendingView::EditedConnection { name, selected } => match o {
            OutcomeView::Done => request(
                PendingView::LoadedEditedConnection { name, selected },
                status,
                EffectView::LoadConnection { name },
            ),
            _ => abort,
        },
        PendingView::LoadedEditedConnection { name, selected } => match o {
            OutcomeView::Config(c) => request(
                PendingView::TestedEditedConnection { name, selected },
                status,
                EffectView::TestConnection { config: c },
            ),
            OutcomeView::Failed(e) => request(
                PendingView::Connections { choose: ChoiceView::Near(selected) },
                Some(config_error_message(e)),
                EffectView::ListConnections,
            ),
            _ => abort,
        },
        PendingView::TestedEditedConnection { name, selected } => match o {
            OutcomeView::Done => request(
                PendingView::Connections { choose: ChoiceView::Near(selected) },
                Some(edited_ok_message(name)),
                EffectView::ListConnections,
            ),
            OutcomeView::Failed(e) => request(
                PendingView::Connections { choose: ChoiceView::Near(selected) },
                Some(edited_failed_message(e)),
                EffectView::ListConnections,
            ),
            _ => abort,
        },
        PendingView::TestNewConnection { form, status: form_status, config } => match o {
            OutcomeView::Done => request(
                PendingView::ThenConnections { choose: ChoiceView::First },
                Some(created_message(config.name)),
                EffectView::SaveConnection { config },
            ),
            OutcomeView::Failed(e) => show(
                ScreenView::CreateConnection { form, status: Some(connection_failed_message(e)) },
                status,
            ),
            _ => abort,
        },
        PendingView::OpenQuery { connection, query, lenient } => match o {
            OutcomeView::Text(sql) => show(ScreenView::QueryView { connection, query, sql }, status),
            _ => if lenient {
                show(ScreenView::QueryView { connection, query, sql: Seq::empty() }, status)
            } else {
                abort
            },
        },
        PendingView::ThenOpenQuery { connection, query } => match o {
            OutcomeView::Done => request(
                PendingView::OpenQuery { connection, query, lenient: false },
                status,
                EffectView::LoadQuery { connection, query },
            ),
            _ => abort,
        },
        PendingView::RunQueryConfig { connection, query, sql } => match o {
            OutcomeView::Config(c) => request(
                PendingView::RunQueryResult { connection, query, sql },
                status,
                EffectView::RunQuery { config: c, sql },
            ),
            OutcomeView::Failed(e) => show(
                ScreenView::QueryView { connection, query, sql },
                Some(cannot_load_message(e)),
            ),
            _ => abort,
        },
        PendingView::RunQueryResult { connection, query, sql } => match o {
            OutcomeView::Rows(r) => show(
                ScreenView::Results { connection, query, result: r },
                status,
            ),
            OutcomeView::Failed(e) => show(
                ScreenView::QueryView { connection, query, sql },
                Some(run_error_message(e)),
            ),
            _ => abort,
        },
        PendingView::NewQuerySaved { connection, name } => match o {
            OutcomeView::Done => request(
                PendingView::NewQueryEdited { connection, name },
                status,
                EffectView::EditQuery { connection, query: name },
            ),
            _ => abort,
        },
        PendingView::NewQueryEdited { connection, name } => match o {
            OutcomeView::Done => request(
                PendingView::NewQueryLoaded { connection, name },
                status,
                EffectView::LoadQuery { connection, query: name },
            ),
            _ => abort,
        },
        PendingView::NewQueryLoaded { connection, name } => {
            let text = match o {
                OutcomeView::Text(t) => t,
                _ => Seq::empty(),
            };
            if text::trim(text).len() == 0 {
                request(
                    PendingView::ThenQueries {
                        connection,
                        choose: ChoiceView::Named(name),
                        tolerate: true,
                    },
                    status,
                    EffectView::DeleteQuery { connection, query: name },
                )
            } else {
                request(
                    PendingView::Queries {
                        connection,
                        choose: ChoiceView::Named(name),
                        lenient: false,
                    },
                    status,
                    EffectView::ListQueries { connection },
                )
            }
        },
        PendingView::RenamingConnection { old_name, input, new_name } => match o {
            OutcomeView::Done => request(
                PendingView::Connections { choose: ChoiceView::Named(new_name) },
                Some(renamed_message(old_name, new_name)),
                EffectView::ListConnections,
            ),
            OutcomeView::Failed(e) => show(
                ScreenView::RenameConnection { old_name, input },
                Some(rename_failed_message(e)),
            ),
            _ => abort,
        },
        PendingView::RenamingQuery { connection, old_name, input, new_name } => match o {
            OutcomeView::Done => request(
                PendingView::Queries {
                    connection,
                    choose: ChoiceView::Named(new_name),
                    lenient: false,
                },
                Some(renamed_message(old_name, new_name)),
                EffectView::ListQueries { connection },
            ),
            OutcomeView::Failed(e) => show(
                ScreenView::RenameQuery { connection, old_name, input },
                Some(rename_failed_message(e)),
            ),
            _ => abort,
        },
    }
}

/// How the application goes on once outside work came back as `o`; with no
/// work in progress, nothing changes.
pub open spec fn resume_step(a: AppView, o: OutcomeView) -> (AppView, EffectView) {
    match a.pending {
        Some(p) => pending_step(p, o, a.status),
        None => (a, EffectView::Nothing),
    }
}

/// The application at start: with a connection named, its settings are read
/// first; otherwise the saved connections are listed.
pub open spec fn start_step(connection: Option<Seq<char>>, query: Option<Seq<char>>) -> (
    AppView,
    EffectView,
) {
    match connection {
        Some(c) => request(PendingView::Start { query }, None, EffectView::LoadConnection { name: c }),
        None => request(
            PendingView::Connections { choose: ChoiceView::First },
            None,
            EffectView::ListConnections,
        ),
    }
}

// ── Well-formedness ──────────────────────────────────────────────────────────

impl ScreenView {
    /// Every selection is one of its list's entries (or 0 for an empty list),
    /// the form's focus is on one of its fields, and a result's page exists.
    pub open spec fn well_formed(self) -> bool {
        match self {
            ScreenView::ConnectionList { connections, selected } => selection_fits(
                connections.len(),
                selected,
            ),
            ScreenView::CreateConnection { form, .. } => form.active_field < 6 && form.values.len()
                == 6,
            ScreenView::QueryList { queries, selected, .. } => selection_fits(
                queries.len(),
                selected,
            ),
            ScreenView::Results { result, .. } => result.well_formed(),
            _ => true,
        }
    }
}

impl PendingView {
    /// The screens that the work in progress will show are well-formed.
    pub open spec fn well_formed(self) -> bool {
        match self {
            PendingView::Preview { queries, selected, .. } => selected < queries.len(),
            PendingView::ThenPreview { queries, selected, .. } => selection_fits(
                queries.len(),
                selected,
            ),
            PendingView::TestNewConnection { form, .. } => form.active_field < 6
                && form.values.len() == 6,
            _ => true,
        }
    }
}

impl AppView {
    /// The screen and the work in progress are well-formed.
    pub open spec fn well_formed(self) -> bool {
        &&& self.screen.well_formed()
        &&& match self.pending {
            Some(p) => p.well_formed(),
            None => true,
        }
    }
}

} // verus!

verus! {

// ── Laws ─────────────────────────────────────────────────────────────────────

/// A selection made once a list is known fits the list.
pub proof fn lemma_choice_fits(choose: ChoiceView, list: Seq<Seq<char>>)
    ensures
        selection_fits(list.len(), choice_index(choose, list)),
{
}

/// Showing a list of queries keeps the application well-formed.
proof fn lemma_enter_query_list_well_formed(
    connection: Seq<char>,
    queries: Seq<Seq<char>>,
    selected: usize,
    status: Option<Seq<char>>,
)
    requires
        selection_fits(queries.len(), selected),
    ensures
        enter_query_list(connection, queries, selected, status).0.well_formed(),
{
}

/// Every key keeps the application well-formed.
pub proof fn lemma_key_step_well_formed(a: AppView, k: KeyInput)
    requires
        a.well_formed(),
    ensures
        key_step(a, k).0.well_formed(),
{
    if !(k.control && k.code == Key::Char('q')) {
        match a.screen {
            ScreenView::QueryList { connection, queries, selected, preview } => {
                if selected > 0 {
                    lemma_enter_query_list_well_formed(connection, queries, (selected - 1) as usize, None);
                }
            },
            ScreenView::Results { result, .. } => {
                crate::models::lemma_paging_keeps_well_formed(result);
            },
            _ => {},
        }
    }
}

/// Whatever outside work gives back keeps the application well-formed.
pub proof fn lemma_resume_step_well_formed(a: AppView, o: OutcomeView)
    requires
        a.well_formed(),
        o.well_formed(),
    ensures
        resume_step(a, o).0.well_formed(),
{
    if let Some(p) = a.pending {
        match p {
            PendingView::Queries { choose, .. } => {
                if let OutcomeView::Names(v) = o {
                    lemma_choice_fits(choose, v);
                }
            },
            PendingView::Connections { choose } => {
                if let OutcomeView::Names(v) = o {
                    lemma_choice_fits(choose, v);
                }
            },
            _ => {},
        }
    }
}

/// The application starts well-formed.
pub proof fn lemma_start_well_formed(connection: Option<Seq<char>>, query: Option<Seq<char>>)
    ensures
        start_step(connection, query).0.well_formed(),
{
}

/// Ctrl+Q quits from every screen, whatever work was in progress.
pub proof fn lemma_ctrl_q_quits(a: AppView)
    ensures
        key_step(a, KeyInput { code: Key::Char('q'), control: true }).1 == EffectView::Quit,
{
}

/// Only Ctrl+Q, and `q` or Esc on the list of connections, quit.
pub proof fn lemma_quit_keys(a: AppView, k: KeyInput)
    requires
        key_step(a, k).1 == EffectView::Quit,
    ensures
        (k.control && k.code == Key::Char('q')) || (a.screen is ConnectionList && (k.code
            == Key::Char('q') || k.code == Key::Esc)),
{
}

/// While a field of the form is being typed into, a character key types that
/// character into it (a space in the name becomes `_`) and moves no focus.
pub proof fn lemma_typing_in_form(a: AppView, c: char, control: bool)
    requires
        a.screen matches ScreenView::CreateConnection { form, .. } && form.editing,
        !(control && c == 'q'),
    ensures
        ({
            let form = a.screen->form;
            let next = key_step(a, KeyInput { code: Key::Char(c), control }).0;
            &&& next.screen matches ScreenView::CreateConnection { form: f, .. }
            &&& f == form_typed(form, c)
            &&& f.active_field == form.active_field
            &&& f.editing
        }),
{
}

/// Outside work is asked for only with work in progress to take its outcome,
/// and the application waits for keys only with no work in progress.
pub proof fn lemma_work_has_continuation(a: AppView, k: KeyInput, o: OutcomeView)
    ensures
        ({
            let (n, e) = key_step(a, k);
            (e is Nothing || e is Quit || e is Abort) <==> n.pending is None
        }),
        a.pending is Some ==> ({
            let (n, e) = resume_step(a, o);
            (e is Nothing || e is Quit || e is Abort) <==> n.pending is None
        }),
{
}

} // verus!

verus! {

/// When the entry named in a choice is in the list, the choice selects it.
pub proof fn lemma_named_choice_selects(list: Seq<Seq<char>>, name: Seq<char>)
    requires
        list.contains(name),
        list.len() <= usize::MAX,
    ensures
        find_name(list, name) < list.len(),
        list[choice_index(ChoiceView::Named(name), list) as int] == name,
    decreases list.len(),
{
    if list[0] != name {
        let rest = list.drop_first();
        let i = choose|i: int| 0 <= i < list.len() && list[i] == name;
        assert(rest[i - 1] == name);
        lemma_named_choice_selects(rest, name);
        let j = find_name(rest, name);
        assert(find_name(list, name) == 1 + j);
        assert(list[1 + j as int] == rest[j as int]);
    }
}

/// A key clears the status message, except the key that deletes, which says
/// what it deleted.
pub proof fn lemma_keys_clear_status(a: AppView, k: KeyInput)
    requires
        key_step(a, k).0.status is Some,
    ensures
        k.code == Key::Char('d'),
{
}

/// Typing a character into a name and erasing it again gives the name back.
pub proof fn lemma_typing_undone_by_backspace(a: AppView, c: char)
    requires
        a.screen is CreateQueryName || a.screen is RenameConnection || a.screen is RenameQuery,
        c != 'q',
    ensures
        ({
            let typed = key_step(a, KeyInput { code: Key::Char(c), control: false }).0;
            let erased = key_step(typed, KeyInput { code: Key::Backspace, control: false }).0;
            erased.screen == a.screen
        }),
{
    match a.screen {
        ScreenView::CreateQueryName { input, .. } => {
            assert(input.push(name_char(c)).drop_last() =~= input);
        },
        ScreenView::RenameConnection { input, .. } => {
            assert(input.push(name_char(c)).drop_last() =~= input);
        },
        ScreenView::RenameQuery { input, .. } => {
            assert(input.push(name_char(c)).drop_last() =~= input);
        },
        _ => {},
    }
}

/// In the form, typing a character into the field being edited and erasing
/// it again gives the form back.
pub proof fn lemma_form_typing_undone_by_backspace(a: AppView, c: char)
    requires
        a.screen matches ScreenView::CreateConnection { form, .. } && form.editing
            && form.active_field < 6 && form.values.len() == 6,
    ensures
        ({
            let typed = key_step(a, KeyInput { code: Key::Char(c), control: false }).0;
            let erased = key_step(typed, KeyInput { code: Key::Backspace, control: false }).0;
            erased.screen == a.screen
        }),
{
    let form = a.screen->form;
    let i = form.active_field as int;
    let t = form_typed(form, c);
    assert(t.values[i].drop_last() =~= form.values[i]);
    assert(form_erased(t).values =~= form.values);
}

/// Moving down the list of connections and back up returns to the same
/// entry, unless the last one was selected.
pub proof fn lemma_connection_moves_undo(connections: Seq<Seq<char>>, selected: usize)
    requires
        selected + 1 < connections.len(),
        connections.len() <= usize::MAX,
    ensures
        ({
            let a = AppView {
                screen: ScreenView::ConnectionList { connections, selected },
                status: None,
                pending: None,
            };
            let down = key_step(a, KeyInput { code: Key::Down, control: false }).0;
            let up = key_step(down, KeyInput { code: Key::Up, control: false }).0;
            up == a
        }),
{
}

} // verus!

verus! {

/// New settings are saved only once they connected: no key saves a
/// connection, and the application asks to save one only when the test of
/// those very settings came back done.
pub proof fn lemma_save_only_after_test(a: AppView, k: KeyInput, o: OutcomeView)
    ensures
        !(key_step(a, k).1 is SaveConnection),
        resume_step(a, o).1 matches EffectView::SaveConnection { config } ==> (a.pending
            matches Some(PendingView::TestNewConnection { config: tested, .. }) && tested
            == config && o is Done),
{
}

/// Pressing `s` in the form tests the settings that it holds when they are
/// complete, and otherwise shows why they are not.
pub proof fn lemma_form_tested_when_complete(a: AppView, k: KeyInput)
    requires
        a.screen matches ScreenView::CreateConnection { form, .. } && !form.editing,
        !k.control,
        k.code == Key::Char('s'),
    ensures
        ({
            let form = a.screen->form;
            match form.to_config() {
                Ok(c) => key_step(a, k).1 == EffectView::TestConnection { config: c },
                Err(e) => key_step(a, k).0.screen == ScreenView::CreateConnection {
                    form,
                    status: Some(e),
                } && key_step(a, k).1 is Nothing,
            }
        }),
{
}

/// Tab moves the focus of the form to the next field, from the last back to
/// the first, and changes neither the texts nor whether one is being typed.
pub proof fn lemma_tab_moves_focus(a: AppView, control: bool)
    requires
        a.screen is CreateConnection,
    ensures
        ({
            let (form, status) = (a.screen->CreateConnection_form, a.screen->CreateConnection_status);
            let (n, e) = key_step(a, KeyInput { code: Key::Tab, control });
            &&& e is Nothing
            &&& n.screen == ScreenView::CreateConnection {
                form: FormView { active_field: ((form.active_field + 1) % 6) as usize, ..form },
                status,
            }
        }),
{
}

/// Enter on the last field of the form tests the settings that it holds; once
/// they connect they are saved and the saved connections are listed, and if
/// they fail the form is shown again with the failure. A form that holds no
/// complete settings says why.
pub proof fn lemma_enter_on_last_field_tests_and_saves(a: AppView, control: bool, e: Seq<char>)
    requires
        a.screen matches ScreenView::CreateConnection { form, .. } && on_last_field(form),
    ensures
        ({
            let form = FormView { editing: false, ..a.screen->CreateConnection_form };
            let (b, effect) = key_step(a, KeyInput { code: Key::Enter, control });
            match form.to_config() {
                Ok(c) => {
                    let (d, saved) = resume_step(b, OutcomeView::Done);
                    let (g, listed) = resume_step(d, OutcomeView::Done);
                    let (h, _) = resume_step(b, OutcomeView::Failed(e));
                    &&& effect == EffectView::TestConnection { config: c }
                    &&& saved == EffectView::SaveConnection { config: c }
                    &&& d.status == Some("'"@ + c.name + "' created, connection OK"@)
                    &&& listed == EffectView::ListConnections
                    &&& g.pending == Some(PendingView::Connections { choose: ChoiceView::First })
                    &&& h.screen == ScreenView::CreateConnection {
                        form,
                        status: Some("Connection failed: "@ + e),
                    }
                },
                Err(m) => {
                    &&& effect is Nothing
                    &&& b.screen == ScreenView::CreateConnection { form, status: Some(m) }
                },
            }
        }),
{
    let f = a.screen->CreateConnection_form;
    assert(FormView { editing: false, ..f }.to_config() == f.to_config());
}

} // verus!

verus! {

/// Leaving the list of queries with Esc, Left or `h` lists the saved
/// connections and then shows them with the first one selected.
pub proof fn lemma_leaving_query_list(a: AppView, k: KeyInput, v: Seq<Seq<char>>)
    requires
        a.screen is QueryList,
        !k.control,
        k.code == Key::Esc || k.code == Key::Left || k.code == Key::Char('h'),
    ensures
        key_step(a, k).1 == EffectView::ListConnections,
        key_step(a, k).0.pending == (Some(PendingView::Connections { choose: ChoiceView::First })),
        resume_step(key_step(a, k).0, OutcomeView::Names(v)).0.screen
            == (ScreenView::ConnectionList { connections: v, selected: 0 }),
{
}

/// Every list of queries shown, after a key or after outside work, has its
/// selection on one of its entries, or on 0 when it has none.
pub proof fn lemma_query_list_selection_fits(a: AppView, k: KeyInput, o: OutcomeView)
    requires
        a.well_formed(),
        o.well_formed(),
    ensures
        (key_step(a, k).0.screen matches ScreenView::QueryList { queries, selected, .. }
            ==> selection_fits(queries.len(), selected)),
        (resume_step(a, o).0.screen matches ScreenView::QueryList { queries, selected, .. }
            ==> selection_fits(queries.len(), selected)),
{
    lemma_key_step_well_formed(a, k);
    lemma_resume_step_well_formed(a, o);
}

/// Enter on the list of queries opens the selected query: its text is read
/// and shown, and nothing is run.
pub proof fn lemma_enter_opens_query(a: AppView, control: bool, t: Seq<char>)
    requires
        a.screen matches ScreenView::QueryList { queries, selected, .. } && selected
            < queries.len(),
    ensures
        ({
            let connection = a.screen->QueryList_connection;
            let query = a.screen->QueryList_queries[a.screen->QueryList_selected as int];
            let (b, effect) = key_step(a, KeyInput { code: Key::Enter, control });
            &&& effect == EffectView::LoadQuery { connection, query }
            &&& resume_step(b, OutcomeView::Text(t)) == show(
                ScreenView::QueryView { connection, query, sql: t },
                None,
            )
        }),
{
}

/// Enter on a shown query runs its text with the settings of its connection,
/// and shows the result; if it fails, the query is shown again with the error.
pub proof fn lemma_query_view_runs(a: AppView, control: bool, c: ConfigView, r: ResultView, e: Seq<char>)
    requires
        a.screen is QueryView,
    ensures
        ({
            let (connection, query, sql) = (
                a.screen->QueryView_connection,
                a.screen->QueryView_query,
                a.screen->QueryView_sql,
            );
            let (b, effect) = key_step(a, KeyInput { code: Key::Enter, control });
            let (d, run) = resume_step(b, OutcomeView::Config(c));
            &&& effect == EffectView::LoadConnection { name: connection }
            &&& run == EffectView::RunQuery { config: c, sql }
            &&& resume_step(d, OutcomeView::Rows(r)).0.screen == ScreenView::Results {
                connection,
                query,
                result: r,
            }
            &&& resume_step(d, OutcomeView::Failed(e)) == show(
                ScreenView::QueryView { connection, query, sql },
                Some("Error: "@ + e),
            )
        }),
{
}

/// Leaving a result with `q` or Esc shows its query again, with the text read
/// anew, or with no text if it cannot be read.
pub proof fn lemma_results_back_to_query_view(a: AppView, k: KeyInput, o: OutcomeView)
    requires
        a.screen is Results,
        !k.control,
        k.code == Key::Esc || k.code == Key::Char('q'),
    ensures
        ({
            let (connection, query) = (a.screen->Results_connection, a.screen->Results_query);
            let (b, effect) = key_step(a, k);
            &&& effect == EffectView::LoadQuery { connection, query }
            &&& resume_step(b, o) == show(
                ScreenView::QueryView {
                    connection,
                    query,
                    sql: match o {
                        OutcomeView::Text(t) => t,
                        _ => Seq::empty(),
                    },
                },
                None,
            )
        }),
{
}

/// A query runs only after Enter on the screen that shows it: no key runs a
/// query, and only Enter on a shown query asks for the settings to run it
/// with; the text run is the text shown, with the settings that came back.
pub proof fn lemma_run_only_from_query_view(a: AppView, k: KeyInput, o: OutcomeView)
    ensures
        !(key_step(a, k).1 is RunQuery),
        key_step(a, k).0.pending matches Some(PendingView::RunQueryConfig { sql, .. }) ==> (
        a.screen matches ScreenView::QueryView { sql: shown, .. } && shown == sql && k.code
            == Key::Enter),
        resume_step(a, o).1 matches EffectView::RunQuery { config, sql } ==> (a.pending
            matches Some(PendingView::RunQueryConfig { sql: s, .. }) && s == sql && o
            == OutcomeView::Config(config)),
{
}

/// On a result, `j`/Down selects the next row of the page shown and `k`/Up the
/// previous one; nothing else changes and no work is asked for.
pub proof fn lemma_row_keys_select_rows(a: AppView, k: KeyInput)
    requires
        a.screen is Results,
        !k.control,
        k.code == Key::Down || k.code == Key::Char('j') || k.code == Key::Up || k.code
            == Key::Char('k'),
    ensures
        ({
            let (connection, query, result) = (
                a.screen->Results_connection,
                a.screen->Results_query,
                a.screen->Results_result,
            );
            let moved = if k.code == Key::Down || k.code == Key::Char('j') {
                result.after_next_row()
            } else {
                result.after_prev_row()
            };
            key_step(a, k) == show(ScreenView::Results { connection, query, result: moved }, None)
        }),
{
}

} // verus!
