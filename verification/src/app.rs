//! The application's screens and how it answers keys.
//!
//! The application is a state machine. A key, given to [`App::handle_key`],
//! moves it to its next state and asks for at most one piece of outside work
//! (an [`Effect`]: reading or writing the saved files, opening the editor,
//! talking to the database). The caller does that work and hands what came of
//! it (an [`Outcome`]) to [`App::resume`], which again moves the application
//! on and may ask for more work, until it asks for [`Effect::Nothing`] (wait
//! for the next key), [`Effect::Quit`] or [`Effect::Abort`] (stop with the
//! error of the last piece of work).
use vstd::prelude::*;

use crate::flow;
use crate::models::{ConfigView, ConnectionConfig, ConnectionForm, FormView, QueryResult, ResultView};
use crate::text::{erase_last, is_blank, push_char, trimmed};

verus! {

// ── Keys ─────────────────────────────────────────────────────────────────────

/// The keys that the application tells apart.
#[derive(Clone, Copy, Debug, PartialEq, Eq, Structural)]
pub enum Key {
    Char(char),
    Enter,
    Esc,
    Up,
    Down,
    Left,
    Right,
    Backspace,
    Tab,
    Other,
}

/// A key press: the key, and whether Ctrl (and no other modifier) was held.
#[derive(Clone, Copy, Debug, PartialEq, Eq, Structural)]
pub struct KeyInput {
    pub code: Key,
    pub control: bool,
}

// ── Screens ──────────────────────────────────────────────────────────────────

/// What the application shows.
#[derive(Debug)]
pub enum Screen {
    ConnectionList { connections: Vec<String>, selected: usize },
    CreateConnection { form: ConnectionForm, status: Option<String> },
    QueryList { connection: String, queries: Vec<String>, selected: usize, preview: String },
    CreateQueryName { connection: String, input: String },
    RenameConnection { old_name: String, input: String },
    RenameQuery { connection: String, old_name: String, input: String },
    QueryView { connection: String, query: String, sql: String },
    Results { connection: String, query: String, result: QueryResult },
}

/// A screen as mathematical values.
pub enum ScreenView {
    ConnectionList { connections: Seq<Seq<char>>, selected: usize },
    CreateConnection { form: FormView, status: Option<Seq<char>> },
    QueryList {
        connection: Seq<char>,
        queries: Seq<Seq<char>>,
        selected: usize,
        preview: Seq<char>,
    },
    CreateQueryName { connection: Seq<char>, input: Seq<char> },
    RenameConnection { old_name: Seq<char>, input: Seq<char> },
    RenameQuery { connection: Seq<char>, old_name: Seq<char>, input: Seq<char> },
    QueryView { connection: Seq<char>, query: Seq<char>, sql: Seq<char> },
    Results { connection: Seq<char>, query: Seq<char>, result: ResultView },
}

impl View for Screen {
    type V = ScreenView;

    open spec fn view(&self) -> ScreenView {
        match self {
            Screen::ConnectionList { connections, selected } => ScreenView::ConnectionList {
                connections: connections.deep_view(),
                selected: *selected,
            },
            Screen::CreateConnection { form, status } => ScreenView::CreateConnection {
                form: form@,
                status: status.deep_view(),
            },
            Screen::QueryList { connection, queries, selected, preview } => ScreenView::QueryList {
                connection: connection@,
                queries: queries.deep_view(),
                selected: *selected,
                preview: preview@,
            },
            Screen::CreateQueryName { connection, input } => ScreenView::CreateQueryName {
                connection: connection@,
                input: input@,
            },
            Screen::RenameConnection { old_name, input } => ScreenView::RenameConnection {
                old_name: old_name@,
                input: input@,
            },
            Screen::RenameQuery { connection, old_name, input } => ScreenView::RenameQuery {
                connection: connection@,
                old_name: old_name@,
                input: input@,
            },
            Screen::QueryView { connection, query, sql } => ScreenView::QueryView {
                connection: connection@,
                query: query@,
                sql: sql@,
            },
            Screen::Results { connection, query, result } => ScreenView::Results {
                connection: connection@,
                query: query@,
                result: result@,
            },
        }
    }
}

// ── Outside work ─────────────────────────────────────────────────────────────

/// A piece of outside work that the application asks for, or what it asks of
/// the caller once it needs no more.
#[derive(Debug)]
pub enum Effect {
    /// Show the screen and wait for the next key.
    Nothing,
    /// Leave the application.
    Quit,
    /// Stop with the error of the last piece of work.
    Abort,
    /// List the saved connections.
    ListConnections,
    /// List the saved queries of a connection.
    ListQueries { connection: String },
    /// Read the text of a saved query.
    LoadQuery { connection: String, query: String },
    /// Read the settings of a saved connection.
    LoadConnection { name: String },
    /// Connect with these settings and run a trivial query.
    TestConnection { config: ConnectionConfig },
    /// Save these settings as a connection.
    SaveConnection { config: ConnectionConfig },
    /// Delete a saved connection with its queries.
    DeleteConnection { name: String },
    /// Save a query with this text.
    SaveQuery { connection: String, query: String, sql: String },
    /// Delete a saved query.
    DeleteQuery { connection: String, query: String },
    /// Rename a saved connection.
    RenameConnection { old_name: String, new_name: String },
    /// Rename a saved query.
    RenameQuery { connection: String, old_name: String, new_name: String },
    /// Open the editor on a connection's settings file.
    EditConnection { name: String },
    /// Open the editor on a saved query's file.
    EditQuery { connection: String, query: String },
    /// Run this SQL with these settings.
    RunQuery { config: ConnectionConfig, sql: String },
}

/// An effect as mathematical values.
pub enum EffectView {
    Nothing,
    Quit,
    Abort,
    ListConnections,
    ListQueries { connection: Seq<char> },
    LoadQuery { connection: Seq<char>, query: Seq<char> },
    LoadConnection { name: Seq<char> },
    TestConnection { config: ConfigView },
    SaveConnection { config: ConfigView },
    DeleteConnection { name: Seq<char> },
    SaveQuery { connection: Seq<char>, query: Seq<char>, sql: Seq<char> },
    DeleteQuery { connection: Seq<char>, query: Seq<char> },
    RenameConnection { old_name: Seq<char>, new_name: Seq<char> },
    RenameQuery { connection: Seq<char>, old_name: Seq<char>, new_name: Seq<char> },
    EditConnection { name: Seq<char> },
    EditQuery { connection: Seq<char>, query: Seq<char> },
    RunQuery { config: ConfigView, sql: Seq<char> },
}

impl View for Effect {
    type V = EffectView;

    open spec fn view(&self) -> EffectView {
        match self {
            Effect::Nothing => EffectView::Nothing,
            Effect::Quit => EffectView::Quit,
            Effect::Abort => EffectView::Abort,
            Effect::ListConnections => EffectView::ListConnections,
            Effect::ListQueries { connection } => EffectView::ListQueries {
                connection: connection@,
            },
            Effect::LoadQuery { connection, query } => EffectView::LoadQuery {
                connection: connection@,
                query: query@,
            },
            Effect::LoadConnection { name } => EffectView::LoadConnection { name: name@ },
            Effect::TestConnection { config } => EffectView::TestConnection { config: config@ },
            Effect::SaveConnection { config } => EffectView::SaveConnection { config: config@ },
            Effect::DeleteConnection { name } => EffectView::DeleteConnection { name: name@ },
            Effect::SaveQuery { connection, query, sql } => EffectView::SaveQuery {
                connection: connection@,
                query: query@,
                sql: sql@,
            },
            Effect::DeleteQuery { connection, query } => EffectView::DeleteQuery {
                connection: connection@,
                query: query@,
            },
            Effect::RenameConnection { old_name, new_name } => EffectView::RenameConnection {
                old_name: old_name@,
                new_name: new_name@,
            },
            Effect::RenameQuery { connection, old_name, new_name } => EffectView::RenameQuery {
                connection: connection@,
                old_name: old_name@,
                new_name: new_name@,
            },
            Effect::EditConnection { name } => EffectView::EditConnection { name: name@ },
            Effect::EditQuery { connection, query } => EffectView::EditQuery {
                connection: connection@,
                query: query@,
            },
            Effect::RunQuery { config, sql } => EffectView::RunQuery {
                config: config@,
                sql: sql@,
            },
        }
    }
}

/// What came of a piece of outside work.
#[derive(Debug)]
pub enum Outcome {
    /// The work was done and gave nothing back.
    Done,
    /// The work failed, for the reason given.
    Failed(String),
    /// A list of names, as listing connections or queries gives.
    Names(Vec<String>),
    /// A text, as reading a query gives.
    Text(String),
    /// Connection settings, as reading them gives.
    Config(ConnectionConfig),
    /// The result of running a query.
    Rows(QueryResult),
}

/// An outcome as mathematical values.
pub enum OutcomeView {
    Done,
    Failed(Seq<char>),
    Names(Seq<Seq<char>>),
    Text(Seq<char>),
    Config(ConfigView),
    Rows(ResultView),
}

impl View for Outcome {
    type V = OutcomeView;

    open spec fn view(&self) -> OutcomeView {
        match self {
            Outcome::Done => OutcomeView::Done,
            Outcome::Failed(e) => OutcomeView::Failed(e@),
            Outcome::Names(v) => OutcomeView::Names(v.deep_view()),
            Outcome::Text(t) => OutcomeView::Text(t@),
            Outcome::Config(c) => OutcomeView::Config(c@),
            Outcome::Rows(r) => OutcomeView::Rows(r@),
        }
    }
}

impl OutcomeView {
    /// A result handed back can be paged.
    pub open spec fn well_formed(self) -> bool {
        self matches OutcomeView::Rows(r) ==> r.well_formed()
    }
}

// ── Work in progress ─────────────────────────────────────────────────────────

/// Which entry of a list to select once the list is known.
#[derive(Debug)]
pub enum Choice {
    /// The first.
    First,
    /// The first one with this name, else the first.
    Named(String),
    /// The one at this index, or the last one if the list is shorter.
    Near(usize),
}

/// A choice as mathematical values.
pub enum ChoiceView {
    First,
    Named(Seq<char>),
    Near(usize),
}

impl View for Choice {
    type V = ChoiceView;

    open spec fn view(&self) -> ChoiceView {
        match self {
            Choice::First => ChoiceView::First,
            Choice::Named(n) => ChoiceView::Named(n@),
            Choice::Near(i) => ChoiceView::Near(*i),
        }
    }
}

/// What the application waits for while outside work is done, with what it
/// needs to go on.
#[derive(Debug)]
#[allow(inconsistent_fields)]
pub enum Pending {
    /// At start: the settings of the connection named on the command line.
    Start { query: Option<String> },
    /// The saved connections, to show them.
    Connections { choose: Choice },
    /// The saved queries of `connection`, to show them; with `lenient`, a
    /// failure shows an empty list.
    Queries { connection: String, choose: Choice, lenient: bool },
    /// The text of the selected query, to show it beside the list.
    Preview { connection: String, queries: Vec<String>, selected: usize },
    /// The end of some work, then the saved connections.
    ThenConnections { choose: Choice },
    /// The end of some work, then the saved queries; with `tolerate`, also
    /// after a failure.
    ThenQueries { connection: String, choose: Choice, tolerate: bool },
    /// The end of editing a query, then its text again.
    ThenPreview { connection: String, queries: Vec<String>, selected: usize },
    /// The end of editing a connection's settings.
    EditedConnection { name: String, selected: usize },
    /// The edited settings, to test them.
    LoadedEditedConnection { name: String, selected: usize },
    /// The test of the edited settings.
    TestedEditedConnection { name: String, selected: usize },
    /// The test of the settings of the form, before saving them.
    TestNewConnection { form: ConnectionForm, status: Option<String>, config: ConnectionConfig },
    /// The text of a query, to show it; with `lenient`, a failure shows it
    /// with no text.
    OpenQuery { connection: String, query: String, lenient: bool },
    /// The end of editing a shown query, then its text again.
    ThenOpenQuery { connection: String, query: String },
    /// The settings to run the shown query with.
    RunQueryConfig { connection: String, query: String, sql: String },
    /// The result of the shown query.
    RunQueryResult { connection: String, query: String, sql: String },
    /// The empty new query has been saved.
    NewQuerySaved { connection: String, name: String },
    /// The new query has been edited.
    NewQueryEdited { connection: String, name: String },
    /// The text of the new query, to keep it only if it holds any.
    NewQueryLoaded { connection: String, name: String },
    /// The renaming of a connection.
    RenamingConnection { old_name: String, input: String, new_name: String },
    /// The renaming of a query.
    RenamingQuery { connection: String, old_name: String, input: String, new_name: String },
}

/// Work in progress as mathematical values.
#[allow(inconsistent_fields)]
pub enum PendingView {
    Start { query: Option<Seq<char>> },
    Connections { choose: ChoiceView },
    Queries { connection: Seq<char>, choose: ChoiceView, lenient: bool },
    Preview { connection: Seq<char>, queries: Seq<Seq<char>>, selected: usize },
    ThenConnections { choose: ChoiceView },
    ThenQueries { connection: Seq<char>, choose: ChoiceView, tolerate: bool },
    ThenPreview { connection: Seq<char>, queries: Seq<Seq<char>>, selected: usize },
    EditedConnection { name: Seq<char>, selected: usize },
    LoadedEditedConnection { name: Seq<char>, selected: usize },
    TestedEditedConnection { name: Seq<char>, selected: usize },
    TestNewConnection { form: FormView, status: Option<Seq<char>>, config: ConfigView },
    OpenQuery { connection: Seq<char>, query: Seq<char>, lenient: bool },
    ThenOpenQuery { connection: Seq<char>, query: Seq<char> },
    RunQueryConfig { connection: Seq<char>, query: Seq<char>, sql: Seq<char> },
    RunQueryResult { connection: Seq<char>, query: Seq<char>, sql: Seq<char> },
    NewQuerySaved { connection: Seq<char>, name: Seq<char> },
    NewQueryEdited { connection: Seq<char>, name: Seq<char> },
    NewQueryLoaded { connection: Seq<char>, name: Seq<char> },
    RenamingConnection { old_name: Seq<char>, input: Seq<char>, new_name: Seq<char> },
    RenamingQuery {
        connection: Seq<char>,
        old_name: Seq<char>,
        input: Seq<char>,
        new_name: Seq<char>,
    },
}

impl View for Pending {
    type V = PendingView;

    open spec fn view(&self) -> PendingView {
        match self {
            Pending::Start { query } => PendingView::Start { query: query.deep_view() },
            Pending::Connections { choose } => PendingView::Connections { choose: choose@ },
            Pending::Queries { connection, choose, lenient } => PendingView::Queries {
                connection: connection@,
                choose: choose@,
                lenient: *lenient,
            },
            Pending::Preview { connection, queries, selected } => PendingView::Preview {
                connection: connection@,
                queries: queries.deep_view(),
                selected: *selected,
            },
            Pending::ThenConnections { choose } => PendingView::ThenConnections {
                choose: choose@,
            },
            Pending::ThenQueries { connection, choose, tolerate } => PendingView::ThenQueries {
                connection: connection@,
                choose: choose@,
                tolerate: *tolerate,
            },
            Pending::ThenPreview { connection, queries, selected } => PendingView::ThenPreview {
                connection: connection@,
                queries: queries.deep_view(),
                selected: *selected,
            },
            Pending::EditedConnection { name, selected } => PendingView::EditedConnection {
                name: name@,
                selected: *selected,
            },
            Pending::LoadedEditedConnection { name, selected } =>
                PendingView::LoadedEditedConnection { name: name@, selected: *selected },
            Pending::TestedEditedConnection { name, selected } =>
                PendingView::TestedEditedConnection { name: name@, selected: *selected },
            Pending::TestNewConnection { form, status, config } => PendingView::TestNewConnection {
                form: form@,
                status: status.deep_view(),
                config: config@,
            },
            Pending::OpenQuery { connection, query, lenient } => PendingView::OpenQuery {
                connection: connection@,
                query: query@,
                lenient: *lenient,
            },
            Pending::ThenOpenQuery { connection, query } => PendingView::ThenOpenQuery {
                connection: connection@,
                query: query@,
            },
            Pending::RunQueryConfig { connection, query, sql } => PendingView::RunQueryConfig {
                connection: connection@,
                query: query@,
                sql: sql@,
            },
            Pending::RunQueryResult { connection, query, sql } => PendingView::RunQueryResult {
                connection: connection@,
                query: query@,
                sql: sql@,
            },
            Pending::NewQuerySaved { connection, name } => PendingView::NewQuerySaved {
                connection: connection@,
                name: name@,
            },
            Pending::NewQueryEdited { connection, name } => PendingView::NewQueryEdited {
                connection: connection@,
                name: name@,
            },
            Pending::NewQueryLoaded { connection, name } => PendingView::NewQueryLoaded {
                connection: connection@,
                name: name@,
            },
            Pending::RenamingConnection { old_name, input, new_name } =>
                PendingView::RenamingConnection {
                old_name: old_name@,
                input: input@,
                new_name: new_name@,
            },
            Pending::RenamingQuery { connection, old_name, input, new_name } =>
                PendingView::RenamingQuery {
                connection: connection@,
                old_name: old_name@,
                input: input@,
                new_name: new_name@,
            },
        }
    }
}

// ── The application ──────────────────────────────────────────────────────────

/// The application: the screen shown, the message in the status bar, and the
/// work it waits for.
#[derive(Debug)]
pub struct App {
    pub screen: Screen,
    pub status: Option<String>,
    pub pending: Option<Pending>,
}

/// The application as mathematical values.
pub struct AppView {
    pub screen: ScreenView,
    pub status: Option<Seq<char>>,
    pub pending: Option<PendingView>,
}

impl View for App {
    type V = AppView;

    open spec fn view(&self) -> AppView {
        AppView {
            screen: self.screen@,
            status: self.status.deep_view(),
            pending: match self.pending {
                Some(p) => Some(p@),
                None => None,
            },
        }
    }
}

} // verus!

verus! {

// ── Building blocks ──────────────────────────────────────────────────────────

/// `prefix`, then `middle`, then `suffix`.
fn message(prefix: &str, middle: &str, suffix: &str) -> (m: String)
    ensures
        m@ == prefix@ + middle@ + suffix@,
{
    let mut m = prefix.to_string();
    m.append(middle);
    m.append(suffix);
    m
}

/// `prefix`, then `text`.
fn prefixed(prefix: &str, text: &str) -> (m: String)
    ensures
        m@ == prefix@ + text@,
{
    let mut m = prefix.to_string();
    m.append(text);
    m
}

/// The index of the first `name` in `list`, or the length of `list`.
fn find_name_in(list: &Vec<String>, name: &String) -> (i: usize)
    ensures
        i == flow::find_name(list.deep_view(), name@),
{
    let mut i: usize = 0;
    assert(list.deep_view().skip(0) =~= list.deep_view());
    while i < list.len()
        invariant
            i <= list.len(),
            flow::find_name(list.deep_view(), name@) == i + flow::find_name(
                list.deep_view().skip(i as int),
                name@,
            ),
        decreases list.len() - i,
    {
        let ghost rest = list.deep_view().skip(i as int);
        assert(rest[0] == list[i as int]@);
        if list[i] == *name {
            return i;
        }
        assert(rest.drop_first() =~= list.deep_view().skip(i + 1));
        i = i + 1;
    }
    i
}

/// The index that `choose` selects in `list`.
fn choice_index_in(choose: &Choice, list: &Vec<String>) -> (i: usize)
    ensures
        i == flow::choice_index(choose@, list.deep_view()),
{
    match choose {
        Choice::First => 0,
        Choice::Named(n) => {
            let i = find_name_in(list, n);
            if i < list.len() {
                i
            } else {
                0
            }
        },
        Choice::Near(i) => {
            if list.len() == 0 {
                0
            } else if *i < list.len() - 1 {
                *i
            } else {
                list.len() - 1
            }
        },
    }
}

/// The screen shown while outside work is done.
fn waiting_screen() -> (s: Screen)
    ensures
        s@ == flow::waiting_screen(),
{
    let none: Vec<String> = Vec::new();
    let s = Screen::ConnectionList { connections: none, selected: 0 };
    assert(s@ == flow::waiting_screen()) by {
        assert(none.deep_view() =~= Seq::<Seq<char>>::empty());
    }
    s
}

/// Show `screen` and wait for the next key.
fn show(screen: Screen, status: Option<String>) -> (r: (App, Effect))
    ensures
        (r.0@, r.1@) == flow::show(screen@, status.deep_view()),
{
    (App { screen, status, pending: None }, Effect::Nothing)
}

/// Ask for `effect`, to go on as `pending` says.
fn request(pending: Pending, status: Option<String>, effect: Effect) -> (r: (App, Effect))
    ensures
        (r.0@, r.1@) == flow::request(pending@, status.deep_view(), effect@),
{
    (App { screen: waiting_screen(), status, pending: Some(pending) }, effect)
}

/// Stop with `effect`.
fn finish(status: Option<String>, effect: Effect) -> (r: (App, Effect))
    ensures
        (r.0@, r.1@) == flow::finish(status.deep_view(), effect@),
{
    (App { screen: waiting_screen(), status, pending: None }, effect)
}

/// Show the queries of `connection` with `selected` selected, reading the
/// selected query's text first if there is one.
fn enter_query_list(connection: String, queries: Vec<String>, selected: usize, status: Option<String>) -> (r: (
    App,
    Effect,
))
    ensures
        (r.0@, r.1@) == flow::enter_query_list(
            connection@,
            queries.deep_view(),
            selected,
            status.deep_view(),
        ),
{
    if selected < queries.len() {
        let query = queries[selected].clone();
        let c = connection.clone();
        request(
            Pending::Preview { connection: c, queries, selected },
            status,
            Effect::LoadQuery { connection, query },
        )
    } else {
        show(Screen::QueryList { connection, queries, selected, preview: String::new() }, status)
    }
}

/// The character that typing `c` adds to a name.
fn name_char(c: char) -> (d: char)
    ensures
        d == flow::name_char(c),
{
    if c == ' ' {
        '_'
    } else {
        c
    }
}

// ── Keys, screen by screen ───────────────────────────────────────────────────

fn on_connection_list(connections: Vec<String>, selected: usize, k: Key) -> (r: (App, Effect))
    requires
        flow::selection_fits(connections.len() as nat, selected),
    ensures
        (r.0@, r.1@) == flow::connection_list_key(connections.deep_view(), selected, k),
{
    let some = connections.len() > 0;
    match k {
        Key::Char('q') | Key::Esc => finish(None, Effect::Quit),
        Key::Up | Key::Char('k') => {
            let s = if selected > 0 {
                selected - 1
            } else {
                0
            };
            show(Screen::ConnectionList { connections, selected: s }, None)
        },
        Key::Down | Key::Char('j') => {
            if some && selected < connections.len() - 1 {
                show(Screen::ConnectionList { connections, selected: selected + 1 }, None)
            } else {
                show(Screen::ConnectionList { connections, selected }, None)
            }
        },
        Key::Enter => {
            if some {
                let name = connections[selected].clone();
                let c = name.clone();
                request(
                    Pending::Queries { connection: c, choose: Choice::First, lenient: false },
                    None,
                    Effect::ListQueries { connection: name },
                )
            } else {
                show(Screen::ConnectionList { connections, selected }, None)
            }
        },
        Key::Char('n') => show(
            Screen::CreateConnection { form: ConnectionForm::default(), status: None },
            None,
        ),
        Key::Char('d') => {
            if some {
                let name = connections[selected].clone();
                let m = message("Deleted '", name.as_str(), "'");
                request(
                    Pending::ThenConnections { choose: Choice::Near(selected) },
                    Some(m),
                    Effect::DeleteConnection { name },
                )
            } else {
                show(Screen::ConnectionList { connections, selected }, None)
            }
        },
        Key::Char('e') => {
            if some {
                let name = connections[selected].clone();
                let n = name.clone();
                request(
                    Pending::EditedConnection { name: n, selected },
                    None,
                    Effect::EditConnection { name },
                )
            } else {
                show(Screen::ConnectionList { connections, selected }, None)
            }
        },
        Key::Char('r') => {
            if some {
                let name = connections[selected].clone();
                show(Screen::RenameConnection { old_name: name, input: String::new() }, None)
            } else {
                show(Screen::ConnectionList { connections, selected }, None)
            }
        },
        _ => show(Screen::ConnectionList { connections, selected }, None),
    }
}

/// Test the settings that `form` holds, to save them once they connect; if
/// it holds none, say why.
fn test_form(form: ConnectionForm, status: Option<String>) -> (r: (App, Effect))
    ensures
        (r.0@, r.1@) == flow::test_form(form@, status.deep_view()),
{
    match form.to_config() {
        Ok(config) => {
            let c = config.duplicate();
            request(
                Pending::TestNewConnection { form, status, config: c },
                None,
                Effect::TestConnection { config },
            )
        },
        Err(e) => show(Screen::CreateConnection { form, status: Some(e) }, None),
    }
}

fn on_create_connection(form: ConnectionForm, status: Option<String>, k: Key) -> (r: (App, Effect))
    requires
        form@.active_field < 6,
    ensures
        (r.0@, r.1@) == flow::create_connection_key(form@, status.deep_view(), k),
{
    let mut form = form;
    if form.editing {
        match k {
            Key::Enter => {
                form.editing = false;
                if form.active_field == 5 {
                    return test_form(form, status);
                }
            },
            Key::Esc => {
                form.editing = false;
            },
            Key::Tab | Key::Down => {
                form.next_field();
            },
            Key::Up => {
                form.prev_field();
            },
            Key::Char(c) => {
                let c2 = if form.active_field == 0 && c == ' ' {
                    '_'
                } else {
                    c
                };
                form.push_to_active(c2);
            },
            Key::Backspace => {
                form.erase_from_active();
            },
            _ => {},
        }
        show(Screen::CreateConnection { form, status }, None)
    } else {
        match k {
            Key::Esc => request(
                Pending::Connections { choose: Choice::First },
                None,
                Effect::ListConnections,
            ),
            Key::Tab | Key::Down | Key::Char('j') => {
                form.next_field();
                show(Screen::CreateConnection { form, status }, None)
            },
            Key::Up | Key::Char('k') => {
                form.prev_field();
                show(Screen::CreateConnection { form, status }, None)
            },
            Key::Enter => {
                if form.active_field == 5 {
                    test_form(form, status)
                } else {
                    form.editing = true;
                    show(Screen::CreateConnection { form, status }, None)
                }
            },
            Key::Char('s') => test_form(form, status),
            _ => show(Screen::CreateConnection { form, status }, None),
        }
    }
}

fn on_query_list(
    connection: String,
    queries: Vec<String>,
    selected: usize,
    preview: String,
    k: Key,
) -> (r: (App, Effect))
    requires
        flow::selection_fits(queries.len() as nat, selected),
    ensures
        (r.0@, r.1@) == flow::query_list_key(
            connection@,
            queries.deep_view(),
            selected,
            preview@,
            k,
        ),
{
    let some = queries.len() > 0;
    match k {
        Key::Esc | Key::Left | Key::Char('h') => request(
            Pending::Connections { choose: Choice::First },
            None,
            Effect::ListConnections,
        ),
        Key::Up | Key::Char('k') => {
            let s = if selected > 0 {
                selected - 1
            } else {
                0
            };
            enter_query_list(connection, queries, s, None)
        },
        Key::Down | Key::Char('j') => {
            if some && selected < queries.len() - 1 {
                enter_query_list(connection, queries, selected + 1, None)
            } else {
                show(Screen::QueryList { connection, queries, selected, preview }, None)
            }
        },
        Key::Enter => {
            if some {
                let query = queries[selected].clone();
                let q = query.clone();
                let c = connection.clone();
                request(
                    Pending::OpenQuery { connection: c, query: q, lenient: false },
                    None,
                    Effect::LoadQuery { connection, query },
                )
            } else {
                show(Screen::QueryList { connection, queries, selected, preview }, None)
            }
        },
        Key::Char('r') => {
            if some {
                let query = queries[selected].clone();
                show(
                    Screen::RenameQuery { connection, old_name: query, input: String::new() },
                    None,
                )
            } else {
                show(Screen::QueryList { connection, queries, selected, preview }, None)
            }
        },
        Key::Char('e') => {
            if some {
                let query = queries[selected].clone();
                let c = connection.clone();
                request(
                    Pending::ThenPreview { connection: c, queries, selected },
                    None,
                    Effect::EditQuery { connection, query },
                )
            } else {
                show(Screen::QueryList { connection, queries, selected, preview }, None)
            }
        },
        Key::Char('n') => show(
            Screen::CreateQueryName { connection, input: String::new() },
            None,
        ),
        Key::Char('d') => {
            if some {
                let query = queries[selected].clone();
                let m = message("Deleted query '", query.as_str(), "'");
                let c = connection.clone();
                request(
                    Pending::ThenQueries { connection: c, choose: Choice::Near(selected), tolerate: false },
                    Some(m),
                    Effect::DeleteQuery { connection, query },
                )
            } else {
                show(Screen::QueryList { connection, queries, selected, preview }, None)
            }
        },
        _ => show(Screen::QueryList { connection, queries, selected, preview }, None),
    }
}

fn on_create_query_name(connection: String, input: String, k: Key) -> (r: (App, Effect))
    ensures
        (r.0@, r.1@) == flow::create_query_name_key(connection@, input@, k),
{
    let mut input = input;
    match k {
        Key::Esc => {
            let c = connection.clone();
            request(
                Pending::Queries { connection: c, choose: Choice::First, lenient: false },
                None,
                Effect::ListQueries { connection },
            )
        },
        Key::Enter => {
            if input.as_str().is_empty() {
                show(Screen::CreateQueryName { connection, input }, None)
            } else {
                let name = trimmed(input.as_str());
                let n = name.clone();
                let c = connection.clone();
                request(
                    Pending::NewQuerySaved { connection: c, name: n },
                    None,
                    Effect::SaveQuery { connection, query: name, sql: String::new() },
                )
            }
        },
        Key::Char(c) => {
            push_char(&mut input, name_char(c));
            show(Screen::CreateQueryName { connection, input }, None)
        },
        Key::Backspace => {
            erase_last(&mut input);
            show(Screen::CreateQueryName { connection, input }, None)
        },
        _ => show(Screen::CreateQueryName { connection, input }, None),
    }
}

fn on_rename_connection(old_name: String, input: String, k: Key) -> (r: (App, Effect))
    ensures
        (r.0@, r.1@) == flow::rename_connection_key(old_name@, input@, k),
{
    let mut input = input;
    match k {
        Key::Esc => request(
            Pending::Connections { choose: Choice::Named(old_name) },
            None,
            Effect::ListConnections,
        ),
        Key::Enter => {
            if input.as_str().is_empty() {
                show(Screen::RenameConnection { old_name, input }, None)
            } else {
                let new_name = trimmed(input.as_str());
                let n = new_name.clone();
                let o = old_name.clone();
                request(
                    Pending::RenamingConnection { old_name: o, input, new_name: n },
                    None,
                    Effect::RenameConnection { old_name, new_name },
                )
            }
        },
        Key::Char(c) => {
            push_char(&mut input, name_char(c));
            show(Screen::RenameConnection { old_name, input }, None)
        },
        Key::Backspace => {
            erase_last(&mut input);
            show(Screen::RenameConnection { old_name, input }, None)
        },
        _ => show(Screen::RenameConnection { old_name, input }, None),
    }
}

fn on_rename_query(connection: String, old_name: String, input: String, k: Key) -> (r: (App, Effect))
    ensures
        (r.0@, r.1@) == flow::rename_query_key(connection@, old_name@, input@, k),
{
    let mut input = input;
    match k {
        Key::Esc => {
            let c = connection.clone();
            request(
                Pending::Queries { connection: c, choose: Choice::Named(old_name), lenient: false },
                None,
                Effect::ListQueries { connection },
            )
        },
        Key::Enter => {
            if input.as_str().is_empty() {
                show(Screen::RenameQuery { connection, old_name, input }, None)
            } else {
                let new_name = trimmed(input.as_str());
                let n = new_name.clone();
                let o = old_name.clone();
                let c = connection.clone();
                request(
                    Pending::RenamingQuery { connection: c, old_name: o, input, new_name: n },
                    None,
                    Effect::RenameQuery { connection, old_name, new_name },
                )
            }
        },
        Key::Char(c) => {
            push_char(&mut input, name_char(c));
            show(Screen::RenameQuery { connection, old_name, input }, None)
        },
        Key::Backspace => {
            erase_last(&mut input);
            show(Screen::RenameQuery { connection, old_name, input }, None)
        },
        _ => show(Screen::RenameQuery { connection, old_name, input }, None),
    }
}

fn on_query_view(connection: String, query: String, sql: String, k: Key) -> (r: (App, Effect))
    ensures
        (r.0@, r.1@) == flow::query_view_key(connection@, query@, sql@, k),
{
    match k {
        Key::Enter => {
            let c = connection.clone();
            request(
                Pending::RunQueryConfig { connection: c, query, sql },
                None,
                Effect::LoadConnection { name: connection },
            )
        },
        Key::Char('e') => {
            let c = connection.clone();
            let q = query.clone();
            request(
                Pending::ThenOpenQuery { connection: c, query: q },
                None,
                Effect::EditQuery { connection, query },
            )
        },
        Key::Esc | Key::Char('q') => {
            let c = connection.clone();
            request(
                Pending::Queries { connection: c, choose: Choice::Named(query), lenient: false },
                None,
                Effect::ListQueries { connection },
            )
        },
        _ => show(Screen::QueryView { connection, query, sql }, None),
    }
}

fn on_results(connection: String, query: String, result: QueryResult, k: Key) -> (r: (App, Effect))
    requires
        result@.well_formed(),
    ensures
        (r.0@, r.1@) == flow::results_key(connection@, query@, result@, k),
{
    let mut result = result;
    proof {
        crate::models::lemma_paging_keeps_well_formed(result@);
    }
    match k {
        Key::Esc | Key::Char('q') => {
            let c = connection.clone();
            let q = query.clone();
            request(
                Pending::OpenQuery { connection: c, query: q, lenient: true },
                None,
                Effect::LoadQuery { connection, query },
            )
        },
        Key::Right | Key::Char('l') => {
            result.next_page();
            show(Screen::Results { connection, query, result }, None)
        },
        Key::Left | Key::Char('h') => {
            result.prev_page();
            show(Screen::Results { connection, query, result }, None)
        },
        Key::Down | Key::Char('j') => {
            result.select_next_row();
            show(Screen::Results { connection, query, result }, None)
        },
        Key::Up | Key::Char('k') => {
            result.select_prev_row();
            show(Screen::Results { connection, query, result }, None)
        },
        _ => show(Screen::Results { connection, query, result }, None),
    }
}

} // verus!

verus! {

/// The text of an optional name.
pub open spec fn optional_text(o: Option<&str>) -> Option<Seq<char>> {
    match o {
        Some(s) => Some(s@),
        None => None,
    }
}

/// How the application goes on once the work that `pending` waits for came
/// back as `outcome`.
fn on_outcome(pending: Pending, outcome: Outcome, status: Option<String>) -> (r: (App, Effect))
    requires
        pending@.well_formed(),
    ensures
        (r.0@, r.1@) == flow::pending_step(pending@, outcome@, status.deep_view()),
{
    match pending {
        Pending::Start { query } => match outcome {
            Outcome::Config(c) => {
                let choose = match query {
                    Some(q) => Choice::Named(q),
                    None => Choice::First,
                };
                let name = c.name;
                let n = name.clone();
                request(
                    Pending::Queries { connection: n, choose, lenient: false },
                    status,
                    Effect::ListQueries { connection: name },
                )
            },
            _ => request(
                Pending::Connections { choose: Choice::First },
                status,
                Effect::ListConnections,
            ),
        },
        Pending::Connections { choose } => match outcome {
            Outcome::Names(v) => {
                let selected = choice_index_in(&choose, &v);
                show(Screen::ConnectionList { connections: v, selected }, status)
            },
            _ => finish(status, Effect::Abort),
        },
        Pending::Queries { connection, choose, lenient } => match outcome {
            Outcome::Names(v) => {
                let selected = choice_index_in(&choose, &v);
                enter_query_list(connection, v, selected, status)
            },
            _ => {
                if lenient {
                    let none: Vec<String> = Vec::new();
                    proof {
                        assert(none.deep_view() =~= Seq::<Seq<char>>::empty());
                    }
                    enter_query_list(connection, none, 0, status)
                } else {
                    finish(status, Effect::Abort)
                }
            },
        },
        Pending::Preview { connection, queries, selected } => {
            let preview = match outcome {
                Outcome::Text(t) => t,
                _ => String::new(),
            };
            show(Screen::QueryList { connection, queries, selected, preview }, status)
        },
        Pending::ThenConnections { choose } => match outcome {
            Outcome::Done => request(
                Pending::Connections { choose },
                status,
                Effect::ListConnections,
            ),
            _ => finish(status, Effect::Abort),
        },
        Pending::ThenQueries { connection, choose, tolerate } => {
            let done = match outcome {
                Outcome::Done => true,
                _ => false,
            };
            if done || tolerate {
                let c = connection.clone();
                request(
                    Pending::Queries { connection: c, choose, lenient: false },
                    status,
                    Effect::ListQueries { connection },
                )
            } else {
                finish(status, Effect::Abort)
            }
        },
        Pending::ThenPreview { connection, queries, selected } => match outcome {
            Outcome::Done => enter_query_list(connection, queries, selected, status),
            _ => finish(status, Effect::Abort),
        },
        Pending::EditedConnection { name, selected } => match outcome {
            Outcome::Done => {
                let n = name.clone();
                request(
                    Pending::LoadedEditedConnection { name: n, selected },
                    status,
                    Effect::LoadConnection { name },
                )
            },
            _ => finish(status, Effect::Abort),
        },
        Pending::LoadedEditedConnection { name, selected } => match outcome {
            Outcome::Config(c) => request(
                Pending::TestedEditedConnection { name, selected },
                status,
                Effect::TestConnection { config: c },
            ),
            Outcome::Failed(e) => request(
                Pending::Connections { choose: Choice::Near(selected) },
                Some(prefixed("Error parsing config: ", e.as_str())),
                Effect::ListConnections,
            ),
            _ => finish(status, Effect::Abort),
        },
        Pending::TestedEditedConnection { name, selected } => match outcome {
            Outcome::Done => request(
                Pending::Connections { choose: Choice::Near(selected) },
                Some(message("'", name.as_str(), "' saved, connection OK")),
                Effect::ListConnections,
            ),
            Outcome::Failed(e) => request(
                Pending::Connections { choose: Choice::Near(selected) },
                Some(prefixed("Saved but connection failed: ", e.as_str())),
                Effect::ListConnections,
            ),
            _ => finish(status, Effect::Abort),
        },
        Pending::TestNewConnection { form, status: form_status, config } => match outcome {
            Outcome::Done => {
                let m = message("'", config.name.as_str(), "' created, connection OK");
                request(
                    Pending::ThenConnections { choose: Choice::First },
                    Some(m),
                    Effect::SaveConnection { config },
                )
            },
            Outcome::Failed(e) => show(
                Screen::CreateConnection {
                    form,
                    status: Some(prefixed("Connection failed: ", e.as_str())),
                },
                status,
            ),
            _ => finish(status, Effect::Abort),
        },
        Pending::OpenQuery { connection, query, lenient } => match outcome {
            Outcome::Text(sql) => show(Screen::QueryView { connection, query, sql }, status),
            _ => {
                if lenient {
                    show(Screen::QueryView { connection, query, sql: String::new() }, status)
                } else {
                    finish(status, Effect::Abort)
                }
            },
        },
        Pending::ThenOpenQuery { connection, query } => match outcome {
            Outcome::Done => {
                let c = connection.clone();
                let q = query.clone();
                request(
                    Pending::OpenQuery { connection: c, query: q, lenient: false },
                    status,
                    Effect::LoadQuery { connection, query },
                )
            },
            _ => finish(status, Effect::Abort),
        },
        Pending::RunQueryConfig { connection, query, sql } => match outcome {
            Outcome::Config(c) => {
                let s = sql.clone();
                request(
                    Pending::RunQueryResult { connection, query, sql: s },
                    status,
                    Effect::RunQuery { config: c, sql },
                )
            },
            Outcome::Failed(e) => show(
                Screen::QueryView { connection, query, sql },
                Some(prefixed("Cannot load connection: ", e.as_str())),
            ),
            _ => finish(status, Effect::Abort),
        },
        Pending::RunQueryResult { connection, query, sql } => match outcome {
            Outcome::Rows(r) => show(Screen::Results { connection, query, result: r }, status),
            Outcome::Failed(e) => show(
                Screen::QueryView { connection, query, sql },
                Some(prefixed("Error: ", e.as_str())),
            ),
            _ => finish(status, Effect::Abort),
        },
        Pending::NewQuerySaved { connection, name } => match outcome {
            Outcome::Done => {
                let c = connection.clone();
                let n = name.clone();
                request(
                    Pending::NewQueryEdited { connection: c, name: n },
                    status,
                    Effect::EditQuery { connection, query: name },
                )
            },
            _ => finish(status, Effect::Abort),
        },
        Pending::NewQueryEdited { connection, name } => match outcome {
            Outcome::Done => {
                let c = connection.clone();
                let n = name.clone();
                request(
                    Pending::NewQueryLoaded { connection: c, name: n },
                    status,
                    Effect::LoadQuery { connection, query: name },
                )
            },
            _ => finish(status, Effect::Abort),
        },
        Pending::NewQueryLoaded { connection, name } => {
            let text = match outcome {
                Outcome::Text(t) => t,
                _ => String::new(),
            };
            let c = connection.clone();
            if is_blank(text.as_str()) {
                let n = name.clone();
                request(
                    Pending::ThenQueries { connection: c, choose: Choice::Named(n), tolerate: true },
                    status,
                    Effect::DeleteQuery { connection, query: name },
                )
            } else {
                request(
                    Pending::Queries { connection: c, choose: Choice::Named(name), lenient: false },
                    status,
                    Effect::ListQueries { connection },
                )
            }
        },
        Pending::RenamingConnection { old_name, input, new_name } => match outcome {
            Outcome::Done => {
                let m = message("Renamed '", old_name.as_str(), "' → '");
                let m2 = message(m.as_str(), new_name.as_str(), "'");
                proof {
                    assert(m2@ =~= flow::renamed_message(old_name@, new_name@));
                }
                request(
                    Pending::Connections { choose: Choice::Named(new_name) },
                    Some(m2),
                    Effect::ListConnections,
                )
            },
            Outcome::Failed(e) => show(
                Screen::RenameConnection { old_name, input },
                Some(prefixed("Rename failed: ", e.as_str())),
            ),
            _ => finish(status, Effect::Abort),
        },
        Pending::RenamingQuery { connection, old_name, input, new_name } => match outcome {
            Outcome::Done => {
                let m = message("Renamed '", old_name.as_str(), "' → '");
                let m2 = message(m.as_str(), new_name.as_str(), "'");
                proof {
                    assert(m2@ =~= flow::renamed_message(old_name@, new_name@));
                }
                let c = connection.clone();
                request(
                    Pending::Queries { connection: c, choose: Choice::Named(new_name), lenient: false },
                    Some(m2),
                    Effect::ListQueries { connection },
                )
            },
            Outcome::Failed(e) => show(
                Screen::RenameQuery { connection, old_name, input },
                Some(prefixed("Rename failed: ", e.as_str())),
            ),
            _ => finish(status, Effect::Abort),
        },
    }
}

impl App {
    /// The application at start, and the first work it asks for: with a
    /// connection named, its settings are read (to open its queries, with
    /// `query` selected if it is one of them); otherwise, or if they cannot be
    /// read, the saved connections are listed.
    pub fn new(connection: Option<&str>, query: Option<&str>) -> (r: (App, Effect))
        ensures
            (r.0@, r.1@) == flow::start_step(optional_text(connection), optional_text(query)),
            r.0@.well_formed(),
    {
        let q = match query {
            Some(q) => Some(q.to_string()),
            None => None,
        };
        let r = match connection {
            Some(c) => request(
                Pending::Start { query: q },
                None,
                Effect::LoadConnection { name: c.to_string() },
            ),
            None => request(
                Pending::Connections { choose: Choice::First },
                None,
                Effect::ListConnections,
            ),
        };
        proof {
            flow::lemma_start_well_formed(optional_text(connection), optional_text(query));
        }
        r
    }

    /// Answers the key `key`: Ctrl+Q quits from anywhere; any other key clears
    /// the status message and acts as the screen shown says. Returns the work
    /// asked for, or what the caller is to do next.
    pub fn handle_key(&mut self, key: KeyInput) -> (e: Effect)
        requires
            old(self)@.well_formed(),
        ensures
            (final(self)@, e@) == flow::key_step(old(self)@, key),
            final(self)@.well_formed(),
    {
        proof {
            flow::lemma_key_step_well_formed(self@, key);
        }
        if key.control && key.code == Key::Char('q') {
            self.status = None;
            self.pending = None;
            return Effect::Quit;
        }
        let mut screen = waiting_screen();
        std::mem::swap(&mut screen, &mut self.screen);
        let (next, effect) = match screen {
            Screen::ConnectionList { connections, selected } => on_connection_list(
                connections,
                selected,
                key.code,
            ),
            Screen::CreateConnection { form, status } => on_create_connection(form, status, key.code),
            Screen::QueryList { connection, queries, selected, preview } => on_query_list(
                connection,
                queries,
                selected,
                preview,
                key.code,
            ),
            Screen::CreateQueryName { connection, input } => on_create_query_name(
                connection,
                input,
                key.code,
            ),
            Screen::RenameConnection { old_name, input } => on_rename_connection(
                old_name,
                input,
                key.code,
            ),
            Screen::RenameQuery { connection, old_name, input } => on_rename_query(
                connection,
                old_name,
                input,
                key.code,
            ),
            Screen::QueryView { connection, query, sql } => on_query_view(
                connection,
                query,
                sql,
                key.code,
            ),
            Screen::Results { connection, query, result } => on_results(
                connection,
                query,
                result,
                key.code,
            ),
        };
        *self = next;
        effect
    }

    /// Goes on with the work in progress now that it came back as `outcome`;
    /// returns the next work asked for, or what the caller is to do next. With
    /// no work in progress, nothing changes.
    pub fn resume(&mut self, outcome: Outcome) -> (e: Effect)
        requires
            old(self)@.well_formed(),
            outcome@.well_formed(),
        ensures
            (final(self)@, e@) == flow::resume_step(old(self)@, outcome@),
            final(self)@.well_formed(),
    {
        proof {
            flow::lemma_resume_step_well_formed(self@, outcome@);
        }
        let mut pending: Option<Pending> = None;
        std::mem::swap(&mut pending, &mut self.pending);
        match pending {
            None => Effect::Nothing,
            Some(p) => {
                let mut status: Option<String> = None;
                std::mem::swap(&mut status, &mut self.status);
                let (next, effect) = on_outcome(p, outcome, status);
                *self = next;
                effect
            },
        }
    }

    /// Whether the application is well-formed: its selections fit their
    /// lists, the form's focus is on a field, and a result's page exists.
    pub fn is_well_formed(&self) -> (b: bool)
        ensures
            b == self@.well_formed(),
    {
        let screen_ok = match &self.screen {
            Screen::ConnectionList { connections, selected } => *selected == 0 || *selected
                < connections.len(),
            Screen::CreateConnection { form, .. } => form.active_field < 6,
            Screen::QueryList { queries, selected, .. } => *selected == 0 || *selected
                < queries.len(),
            Screen::Results { result, .. } => result.is_well_formed(),
            _ => true,
        };
        let pending_ok = match &self.pending {
            Some(Pending::Preview { queries, selected, .. }) => *selected < queries.len(),
            Some(Pending::ThenPreview { queries, selected, .. }) => *selected == 0 || *selected
                < queries.len(),
            Some(Pending::TestNewConnection { form, .. }) => form.active_field < 6,
            _ => true,
        };
        screen_ok && pending_ok
    }
}

} // verus!
