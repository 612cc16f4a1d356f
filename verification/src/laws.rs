//! What each key and each piece of finished work leads to, stated directly
//! over the entries, names and texts involved: which entry a key acts on,
//! which names the work asked for carries, and what the status bar says.
use vstd::prelude::*;

use crate::app::{AppView, ChoiceView, EffectView, Key, KeyInput, OutcomeView, PendingView, ScreenView};
use crate::db;
use crate::flow;
use crate::models::ConfigView;
use crate::text;

verus! {

// ── Statements ───────────────────────────────────────────────────────────────

/// A statement returns rows when, once trimmed, it begins with one of the
/// keywords `SELECT`, `WITH`, `TABLE`, `VALUES`, `SHOW` or `EXPLAIN`, in any
/// case of ASCII letters and whatever follows the keyword (a space, a line
/// break, a parenthesis or nothing).
pub proof fn lemma_keywords_return_rows(sql: Seq<char>)
    ensures
        text::starts_with_keyword(text::trim(sql), "SELECT"@) ==> db::returns_rows(sql),
        text::starts_with_keyword(text::trim(sql), "WITH"@) ==> db::returns_rows(sql),
        text::starts_with_keyword(text::trim(sql), "TABLE"@) ==> db::returns_rows(sql),
        text::starts_with_keyword(text::trim(sql), "VALUES"@) ==> db::returns_rows(sql),
        text::starts_with_keyword(text::trim(sql), "SHOW"@) ==> db::returns_rows(sql),
        text::starts_with_keyword(text::trim(sql), "EXPLAIN"@) ==> db::returns_rows(sql),
{
}

/// A statement that begins with none of those keywords is run for the count
/// of rows it changes.
pub proof fn lemma_other_statements_count_rows(sql: Seq<char>)
    requires
        !text::starts_with_keyword(text::trim(sql), "SELECT"@),
        !text::starts_with_keyword(text::trim(sql), "WITH"@),
        !text::starts_with_keyword(text::trim(sql), "TABLE"@),
        !text::starts_with_keyword(text::trim(sql), "VALUES"@),
        !text::starts_with_keyword(text::trim(sql), "SHOW"@),
        !text::starts_with_keyword(text::trim(sql), "EXPLAIN"@),
    ensures
        !db::returns_rows(sql),
{
}

// ── The list of connections ──────────────────────────────────────────────────

/// Enter on a list of connections opens the selected connection: its queries
/// are listed and then shown as the queries of that same connection, the
/// first one selected and its text read.
pub proof fn lemma_enter_opens_selected_connection(a: AppView, control: bool, v: Seq<Seq<char>>)
    requires
        a.screen matches ScreenView::ConnectionList { connections, selected } && selected
            < connections.len(),
    ensures
        ({
            let name = a.screen->ConnectionList_connections[a.screen->ConnectionList_selected as int];
            let (b, e) = flow::key_step(a, KeyInput { code: Key::Enter, control });
            let (d, listed) = flow::resume_step(b, OutcomeView::Names(v));
            &&& e == EffectView::ListQueries { connection: name }
            &&& b.pending == Some(
                PendingView::Queries { connection: name, choose: ChoiceView::First, lenient: false },
            )
            &&& v.len() > 0 ==> listed == EffectView::LoadQuery { connection: name, query: v[0] }
                && d.pending == Some(
                PendingView::Preview { connection: name, queries: v, selected: 0 },
            )
            &&& v.len() == 0 ==> listed is Nothing && d.screen == ScreenView::QueryList {
                connection: name,
                queries: v,
                selected: 0,
                preview: Seq::empty(),
            }
        }),
{
}

/// `d` on a list of connections deletes the selected connection and says so;
/// the list is then read again with the selection kept at the same place, or
/// on the last entry if the list got shorter than that.
pub proof fn lemma_delete_selected_connection(a: AppView, control: bool, v: Seq<Seq<char>>)
    requires
        a.screen matches ScreenView::ConnectionList { connections, selected } && selected
            < connections.len(),
    ensures
        ({
            let i = a.screen->ConnectionList_selected;
            let name = a.screen->ConnectionList_connections[i as int];
            let (b, e) = flow::key_step(a, KeyInput { code: Key::Char('d'), control });
            let (d, listed) = flow::resume_step(b, OutcomeView::Done);
            let (g, _) = flow::resume_step(d, OutcomeView::Names(v));
            &&& e == EffectView::DeleteConnection { name } && b.status == Some(
                "Deleted '"@ + name + "'"@,
            )
            &&& listed == EffectView::ListConnections
            &&& g.screen == ScreenView::ConnectionList {
                connections: v,
                selected: if v.len() == 0 {
                    0
                } else if i < v.len() {
                    i
                } else {
                    (v.len() - 1) as usize
                },
            }
        }),
{
}

/// `e` on a list of connections opens the editor on the selected
/// connection's settings, then reads them back and tests them, and lists the
/// connections again with the outcome of the test in the status bar.
pub proof fn lemma_edit_selected_connection(a: AppView, c: ConfigView, err: Seq<char>)
    requires
        a.screen matches ScreenView::ConnectionList { connections, selected } && selected
            < connections.len(),
    ensures
        ({
            let name = a.screen->ConnectionList_connections[a.screen->ConnectionList_selected as int];
            let (b, e) = flow::key_step(a, KeyInput { code: Key::Char('e'), control: false });
            let (d, load) = flow::resume_step(b, OutcomeView::Done);
            let (g, test) = flow::resume_step(d, OutcomeView::Config(c));
            let (ok, ok_effect) = flow::resume_step(g, OutcomeView::Done);
            let (failed, failed_effect) = flow::resume_step(g, OutcomeView::Failed(err));
            &&& e == EffectView::EditConnection { name }
            &&& load == EffectView::LoadConnection { name }
            &&& test == EffectView::TestConnection { config: c }
            &&& ok_effect == EffectView::ListConnections
            &&& ok.status == Some("'"@ + name + "' saved, connection OK"@)
            &&& failed_effect == EffectView::ListConnections
            &&& failed.status == Some("Saved but connection failed: "@ + err)
        }),
{
}

/// `r` on a list of connections asks for a new name for the selected
/// connection, starting from an empty input.
pub proof fn lemma_rename_selected_connection(a: AppView)
    requires
        a.screen matches ScreenView::ConnectionList { connections, selected } && selected
            < connections.len(),
    ensures
        ({
            let name = a.screen->ConnectionList_connections[a.screen->ConnectionList_selected as int];
            let (b, e) = flow::key_step(a, KeyInput { code: Key::Char('r'), control: false });
            &&& e is Nothing
            &&& b.screen == ScreenView::RenameConnection { old_name: name, input: Seq::empty() }
        }),
{
}

// ── Renaming ─────────────────────────────────────────────────────────────────

/// Enter where a connection's new name is typed renames that connection, the
/// one whose name the screen holds, to the trimmed input. Once done, the
/// connections are listed with the new name selected and the status bar says
/// what was renamed to what; a failure keeps the screen and shows why. With
/// nothing typed, Enter does nothing.
pub proof fn lemma_rename_connection_enter(a: AppView, control: bool, err: Seq<char>)
    requires
        a.screen is RenameConnection,
    ensures
        ({
            let (old_name, input) = (
                a.screen->RenameConnection_old_name,
                a.screen->RenameConnection_input,
            );
            let (b, e) = flow::key_step(a, KeyInput { code: Key::Enter, control });
            let (d, listed) = flow::resume_step(b, OutcomeView::Done);
            let (g, _) = flow::resume_step(b, OutcomeView::Failed(err));
            &&& input.len() > 0 ==> e == EffectView::RenameConnection {
                old_name,
                new_name: text::trim(input),
            }
            &&& input.len() > 0 ==> listed == EffectView::ListConnections && d.pending == Some(
                PendingView::Connections { choose: ChoiceView::Named(text::trim(input)) },
            ) && d.status == Some("Renamed '"@ + old_name + "' → '"@ + text::trim(input) + "'"@)
            &&& input.len() > 0 ==> g.screen == a.screen && g.status == Some(
                "Rename failed: "@ + err,
            )
            &&& input.len() == 0 ==> e is Nothing && b.screen == a.screen
        }),
{
}

/// Enter where a query's new name is typed renames that query of that
/// connection to the trimmed input. Once done, the queries of the connection
/// are listed with the new name selected and the status bar says what was
/// renamed to what; a failure keeps the screen and shows why.
pub proof fn lemma_rename_query_enter(a: AppView, control: bool, err: Seq<char>)
    requires
        a.screen is RenameQuery,
    ensures
        ({
            let (connection, old_name, input) = (
                a.screen->RenameQuery_connection,
                a.screen->RenameQuery_old_name,
                a.screen->RenameQuery_input,
            );
            let (b, e) = flow::key_step(a, KeyInput { code: Key::Enter, control });
            let (d, listed) = flow::resume_step(b, OutcomeView::Done);
            let (g, _) = flow::resume_step(b, OutcomeView::Failed(err));
            &&& input.len() > 0 ==> e == EffectView::RenameQuery {
                connection,
                old_name,
                new_name: text::trim(input),
            }
            &&& input.len() > 0 ==> listed == EffectView::ListQueries { connection } && d.pending
                == Some(
                PendingView::Queries {
                    connection,
                    choose: ChoiceView::Named(text::trim(input)),
                    lenient: false,
                },
            ) && d.status == Some("Renamed '"@ + old_name + "' → '"@ + text::trim(input) + "'"@)
            &&& input.len() > 0 ==> g.screen == a.screen && g.status == Some(
                "Rename failed: "@ + err,
            )
            &&& input.len() == 0 ==> e is Nothing && b.screen == a.screen
        }),
{
}

// ── The list of queries ──────────────────────────────────────────────────────

/// `d` on a list of queries deletes the selected query of that connection and
/// says so; its queries are then listed again with the selection kept at the
/// same place, or on the last entry if the list got shorter than that.
pub proof fn lemma_delete_selected_query(a: AppView, v: Seq<Seq<char>>)
    requires
        a.screen matches ScreenView::QueryList { queries, selected, .. } && selected
            < queries.len(),
    ensures
        ({
            let connection = a.screen->QueryList_connection;
            let i = a.screen->QueryList_selected;
            let query = a.screen->QueryList_queries[i as int];
            let (b, e) = flow::key_step(a, KeyInput { code: Key::Char('d'), control: false });
            let (d, listed) = flow::resume_step(b, OutcomeView::Done);
            let (g, _) = flow::resume_step(d, OutcomeView::Names(v));
            let near = if v.len() == 0 {
                0
            } else if i < v.len() {
                i
            } else {
                (v.len() - 1) as usize
            };
            &&& e == EffectView::DeleteQuery { connection, query }
            &&& b.status == Some("Deleted query '"@ + query + "'"@)
            &&& listed == EffectView::ListQueries { connection }
            &&& v.len() > 0 ==> g.pending == Some(
                PendingView::Preview { connection, queries: v, selected: near },
            )
            &&& v.len() == 0 ==> g.screen == ScreenView::QueryList {
                connection,
                queries: v,
                selected: 0,
                preview: Seq::empty(),
            }
        }),
{
}

/// `e` on a list of queries opens the editor on the selected query of that
/// connection, and then reads the text of that same query again.
pub proof fn lemma_edit_selected_query(a: AppView)
    requires
        a.screen matches ScreenView::QueryList { queries, selected, .. } && selected
            < queries.len(),
    ensures
        ({
            let connection = a.screen->QueryList_connection;
            let query = a.screen->QueryList_queries[a.screen->QueryList_selected as int];
            let (b, e) = flow::key_step(a, KeyInput { code: Key::Char('e'), control: false });
            let (_, reread) = flow::resume_step(b, OutcomeView::Done);
            &&& e == EffectView::EditQuery { connection, query }
            &&& reread == EffectView::LoadQuery { connection, query }
        }),
{
}

/// `r` on a list of queries asks for a new name for the selected query of
/// that connection, starting from an empty input.
pub proof fn lemma_rename_selected_query(a: AppView)
    requires
        a.screen matches ScreenView::QueryList { queries, selected, .. } && selected
            < queries.len(),
    ensures
        ({
            let connection = a.screen->QueryList_connection;
            let query = a.screen->QueryList_queries[a.screen->QueryList_selected as int];
            let (b, e) = flow::key_step(a, KeyInput { code: Key::Char('r'), control: false });
            &&& e is Nothing
            &&& b.screen == ScreenView::RenameQuery {
                connection,
                old_name: query,
                input: Seq::empty(),
            }
        }),
{
}

// ── New queries ──────────────────────────────────────────────────────────────

/// Enter where a new query's name is typed saves an empty query of that
/// connection under the trimmed name, opens the editor on it, and then reads
/// its text back.
pub proof fn lemma_new_query_is_saved_and_edited(a: AppView, control: bool)
    requires
        a.screen matches ScreenView::CreateQueryName { input, .. } && input.len() > 0,
    ensures
        ({
            let connection = a.screen->CreateQueryName_connection;
            let name = text::trim(a.screen->CreateQueryName_input);
            let (b, e) = flow::key_step(a, KeyInput { code: Key::Enter, control });
            let (d, edit) = flow::resume_step(b, OutcomeView::Done);
            let (g, load) = flow::resume_step(d, OutcomeView::Done);
            &&& e == EffectView::SaveQuery { connection, query: name, sql: Seq::empty() }
            &&& edit == EffectView::EditQuery { connection, query: name }
            &&& load == EffectView::LoadQuery { connection, query: name }
            &&& g.pending == Some(PendingView::NewQueryLoaded { connection, name })
        }),
{
}

/// Once a new query's text is read back, the query is deleted exactly when
/// the text is blank. Otherwise it is kept: the queries of its connection are
/// listed, and when the list holds the new query, it is the one selected and
/// whose text is read.
pub proof fn lemma_new_query_kept_unless_blank(a: AppView, o: OutcomeView, v: Seq<Seq<char>>)
    requires
        a.pending is Some,
        a.pending->0 is NewQueryLoaded,
    ensures
        ({
            let connection = a.pending->0->NewQueryLoaded_connection;
            let name = a.pending->0->NewQueryLoaded_name;
            let text = match o {
                OutcomeView::Text(t) => t,
                _ => Seq::empty(),
            };
            let (b, e) = flow::resume_step(a, o);
            &&& (e == EffectView::DeleteQuery { connection, query: name }) <==> text::trim(text).len()
                == 0
            &&& text::trim(text).len() > 0 ==> e == EffectView::ListQueries { connection }
                && b.pending == Some(
                PendingView::Queries { connection, choose: ChoiceView::Named(name), lenient: false },
            )
            &&& text::trim(text).len() > 0 && v.contains(name) && v.len() <= usize::MAX ==> ({
                let (d, read) = flow::resume_step(b, OutcomeView::Names(v));
                &&& read == EffectView::LoadQuery { connection, query: name }
                &&& d.pending matches Some(PendingView::Preview { queries, selected, .. })
                    && queries == v && selected < v.len() && v[selected as int] == name
            })
        }),
{
    let text = match o {
        OutcomeView::Text(t) => t,
        _ => Seq::empty(),
    };
    if text::trim(text).len() > 0 && v.contains(a.pending->0->NewQueryLoaded_name) && v.len()
        <= usize::MAX {
        flow::lemma_named_choice_selects(v, a.pending->0->NewQueryLoaded_name);
    }
}

// ── Start ────────────────────────────────────────────────────────────────────

/// With a connection named on the command line, its settings are read first;
/// once read, the queries of the connection they name are listed, selecting
/// the query named on the command line if one was. If they cannot be read,
/// or with no connection named, the saved connections are listed.
pub proof fn lemma_start_opens_named_connection(
    connection: Option<Seq<char>>,
    query: Option<Seq<char>>,
    c: ConfigView,
    err: Seq<char>,
)
    ensures
        ({
            let (a, e) = flow::start_step(connection, query);
            let (b, listed) = flow::resume_step(a, OutcomeView::Config(c));
            let (_, fallback) = flow::resume_step(a, OutcomeView::Failed(err));
            match connection {
                Some(name) => {
                    &&& e == EffectView::LoadConnection { name }
                    &&& listed == EffectView::ListQueries { connection: c.name }
                    &&& b.pending == Some(
                        PendingView::Queries {
                            connection: c.name,
                            choose: match query {
                                Some(q) => ChoiceView::Named(q),
                                None => ChoiceView::First,
                            },
                            lenient: false,
                        },
                    )
                    &&& fallback == EffectView::ListConnections
                },
                None => e == EffectView::ListConnections,
            }
        }),
{
}

// ── Text ─────────────────────────────────────────────────────────────────────

/// Where the text left by `trim_start` begins.
proof fn trim_start_index(s: Seq<char>) -> (i: int)
    ensures
        0 <= i <= s.len(),
        text::trim_start(s) == s.subrange(i, s.len() as int),
        forall|k: int| 0 <= k < i ==> text::is_white_space(#[trigger] s[k]),
        i < s.len() ==> !text::is_white_space(s[i]),
    decreases s.len(),
{
    if s.len() > 0 && text::is_white_space(s[0]) {
        let j = trim_start_index(s.drop_first());
        assert(s.drop_first().subrange(j, s.len() - 1) =~= s.subrange(j + 1, s.len() as int));
        assert forall|k: int| 0 <= k < j + 1 implies text::is_white_space(#[trigger] s[k]) by {
            if k > 0 {
                assert(s[k] == s.drop_first()[k - 1]);
            }
        }
        j + 1
    } else {
        assert(s.subrange(0, s.len() as int) =~= s);
        0
    }
}

/// Where the text left by `trim_end` ends.
proof fn trim_end_index(s: Seq<char>) -> (j: int)
    ensures
        0 <= j <= s.len(),
        text::trim_end(s) == s.subrange(0, j),
        forall|k: int| j <= k < s.len() ==> text::is_white_space(#[trigger] s[k]),
        j > 0 ==> !text::is_white_space(s[j - 1]),
    decreases s.len(),
{
    if s.len() > 0 && text::is_white_space(s.last()) {
        let j = trim_end_index(s.drop_last());
        assert(s.drop_last().subrange(0, j) =~= s.subrange(0, j));
        assert forall|k: int| j <= k < s.len() implies text::is_white_space(#[trigger] s[k]) by {
            if k < s.len() - 1 {
                assert(s[k] == s.drop_last()[k]);
            }
        }
        j
    } else {
        assert(s.subrange(0, s.len() as int) =~= s);
        s.len() as int
    }
}

/// Trimming removes exactly the whitespace at both ends: what is left is a
/// run of the text, everything before and after it is whitespace, and it
/// neither begins nor ends with whitespace.
pub proof fn lemma_trim_strips_both_ends(s: Seq<char>)
    ensures
        exists|i: int, j: int|
            0 <= i <= j <= s.len() && text::trim(s) == s.subrange(i, j) && (forall|k: int|
                0 <= k < i ==> text::is_white_space(#[trigger] s[k])) && (forall|k: int|
                j <= k < s.len() ==> text::is_white_space(#[trigger] s[k])),
        text::trim(s).len() > 0 ==> !text::is_white_space(text::trim(s)[0]) && !text::is_white_space(text::trim(s).last()),
{
    let i = trim_start_index(s);
    let rest = s.subrange(i, s.len() as int);
    let j = trim_end_index(rest);
    assert(rest.subrange(0, j) =~= s.subrange(i, i + j));
    assert forall|k: int| i + j <= k < s.len() implies text::is_white_space(#[trigger] s[k]) by {
        assert(s[k] == rest[k - i]);
    }
    if j > 0 {
        assert(text::trim(s)[0] == s[i]);
    }
}

// ── Files ────────────────────────────────────────────────────────────────────

/// For a home directory that does not end in `/` and a connection name that
/// neither begins nor ends with one, the settings of the connection are in
/// `<home>/.squirrel/connections/<name>/config.toml`, and each query, whose
/// name does not begin with `/`, in
/// `<home>/.squirrel/connections/<name>/queries/<query>.sql`.
pub proof fn lemma_file_layout(home: Seq<char>, name: Seq<char>, query: Seq<char>)
    requires
        home.len() > 0,
        home.last() != '/',
        name.len() > 0,
        name[0] != '/',
        name.last() != '/',
        query.len() > 0 ==> query[0] != '/',
    ensures
        crate::storage::connection_config_file(home, name) == home + "/.squirrel/connections/"@
            + name + "/config.toml"@,
        crate::storage::query_file(home, name, query) == home + "/.squirrel/connections/"@ + name
            + "/queries/"@ + query + ".sql"@,
{
    reveal_strlit(".squirrel");
    reveal_strlit("connections");
    reveal_strlit("config.toml");
    reveal_strlit("queries");
    reveal_strlit(".sql");
    reveal_strlit("/.squirrel/connections/");
    reveal_strlit("/config.toml");
    reveal_strlit("/queries/");
    let squirrel = home + seq!['/'] + ".squirrel"@;
    assert(crate::storage::squirrel_dir_path(home) == squirrel);
    let conns = squirrel + seq!['/'] + "connections"@;
    assert(squirrel.last() == ".squirrel"@.last());
    assert(crate::storage::connections_dir_path(home) == conns);
    let dir = conns + seq!['/'] + name;
    assert(conns.last() == 's');
    assert(crate::storage::connection_dir_path(home, name) == dir);
    assert(dir.last() == name.last());
    assert(crate::storage::connection_config_file(home, name) == dir + seq!['/'] + "config.toml"@);
    assert(dir + seq!['/'] + "config.toml"@ =~= home + "/.squirrel/connections/"@ + name
        + "/config.toml"@);
    let queries = dir + seq!['/'] + "queries"@;
    assert(crate::storage::queries_dir_path(home, name) == queries);
    assert(queries.last() == 's');
    let file = query + ".sql"@;
    assert(file[0] != '/');
    assert(crate::storage::query_file(home, name, query) == queries + seq!['/'] + file);
    assert(queries + seq!['/'] + file =~= home + "/.squirrel/connections/"@ + name + "/queries/"@
        + query + ".sql"@);
}

/// A file holds a saved query exactly when its name is a non-empty name
/// followed by `.sql`, and the query is that name.
pub proof fn lemma_query_files(file: Seq<char>, query: Seq<char>)
    ensures
        query.len() > 0 ==> crate::storage::query_of_file(query + ".sql"@) == Some(query),
        crate::storage::query_of_file(file) matches Some(q) ==> q.len() > 0 && file == q
            + ".sql"@,
{
    reveal_strlit(".sql");
    let f = query + ".sql"@;
    if query.len() > 0 {
        assert(f.subrange(f.len() - 4, f.len() as int) =~= ".sql"@);
        assert(f.subrange(0, f.len() - 4) =~= query);
    }
    if file.len() > 4 && file.subrange(file.len() - 4, file.len() as int) == ".sql"@ {
        assert(file =~= file.subrange(0, file.len() - 4) + ".sql"@);
    }
}

/// The saved connections among the entries of the connections directory are
/// exactly the directories that hold a settings file.
pub proof fn lemma_connection_entries(entries: Seq<crate::storage::ConnectionEntry>, n: Seq<char>)
    ensures
        crate::storage::connection_entry_names(entries).contains(n) <==> exists|i: int|
            0 <= i < entries.len() && (#[trigger] entries[i]).is_dir && entries[i].has_config
                && entries[i].name@ == n,
    decreases entries.len(),
{
    if entries.len() > 0 {
        let front = entries.drop_last();
        lemma_connection_entries(front, n);
        let last = entries.last();
        let rest = crate::storage::connection_entry_names(front);
        if exists|i: int|
            0 <= i < entries.len() && (#[trigger] entries[i]).is_dir && entries[i].has_config
                && entries[i].name@ == n {
            let i = choose|i: int|
                0 <= i < entries.len() && (#[trigger] entries[i]).is_dir && entries[i].has_config
                    && entries[i].name@ == n;
            if i < entries.len() - 1 {
                assert(front[i] == entries[i]);
                let k = choose|k: int| 0 <= k < rest.len() && rest[k] == n;
                if last.is_dir && last.has_config {
                    assert(rest.push(last.name@)[k] == n);
                }
            } else {
                assert(rest.push(last.name@)[rest.len() as int] == n);
            }
        }
        if crate::storage::connection_entry_names(entries).contains(n) {
            let k = choose|k: int|
                0 <= k < crate::storage::connection_entry_names(entries).len()
                    && crate::storage::connection_entry_names(entries)[k] == n;
            if last.is_dir && last.has_config && k == rest.len() {
                assert(entries[entries.len() - 1] == last);
            } else {
                assert(rest[k] == n);
                let i = choose|i: int|
                    0 <= i < front.len() && (#[trigger] front[i]).is_dir && front[i].has_config
                        && front[i].name@ == n;
                assert(entries[i] == front[i]);
            }
        }
    }
}

// ── Command line and editor ──────────────────────────────────────────────────

/// `-c`/`--connection` followed by a value names the connection to open, and
/// `-q`/`--query` followed by a value the query to select in it; with neither
/// option, nothing is named.
pub proof fn lemma_command_line(program: Seq<char>, flag: Seq<char>, value: Seq<char>)
    ensures
        (flag == "-c"@ || flag == "--connection"@) ==> crate::cli::cli_of(
            seq![program, flag, value],
        ) == (Some(value), None::<Seq<char>>),
        (flag == "-q"@ || flag == "--query"@) ==> crate::cli::cli_of(seq![program, flag, value])
            == (None::<Seq<char>>, Some(value)),
        crate::cli::cli_of(seq![program]) == (None::<Seq<char>>, None::<Seq<char>>),
{
    reveal_strlit("-c");
    reveal_strlit("--connection");
    reveal_strlit("-q");
    reveal_strlit("--query");
    let args = seq![program, flag, value];
    if flag == "-q"@ || flag == "--query"@ {
        assert(!crate::cli::is_connection_flag(flag)) by {
            if flag == "-q"@ {
                assert(flag[1] != "-c"@[1]);
                assert(flag.len() != "--connection"@.len());
            } else {
                assert(flag.len() != "-c"@.len());
                assert(flag.len() != "--connection"@.len());
            }
        }
    }
    assert(crate::cli::scan_args(args, 3, Some(value), None) == (Some(value), None::<Seq<char>>));
    assert(crate::cli::scan_args(args, 3, None, Some(value)) == (None::<Seq<char>>, Some(value)));
}

/// The editor is `$EDITOR` when it is set, else `$VISUAL` when that is set,
/// else `vi`.
pub proof fn lemma_editor_choice(editor: Option<Seq<char>>, visual: Option<Seq<char>>)
    ensures
        editor matches Some(e) ==> crate::cli::editor_of(editor, visual) == e,
        editor is None ==> (visual matches Some(v) ==> crate::cli::editor_of(editor, visual) == v),
        editor is None && visual is None ==> crate::cli::editor_of(editor, visual) == "vi"@,
{
}

// ── The connection form ──────────────────────────────────────────────────────

/// The form's six fields are, in order, the name, host, port, database, user
/// name and password of the settings it gives. It gives settings exactly when
/// the name is given, the port parses as a 16-bit number and the database is
/// given; otherwise it says what is wrong, checking the name first, then the
/// port, then the database.
pub proof fn lemma_form_fields(f: crate::models::FormView)
    requires
        f.values.len() == 6,
    ensures
        (f.to_config() is Ok) <==> (f.values[0].len() > 0 && text::parse_u16(f.values[2]) is Some
            && f.values[3].len() > 0),
        f.to_config() matches Ok(c) ==> c.name == f.values[0] && c.host == f.values[1] && Some(
            c.port,
        ) == text::parse_u16(f.values[2]) && c.database == f.values[3] && c.username
            == f.values[4] && c.password == f.values[5],
        f.values[0].len() == 0 ==> f.to_config() == Err::<ConfigView, Seq<char>>(
            "Name is required"@,
        ),
        f.values[0].len() > 0 && text::parse_u16(f.values[2]) is None ==> f.to_config() == Err::<
            ConfigView,
            Seq<char>,
        >("Port must be a number (1–65535)"@),
        f.values[0].len() > 0 && text::parse_u16(f.values[2]) is Some && f.values[3].len() == 0
            ==> f.to_config() == Err::<ConfigView, Seq<char>>("Database is required"@),
{
}

/// A password is shown as one star per byte and never as its text; any other
/// field is shown as it is; the field being typed into ends in `_`.
pub proof fn lemma_field_display(value: Seq<char>, field: usize, typing: bool)
    ensures
        ({
            let shown = crate::view::field_text_of(value, field, false);
            &&& field == 5 ==> shown.len() == crate::view::byte_len(value) && forall|i: int|
                0 <= i < shown.len() ==> #[trigger] shown[i] == '*'
            &&& field != 5 ==> shown == value
            &&& crate::view::field_text_of(value, field, true) == shown.push('_')
        }),
{
}

// ── Results ──────────────────────────────────────────────────────────────────

/// The rows a statement returned are shown from the first page, twenty to a
/// page, with the first row selected; all of them are kept, in order, and so
/// are the column names, unless there are no rows, when there are no columns
/// either.
pub proof fn lemma_rows_result_starts_on_first_page(
    columns: Seq<Seq<char>>,
    rows: Seq<Seq<Seq<char>>>,
)
    ensures
        ({
            let r = db::rows_result_view(columns, rows);
            &&& r is Rows
            &&& r->rows == rows
            &&& r->page_size == 20
            &&& r.current_page() == 0
            &&& r.selected_row() == 0
            &&& r->columns == if rows.len() == 0 {
                Seq::<Seq<char>>::empty()
            } else {
                columns
            }
            &&& r.page_rows() == rows.take(if rows.len() < 20 {
                rows.len() as int
            } else {
                20
            })
        }),
{
}

/// A missing value is shown as `NULL`, any other value as its text.
pub proof fn lemma_cells(v: Seq<char>)
    ensures
        db::cell_text_of(None) == "NULL"@,
        db::cell_text_of(Some(v)) == v,
{
}

/// A column is at least 4 and at most 30 wide, and, within that, at least as
/// wide as its header and as each of its cells.
pub proof fn lemma_column_width_bounds(
    columns: Seq<Seq<char>>,
    rows: Seq<Seq<Seq<char>>>,
    column: int,
    r: int,
)
    requires
        0 <= r < rows.len(),
    ensures
        ({
            let w = crate::view::column_width_of(columns, rows, column);
            &&& 4 <= w <= 30
            &&& crate::view::byte_len(columns[column]) <= 30 ==> crate::view::byte_len(
                columns[column],
            ) <= w
            &&& crate::view::byte_len(rows[r][column]) <= 30 ==> crate::view::byte_len(
                rows[r][column],
            ) <= w
        }),
{
    lemma_widest_cell_covers(rows, column, r);
}

proof fn lemma_widest_cell_covers(rows: Seq<Seq<Seq<char>>>, column: int, r: int)
    requires
        0 <= r < rows.len(),
    ensures
        crate::view::byte_len(rows[r][column]) <= crate::view::widest_cell(rows, column),
    decreases rows.len(),
{
    if r < rows.len() - 1 {
        lemma_widest_cell_covers(rows.drop_last(), column, r);
        assert(rows.drop_last()[r] == rows[r]);
    }
}

/// On a result, `l`/Right shows the next page unless the last is shown, and
/// `h`/Left the previous one unless the first is shown; the rows, the page
/// size and the selected row stay.
pub proof fn lemma_page_keys(a: AppView, k: KeyInput)
    requires
        a.screen matches ScreenView::Results { result, .. } && result is Rows,
        a.screen.well_formed(),
        !k.control,
        k.code == Key::Right || k.code == Key::Char('l') || k.code == Key::Left || k.code
            == Key::Char('h'),
    ensures
        ({
            let r = a.screen->Results_result;
            let (rows, page, size) = (r->rows, r->page as int, r->page_size as int);
            let last = if rows.len() == 0 {
                0
            } else {
                (rows.len() - 1) / size
            };
            let (b, e) = flow::key_step(a, k);
            let expected = if k.code == Key::Right || k.code == Key::Char('l') {
                if page < last {
                    page + 1
                } else {
                    page
                }
            } else if page > 0 {
                page - 1
            } else {
                page
            };
            &&& e is Nothing
            &&& b.screen matches ScreenView::Results { result: n, .. } && n is Rows && n->rows
                == rows && n->page_size == r->page_size && n->selected_row == r->selected_row
                && n->columns == r->columns && n->page == expected
        }),
{
    let r = a.screen->Results_result;
    let last = crate::models::last_page_for(r->rows.len(), r->page_size as nat) as int;
    let size = r->page_size as int;
    assert(last <= last * size) by (nonlinear_arith)
        requires
            size >= 1,
            last >= 0,
    ;
}

// ── Moving through lists ─────────────────────────────────────────────────────

/// Down (or `j`) on the list of connections selects the next connection,
/// staying on the last; Up (or `k`) the previous one, staying on the first.
pub proof fn lemma_connection_list_moves(a: AppView, control: bool)
    requires
        a.screen matches ScreenView::ConnectionList { connections, selected } && selected
            < connections.len(),
    ensures
        ({
            let (connections, i) = (
                a.screen->ConnectionList_connections,
                a.screen->ConnectionList_selected,
            );
            let down = flow::key_step(a, KeyInput { code: Key::Down, control }).0.screen;
            let up = flow::key_step(a, KeyInput { code: Key::Up, control }).0.screen;
            &&& down == ScreenView::ConnectionList {
                connections,
                selected: if i + 1 < connections.len() {
                    (i + 1) as usize
                } else {
                    i
                },
            }
            &&& up == ScreenView::ConnectionList {
                connections,
                selected: if i > 0 {
                    (i - 1) as usize
                } else {
                    0
                },
            }
        }),
{
}

/// Down (or `j`) on the list of queries selects the next query and reads its
/// text, staying on the last; Up (or `k`) does the same with the previous one,
/// staying on the first.
pub proof fn lemma_query_list_moves(a: AppView, control: bool)
    requires
        a.screen matches ScreenView::QueryList { queries, selected, .. } && selected
            < queries.len(),
        a.screen->QueryList_queries.len() <= usize::MAX,
    ensures
        ({
            let (connection, queries, i) = (
                a.screen->QueryList_connection,
                a.screen->QueryList_queries,
                a.screen->QueryList_selected,
            );
            let (down, down_effect) = flow::key_step(a, KeyInput { code: Key::Down, control });
            let (up, up_effect) = flow::key_step(a, KeyInput { code: Key::Up, control });
            &&& i + 1 < queries.len() ==> down_effect == EffectView::LoadQuery {
                connection,
                query: queries[i + 1],
            } && down.pending == Some(
                PendingView::Preview { connection, queries, selected: (i + 1) as usize },
            )
            &&& i + 1 == queries.len() ==> down_effect is Nothing && down.screen == a.screen
            &&& i > 0 ==> up_effect == EffectView::LoadQuery { connection, query: queries[i - 1] }
                && up.pending == Some(
                PendingView::Preview { connection, queries, selected: (i - 1) as usize },
            )
            &&& i == 0 ==> up_effect == EffectView::LoadQuery { connection, query: queries[0] }
        }),
{
}

// ── Order of names ───────────────────────────────────────────────────────────

/// Names are ordered character by character from the start, by code point,
/// and a name comes before every longer name that begins with it.
pub proof fn lemma_name_order(a: Seq<char>, b: Seq<char>, k: int)
    requires
        0 <= k < a.len(),
        k < b.len(),
        a.take(k) == b.take(k),
    ensures
        a[k] < b[k] ==> crate::storage::text_le(a, b) && !crate::storage::text_le(b, a),
        crate::storage::text_le(a, a + b),
    decreases k,
{
    if k > 0 {
        assert(a.drop_first().take(k - 1) =~= a.take(k).drop_first());
        assert(b.drop_first().take(k - 1) =~= b.take(k).drop_first());
        assert(a[0] == a.take(k)[0] && b[0] == b.take(k)[0]);
        lemma_name_order(a.drop_first(), b.drop_first(), k - 1);
    }
    lemma_prefix_first(a, b);
}

proof fn lemma_prefix_first(a: Seq<char>, b: Seq<char>)
    ensures
        crate::storage::text_le(a, a + b),
    decreases a.len(),
{
    if a.len() > 0 {
        assert((a + b).drop_first() =~= a.drop_first() + b);
        lemma_prefix_first(a.drop_first(), b);
    }
}

// ── The query view and the way back ─────────────────────────────────────────

/// On a shown query, `e` opens the editor on that query of that connection
/// and then reads its text again to show it; `q` and Esc go back to the list
/// of the connection's queries with that query selected. If the settings to
/// run it with cannot be read, the query stays shown and the status bar says
/// why.
pub proof fn lemma_query_view_keys(a: AppView, control: bool, err: Seq<char>, t: Seq<char>)
    requires
        a.screen is QueryView,
    ensures
        ({
            let (connection, query, sql) = (
                a.screen->QueryView_connection,
                a.screen->QueryView_query,
                a.screen->QueryView_sql,
            );
            let (edited, edit) = flow::key_step(a, KeyInput { code: Key::Char('e'), control: false });
            let (reread, load) = flow::resume_step(edited, OutcomeView::Done);
            let (back, list) = flow::key_step(a, KeyInput { code: Key::Esc, control });
            let (back_q, list_q) = flow::key_step(a, KeyInput { code: Key::Char('q'), control: false });
            let (run, _) = flow::key_step(a, KeyInput { code: Key::Enter, control });
            let (failed, _) = flow::resume_step(run, OutcomeView::Failed(err));
            &&& edit == EffectView::EditQuery { connection, query }
            &&& load == EffectView::LoadQuery { connection, query }
            &&& flow::resume_step(reread, OutcomeView::Text(t)).0.screen == ScreenView::QueryView {
                connection,
                query,
                sql: t,
            }
            &&& list == EffectView::ListQueries { connection } && list_q == list
            &&& back.pending == Some(
                PendingView::Queries { connection, choose: ChoiceView::Named(query), lenient: false },
            ) && back_q.pending == back.pending
            &&& failed.screen == a.screen
            &&& failed.status == Some("Cannot load connection: "@ + err)
        }),
{
}

/// Esc where a name is typed gives up: renaming a connection goes back to
/// the connections with that connection selected, renaming a query to the
/// queries with that query selected, and naming a new query to the queries.
pub proof fn lemma_escape_from_names(a: AppView, control: bool)
    requires
        a.screen is RenameConnection || a.screen is RenameQuery || a.screen is CreateQueryName,
    ensures
        ({
            let (b, e) = flow::key_step(a, KeyInput { code: Key::Esc, control });
            match a.screen {
                ScreenView::RenameConnection { old_name, .. } => e == EffectView::ListConnections
                    && b.pending == Some(
                    PendingView::Connections { choose: ChoiceView::Named(old_name) },
                ),
                ScreenView::RenameQuery { connection, old_name, .. } => e
                    == EffectView::ListQueries { connection } && b.pending == Some(
                    PendingView::Queries {
                        connection,
                        choose: ChoiceView::Named(old_name),
                        lenient: false,
                    },
                ),
                ScreenView::CreateQueryName { connection, .. } => e == EffectView::ListQueries {
                    connection,
                } && b.pending == Some(
                    PendingView::Queries { connection, choose: ChoiceView::First, lenient: false },
                ),
                _ => true,
            }
        }),
{
}

/// Typing a character where a name is typed appends it, a space as `_`;
/// Backspace erases the last character, if there is one.
pub proof fn lemma_typing_names(a: AppView, c: char)
    requires
        a.screen matches ScreenView::CreateQueryName { .. },
        c != 'q',
    ensures
        ({
            let input = a.screen->CreateQueryName_input;
            let typed = flow::key_step(a, KeyInput { code: Key::Char(c), control: false }).0.screen;
            let erased = flow::key_step(a, KeyInput { code: Key::Backspace, control: false }).0.screen;
            &&& typed matches ScreenView::CreateQueryName { input: t, .. } && t == input.push(
                if c == ' ' {
                    '_'
                } else {
                    c
                },
            )
            &&& erased matches ScreenView::CreateQueryName { input: t, .. } && (input.len() > 0
                ==> t == input.take(input.len() - 1)) && (input.len() == 0 ==> t == input)
        }),
{
}

/// `n` on the list of connections opens an empty form for a new connection,
/// with the host `localhost`, the port `5432` and the user `postgres` filled
/// in and the focus on the name; `n` on a list of queries asks for the name
/// of a new query of that connection.
pub proof fn lemma_new_keys(a: AppView)
    requires
        a.screen is ConnectionList || a.screen is QueryList,
    ensures
        ({
            let (b, e) = flow::key_step(a, KeyInput { code: Key::Char('n'), control: false });
            &&& e is Nothing
            &&& a.screen is ConnectionList ==> (b.screen matches ScreenView::CreateConnection {
                form,
                status,
            } && status is None && form.active_field == 0 && !form.editing && form.values
                == seq![Seq::empty(), "localhost"@, "5432"@, Seq::empty(), "postgres"@, Seq::empty()])
            &&& a.screen is QueryList ==> b.screen == ScreenView::CreateQueryName {
                connection: a.screen->QueryList_connection,
                input: Seq::empty(),
            }
        }),
{
}

} // verus!
