//! The text that the screens show: titles, hints, list entries, the form's
//! fields, and the widths of a result's columns. Drawing it is left to the
//! caller.
use vstd::prelude::*;

use crate::app::{Screen, ScreenView};
use crate::models::QueryResult;
use crate::text;
use crate::text::push_char;

verus! {

// ── Hints ────────────────────────────────────────────────────────────────────

/// The keys that the screen `s` offers, as shown in the status bar.
pub open spec fn hint_of(s: ScreenView) -> Seq<char> {
    match s {
        ScreenView::ConnectionList { .. } => "n: new  r: rename  e: edit  d: delete  Enter: open  q: quit"@,
        ScreenView::CreateConnection { form, .. } => if form.editing {
            "Type text  Tab/↑↓: field  Enter/Esc: done"@
        } else {
            "Tab/j/k: move  Enter: edit field (last: test & save)  s: save & test  Esc: back"@
        },
        ScreenView::QueryList { .. } => "n: new  r: rename  e: edit  d: delete  Enter: open  ←/Esc: back"@,
        ScreenView::CreateQueryName { .. } => "Enter: open editor  Esc: back"@,
        ScreenView::RenameConnection { .. } => "Enter: confirm  Esc: cancel"@,
        ScreenView::RenameQuery { .. } => "Enter: confirm  Esc: cancel"@,
        ScreenView::QueryView { .. } => "Enter: run  e: edit  q/Esc: back"@,
        ScreenView::Results { .. } => "j/k: row  ←h/→l: page  q/Esc: back"@,
    }
}

/// The keys that `screen` offers, as shown in the status bar.
pub fn screen_hint(screen: &Screen) -> (h: &'static str)
    ensures
        h@ == hint_of(screen@),
{
    match screen {
        Screen::ConnectionList { .. } => "n: new  r: rename  e: edit  d: delete  Enter: open  q: quit",
        Screen::CreateConnection { form, .. } => {
            if form.editing {
                "Type text  Tab/↑↓: field  Enter/Esc: done"
            } else {
                "Tab/j/k: move  Enter: edit field (last: test & save)  s: save & test  Esc: back"
            }
        },
        Screen::QueryList { .. } => "n: new  r: rename  e: edit  d: delete  Enter: open  ←/Esc: back",
        Screen::CreateQueryName { .. } => "Enter: open editor  Esc: back",
        Screen::RenameConnection { .. } => "Enter: confirm  Esc: cancel",
        Screen::RenameQuery { .. } => "Enter: confirm  Esc: cancel",
        Screen::QueryView { .. } => "Enter: run  e: edit  q/Esc: back",
        Screen::Results { .. } => "j/k: row  ←h/→l: page  q/Esc: back",
    }
}

// ── Lists ────────────────────────────────────────────────────────────────────

/// The title of a list: with a hint to create an entry when it is empty.
pub open spec fn list_title_of(title: Seq<char>, empty: bool) -> Seq<char> {
    if empty {
        title + " (empty — press n to create) "@
    } else {
        title
    }
}

/// The title of a list: with a hint to create an entry when it is empty.
pub fn list_title(title: &str, empty: bool) -> (t: String)
    ensures
        t@ == list_title_of(title@, empty),
{
    let mut t = title.to_string();
    if empty {
        t.append(" (empty — press n to create) ");
    }
    t
}

/// One entry of a list: marked when it is the selected one.
pub open spec fn list_entry_of(name: Seq<char>, selected: bool) -> Seq<char> {
    if selected {
        "▶ "@ + name
    } else {
        "  "@ + name
    }
}

/// One entry of a list: marked when it is the selected one.
pub fn list_entry(name: &str, selected: bool) -> (t: String)
    ensures
        t@ == list_entry_of(name@, selected),
{
    let mut t = if selected {
        "▶ ".to_string()
    } else {
        "  ".to_string()
    };
    t.append(name);
    t
}

/// The title of the list of saved queries of `connection`.
pub open spec fn queries_title_of(connection: Seq<char>) -> Seq<char> {
    " Queries — "@ + connection + " "@
}

/// The title of the list of saved queries of `connection`.
pub fn queries_title(connection: &str) -> (t: String)
    ensures
        t@ == queries_title_of(connection@),
{
    let mut t = " Queries — ".to_string();
    t.append(connection);
    t.append(" ");
    t
}

/// The title of the preview: the selected query's name, if there is one.
pub open spec fn preview_title_of(queries: Seq<Seq<char>>, selected: usize) -> Seq<char> {
    if selected < queries.len() {
        " "@ + queries[selected as int] + " "@
    } else {
        " Preview "@
    }
}

/// The title of the preview: the selected query's name, if there is one.
pub fn preview_title(queries: &Vec<String>, selected: usize) -> (t: String)
    ensures
        t@ == preview_title_of(queries.deep_view(), selected),
{
    if selected < queries.len() {
        let mut t = " ".to_string();
        t.append(queries[selected].as_str());
        t.append(" ");
        t
    } else {
        " Preview ".to_string()
    }
}

/// The title of the screen that shows the query `query` of `connection`.
pub open spec fn query_view_title_of(connection: Seq<char>, query: Seq<char>) -> Seq<char> {
    " "@ + connection + " › "@ + query + " "@
}

/// The title of the screen that shows the query `query` of `connection`.
pub fn query_view_title(connection: &str, query: &str) -> (t: String)
    ensures
        t@ == query_view_title_of(connection@, query@),
{
    let mut t = " ".to_string();
    t.append(connection);
    t.append(" › ");
    t.append(query);
    t.append(" ");
    t
}

// ── Dialogs ──────────────────────────────────────────────────────────────────

/// The title of the dialog for a new query's name.
pub open spec fn new_query_title_of(connection: Seq<char>) -> Seq<char> {
    " New query for '"@ + connection + "' "@
}

/// The title of the dialog for a new query's name.
pub fn new_query_title(connection: &str) -> (t: String)
    ensures
        t@ == new_query_title_of(connection@),
{
    let mut t = " New query for '".to_string();
    t.append(connection);
    t.append("' ");
    t
}

/// What the dialog for a new query's name shows: the name typed so far.
pub open spec fn name_prompt_of(input: Seq<char>) -> Seq<char> {
    "Name: "@ + input + "_"@
}

/// What the dialog for a new query's name shows: the name typed so far.
pub fn name_prompt(input: &str) -> (t: String)
    ensures
        t@ == name_prompt_of(input@),
{
    let mut t = "Name: ".to_string();
    t.append(input);
    t.append("_");
    t
}

/// The title of the dialog that renames `old_name`.
pub open spec fn rename_title_of(old_name: Seq<char>) -> Seq<char> {
    " Rename '"@ + old_name + "' "@
}

/// The title of the dialog that renames `old_name`.
pub fn rename_title(old_name: &str) -> (t: String)
    ensures
        t@ == rename_title_of(old_name@),
{
    let mut t = " Rename '".to_string();
    t.append(old_name);
    t.append("' ");
    t
}

/// What the renaming dialog shows: the new name typed so far.
pub open spec fn rename_prompt_of(input: Seq<char>) -> Seq<char> {
    "New name: "@ + input + "_"@
}

/// What the renaming dialog shows: the new name typed so far.
pub fn rename_prompt(input: &str) -> (t: String)
    ensures
        t@ == rename_prompt_of(input@),
{
    let mut t = "New name: ".to_string();
    t.append(input);
    t.append("_");
    t
}

// ── The connection form ──────────────────────────────────────────────────────

/// The number of bytes of the UTF-8 encoding of `s`, as `str::len` gives it.
pub open spec fn byte_len(s: Seq<char>) -> nat {
    (vstd::utf8::encode_utf8(s).len() as usize) as nat
}

/// `n` stars.
pub open spec fn stars(n: nat) -> Seq<char> {
    Seq::new(n, |i: int| '*')
}

/// What a field of the form shows: the password (the last field) as one star
/// per byte of its text, any other field as its text; the field being typed
/// into ends in `_`.
pub open spec fn field_text_of(value: Seq<char>, field: usize, typing: bool) -> Seq<char> {
    let shown = if field == 5 {
        stars(byte_len(value))
    } else {
        value
    };
    if typing {
        shown.push('_')
    } else {
        shown
    }
}

/// What field `field` of the form shows, holding `value`, while it is
/// (`typing`) or is not being typed into.
pub fn field_text(value: &str, field: usize, typing: bool) -> (t: String)
    ensures
        t@ == field_text_of(value@, field, typing),
{
    let mut t = String::new();
    if field == 5 {
        let n = value.len();
        let mut i: usize = 0;
        while i < n
            invariant
                i <= n,
                t@ == stars(i as nat),
            decreases n - i,
        {
            push_char(&mut t, '*');
            assert(t@ =~= stars((i + 1) as nat));
            i = i + 1;
        }
        assert(n == byte_len(value@));
    } else {
        t.append(value);
        assert(t@ =~= value@);
    }
    let ghost shown = t@;
    if typing {
        push_char(&mut t, '_');
    }
    assert(t@ =~= field_text_of(value@, field, typing));
    t
}

// ── Results ──────────────────────────────────────────────────────────────────

/// The title over a count of changed rows.
pub open spec fn affected_title_of(connection: Seq<char>, query: Seq<char>) -> Seq<char> {
    " "@ + connection + " › "@ + query + " — Result "@
}

/// The title over a count of changed rows.
pub fn affected_title(connection: &str, query: &str) -> (t: String)
    ensures
        t@ == affected_title_of(connection@, query@),
{
    let mut t = " ".to_string();
    t.append(connection);
    t.append(" › ");
    t.append(query);
    t.append(" — Result ");
    t
}

/// The count of changed rows.
pub open spec fn affected_text_of(n: u64) -> Seq<char> {
    text::decimal(n as nat) + " row(s) affected"@
}

/// The count of changed rows.
pub fn affected_text(n: u64) -> (t: String)
    ensures
        t@ == affected_text_of(n),
{
    let mut t = text::decimal_string(n);
    t.append(" row(s) affected");
    t
}

/// The title over returned rows: how many there are, and which page of how
/// many is shown (counting pages from 1).
pub open spec fn rows_title_of(
    connection: Seq<char>,
    query: Seq<char>,
    rows: nat,
    page: nat,
    pages: nat,
) -> Seq<char> {
    " "@ + connection + " › "@ + query + " — "@ + text::decimal(rows) + " rows (page "@
        + text::decimal(page + 1) + "/"@ + text::decimal(pages) + ") "@
}

/// The title over returned rows.
pub fn rows_title(connection: &str, query: &str, rows: usize, page: usize, pages: usize) -> (t:
    String)
    requires
        page < usize::MAX,
    ensures
        t@ == rows_title_of(connection@, query@, rows as nat, page as nat, pages as nat),
{
    let mut t = " ".to_string();
    t.append(connection);
    t.append(" › ");
    t.append(query);
    t.append(" — ");
    t.append(text::decimal_string(rows as u64).as_str());
    t.append(" rows (page ");
    t.append(text::decimal_string((page + 1) as u64).as_str());
    t.append("/");
    t.append(text::decimal_string(pages as u64).as_str());
    t.append(") ");
    t
}

/// The largest width, in bytes, of the cells of column `column` among `rows`
/// (0 when there are no rows).
pub open spec fn widest_cell(rows: Seq<Seq<Seq<char>>>, column: int) -> nat
    decreases rows.len(),
{
    if rows.len() == 0 {
        0
    } else {
        let rest = widest_cell(rows.drop_last(), column);
        let w = byte_len(rows.last()[column]);
        if w > rest {
            w
        } else {
            rest
        }
    }
}

/// The width of column `column`: as wide as its header and its widest cell,
/// but at least 4 and at most 30.
pub open spec fn column_width_of(
    columns: Seq<Seq<char>>,
    rows: Seq<Seq<Seq<char>>>,
    column: int,
) -> nat {
    let header = byte_len(columns[column]);
    let cells = widest_cell(rows, column);
    let w = if header > cells {
        header
    } else {
        cells
    };
    if w < 4 {
        4
    } else if w > 30 {
        30
    } else {
        w
    }
}

/// The widths of the columns `columns` over the rows `rows`.
pub fn column_widths(columns: &Vec<String>, rows: &[Vec<String>]) -> (w: Vec<usize>)
    requires
        forall|r: int| 0 <= r < rows@.len() ==> #[trigger] rows@[r]@.len() >= columns@.len(),
    ensures
        w@.len() == columns@.len(),
        forall|i: int|
            0 <= i < columns@.len() ==> w@[i] == column_width_of(
                columns.deep_view(),
                rows.deep_view(),
                i,
            ),
{
    let mut w: Vec<usize> = Vec::new();
    let mut i: usize = 0;
    while i < columns.len()
        invariant
            i <= columns@.len(),
            w@.len() == i,
            forall|r: int| 0 <= r < rows@.len() ==> #[trigger] rows@[r]@.len() >= columns@.len(),
            forall|j: int|
                0 <= j < i ==> w@[j] == column_width_of(columns.deep_view(), rows.deep_view(), j),
        decreases columns@.len() - i,
    {
        let mut widest: usize = 0;
        let mut r: usize = 0;
        assert(rows.deep_view().subrange(0, 0) =~= Seq::<Seq<Seq<char>>>::empty());
        while r < rows.len()
            invariant
                i < columns@.len(),
                r <= rows@.len(),
                forall|k: int| 0 <= k < rows@.len() ==> #[trigger] rows@[k]@.len() >= columns@.len(),
                widest as nat == widest_cell(rows.deep_view().subrange(0, r as int), i as int),
            decreases rows@.len() - r,
        {
            let cell = rows[r][i].as_str().len();
            let ghost before = rows.deep_view().subrange(0, r as int);
            let ghost after = rows.deep_view().subrange(0, r + 1);
            assert(after.drop_last() =~= before);
            assert(after.last() == rows@[r as int].deep_view());
            assert(after.last()[i as int] == rows@[r as int]@[i as int]@);
            assert(cell as nat == byte_len(after.last()[i as int]));
            if cell > widest {
                widest = cell;
            }
            r = r + 1;
        }
        assert(rows.deep_view().subrange(0, rows@.len() as int) =~= rows.deep_view());
        let header = columns[i].as_str().len();
        let widest = if header > widest {
            header
        } else {
            widest
        };
        let width = if widest < 4 {
            4
        } else if widest > 30 {
            30
        } else {
            widest
        };
        assert(header as nat == byte_len(columns.deep_view()[i as int]));
        assert(width as nat == column_width_of(columns.deep_view(), rows.deep_view(), i as int));
        w.push(width);
        i = i + 1;
    }
    w
}

/// Whether a cell holds the text that stands for a missing value.
pub fn shows_null(cell: &String) -> (b: bool)
    ensures
        b == (cell@ == "NULL"@),
{
    let null = "NULL".to_string();
    *cell == null
}

/// Whether the row at `index` of a page is drawn on the darker background:
/// every second row, starting with the second.
pub fn striped(index: usize) -> (b: bool)
    ensures
        b == (index % 2 == 1),
{
    index % 2 == 1
}

/// What is shown in place of a table for a result with no columns, which is
/// what a statement that returned no rows gives; nothing for other results.
pub open spec fn no_rows_text_of(columns: Seq<Seq<char>>) -> Option<Seq<char>> {
    if columns.len() == 0 {
        Some("(no rows returned)"@)
    } else {
        None
    }
}

/// What is shown in place of a table for a result with no columns, which is
/// what a statement that returned no rows gives; nothing for other results.
pub fn no_rows_text(columns: &Vec<String>) -> (t: Option<String>)
    ensures
        t.deep_view() == no_rows_text_of(columns.deep_view()),
{
    if columns.len() == 0 {
        Some("(no rows returned)".to_string())
    } else {
        None
    }
}

/// Whether the page of `result` can be drawn: the result is well-formed, so
/// its page count and page rows can be taken, and the page's number counted
/// from one fits the title.
pub fn page_can_be_shown(result: &QueryResult) -> (b: bool)
    ensures
        b == (result@.well_formed() && result@.current_page() < usize::MAX),
{
    result.is_well_formed() && result.current_page() < usize::MAX
}

} // verus!
