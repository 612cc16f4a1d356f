//! What the library decides about running SQL: which statements return rows,
//! how returned rows become a result, and how a missing value is shown.
use vstd::prelude::*;

use crate::models::{QueryResult, ResultView};
use crate::text;
use crate::text::{has_keyword_prefix, trimmed};

verus! {

/// Whether `sql` is a statement that returns rows: once trimmed, it begins
/// with `SELECT`, `WITH`, `TABLE`, `VALUES`, `SHOW` or `EXPLAIN`, in any case
/// of ASCII letters. Any other statement is run for the count of rows it changes.
pub open spec fn returns_rows(sql: Seq<char>) -> bool {
    let t = text::trim(sql);
    ||| text::starts_with_keyword(t, "SELECT"@)
    ||| text::starts_with_keyword(t, "WITH"@)
    ||| text::starts_with_keyword(t, "TABLE"@)
    ||| text::starts_with_keyword(t, "VALUES"@)
    ||| text::starts_with_keyword(t, "SHOW"@)
    ||| text::starts_with_keyword(t, "EXPLAIN"@)
}

/// Whether `sql` is a statement that returns rows.
pub fn statement_returns_rows(sql: &str) -> (b: bool)
    ensures
        b == returns_rows(sql@),
{
    let t = trimmed(sql);
    let t = t.as_str();
    has_keyword_prefix(t, "SELECT") || has_keyword_prefix(t, "WITH") || has_keyword_prefix(
        t,
        "TABLE",
    ) || has_keyword_prefix(t, "VALUES") || has_keyword_prefix(t, "SHOW") || has_keyword_prefix(
        t,
        "EXPLAIN",
    )
}

/// The result that shows `rows` under `columns` from the first page, twenty
/// rows to a page; when there are no rows there are no columns either.
pub open spec fn rows_result_view(columns: Seq<Seq<char>>, rows: Seq<Seq<Seq<char>>>) -> ResultView {
    ResultView::Rows {
        columns: if rows.len() == 0 {
            Seq::empty()
        } else {
            columns
        },
        rows,
        page: 0,
        page_size: 20,
        selected_row: 0,
    }
}

proof fn lemma_last_page_fits(n: int)
    by (nonlinear_arith)
    requires
        n > 0,
    ensures
        ((n - 1) / 20) * 20 <= n - 1,
{
}

/// The result of a statement that returned `rows`, whose columns are named
/// `columns`.
pub fn rows_result(columns: Vec<String>, rows: Vec<Vec<String>>) -> (r: QueryResult)
    requires
        rows.len() + 20 <= usize::MAX,
    ensures
        r@ == rows_result_view(columns.deep_view(), rows.deep_view()),
        r@.well_formed(),
{
    proof {
        if rows.len() > 0 {
            lemma_last_page_fits(rows.len() as int);
        }
        assert(crate::models::last_page_for(rows.len() as nat, 20) * 20 + 20 <= usize::MAX);
    }
    if rows.len() == 0 {
        let none: Vec<String> = Vec::new();
        let r = QueryResult::Rows {
            columns: none,
            rows,
            page: 0,
            page_size: QueryResult::PAGE_SIZE,
            selected_row: 0,
        };
        proof {
            assert(none.deep_view() =~= Seq::<Seq<char>>::empty());
        }
        r
    } else {
        QueryResult::Rows {
            columns,
            rows,
            page: 0,
            page_size: QueryResult::PAGE_SIZE,
            selected_row: 0,
        }
    }
}

/// How a value is shown: its text, or `NULL` for a missing value.
pub open spec fn cell_text_of(value: Option<Seq<char>>) -> Seq<char> {
    match value {
        Some(v) => v,
        None => "NULL"@,
    }
}

/// How a value is shown: its text, or `NULL` for a missing value.
pub fn cell_text(value: Option<String>) -> (s: String)
    ensures
        s@ == cell_text_of(value.deep_view()),
{
    match value {
        Some(v) => v,
        None => "NULL".to_string(),
    }
}

} // verus!
