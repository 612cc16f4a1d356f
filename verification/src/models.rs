//! The data the application works with: connection settings, the form that
//! edits them, and a paginated query result.
use vstd::prelude::*;

use crate::text;
use crate::text::{decimal_string, erase_last, parse_port_number, push_char};

verus! {

// ── ConnectionConfig ─────────────────────────────────────────────────────────

/// The settings of one named PostgreSQL connection.
#[derive(Debug)]
pub struct ConnectionConfig {
    pub name: String,
    pub host: String,
    pub port: u16,
    pub database: String,
    pub username: String,
    pub password: String,
}

/// A connection's settings as mathematical values.
pub struct ConfigView {
    pub name: Seq<char>,
    pub host: Seq<char>,
    pub port: u16,
    pub database: Seq<char>,
    pub username: Seq<char>,
    pub password: Seq<char>,
}

impl View for ConnectionConfig {
    type V = ConfigView;

    open spec fn view(&self) -> ConfigView {
        ConfigView {
            name: self.name@,
            host: self.host@,
            port: self.port,
            database: self.database@,
            username: self.username@,
            password: self.password@,
        }
    }
}

/// The libpq key/value connection string for `c`.
pub open spec fn connection_string_of(c: ConfigView) -> Seq<char> {
    "host="@ + c.host + " port="@ + text::decimal(c.port as nat) + " dbname="@ + c.database + " user="@
        + c.username + " password="@ + c.password
}

impl ConnectionConfig {
    /// The libpq connection string of these settings.
    pub fn connection_string(&self) -> (s: String)
        ensures
            s@ == connection_string_of(self@),
    {
        let mut s = String::new();
        s.append("host=");
        s.append(self.host.as_str());
        s.append(" port=");
        s.append(decimal_string(self.port as u64).as_str());
        s.append(" dbname=");
        s.append(self.database.as_str());
        s.append(" user=");
        s.append(self.username.as_str());
        s.append(" password=");
        s.append(self.password.as_str());
        assert(s@ =~= connection_string_of(self@));
        s
    }

    /// These settings under the name `name`.
    pub fn with_name(&self, name: &str) -> (c: ConnectionConfig)
        ensures
            c@ == (ConfigView { name: name@, ..self@ }),
    {
        let mut c = self.duplicate();
        c.name = name.to_string();
        c
    }

    /// A copy of these settings.
    pub fn duplicate(&self) -> (c: ConnectionConfig)
        ensures
            c@ == self@,
    {
        ConnectionConfig {
            name: self.name.clone(),
            host: self.host.clone(),
            port: self.port,
            database: self.database.clone(),
            username: self.username.clone(),
            password: self.password.clone(),
        }
    }
}

// ── QueryResult ──────────────────────────────────────────────────────────────

/// What running one SQL statement gave: rows shown a page at a time, with
/// one row of the page shown selected, or the number of rows that a statement
/// changed.
#[derive(Debug)]
pub enum QueryResult {
    Rows {
        columns: Vec<String>,
        rows: Vec<Vec<String>>,
        page: usize,
        page_size: usize,
        selected_row: usize,
    },
    AffectedRows(u64),
}

/// A query result as mathematical values.
pub enum ResultView {
    Rows {
        columns: Seq<Seq<char>>,
        rows: Seq<Seq<Seq<char>>>,
        page: usize,
        page_size: usize,
        selected_row: usize,
    },
    AffectedRows(u64),
}

impl View for QueryResult {
    type V = ResultView;

    open spec fn view(&self) -> ResultView {
        match self {
            QueryResult::Rows { columns, rows, page, page_size, selected_row } => ResultView::Rows {
                columns: columns.deep_view(),
                rows: rows.deep_view(),
                page: *page,
                page_size: *page_size,
                selected_row: *selected_row,
            },
            QueryResult::AffectedRows(n) => ResultView::AffectedRows(*n),
        }
    }
}

/// The number of pages that `n` rows fill, `size` rows to a page; an empty
/// result still has one page.
pub open spec fn pages_for(n: nat, size: nat) -> nat {
    if n == 0 {
        1
    } else {
        ((n + size - 1) / size as int) as nat
    }
}

/// The index of the last page that `n` rows reach, `size` rows to a page.
pub open spec fn last_page_for(n: nat, size: nat) -> nat {
    if n == 0 {
        0
    } else {
        ((n - 1) / size as int) as nat
    }
}

/// Rounding a quotient up adds one exactly when the division leaves a remainder.
proof fn lemma_div_ceil(n: int, d: int)
    by (nonlinear_arith)
    requires
        n > 0,
        d > 0,
    ensures
        (n + d - 1) / d == n / d + if n % d > 0 {
            1int
        } else {
            0int
        },
        n % d > 0 ==> n / d < n,
{
}

proof fn lemma_div_le(n: int, d: int)
    by (nonlinear_arith)
    requires
        n >= 0,
        d > 0,
    ensures
        n / d <= n,
{
}

impl ResultView {
    /// The number of pages.
    pub open spec fn page_count(self) -> nat {
        match self {
            ResultView::Rows { rows, page_size, .. } => pages_for(rows.len(), page_size as nat),
            ResultView::AffectedRows(_) => 1,
        }
    }

    /// The page shown.
    pub open spec fn current_page(self) -> nat {
        match self {
            ResultView::Rows { page, .. } => page as nat,
            ResultView::AffectedRows(_) => 0,
        }
    }

    /// The rows of the page shown.
    pub open spec fn page_rows(self) -> Seq<Seq<Seq<char>>> {
        match self {
            ResultView::Rows { rows, page, page_size, .. } => {
                let start = page * page_size;
                let end = if start + page_size < rows.len() {
                    start + page_size
                } else {
                    rows.len() as int
                };
                rows.subrange(start, end)
            },
            ResultView::AffectedRows(_) => Seq::empty(),
        }
    }

    /// The result after moving one page forward, stopping at the last page.
    pub open spec fn after_next_page(self) -> ResultView {
        match self {
            ResultView::Rows { columns, rows, page, page_size, selected_row } => {
                if (page as nat) < last_page_for(rows.len(), page_size as nat) {
                    ResultView::Rows {
                        columns,
                        rows,
                        page: (page + 1) as usize,
                        page_size,
                        selected_row,
                    }
                } else {
                    self
                }
            },
            ResultView::AffectedRows(_) => self,
        }
    }

    /// The result after moving one page back, stopping at the first page.
    pub open spec fn after_prev_page(self) -> ResultView {
        match self {
            ResultView::Rows { columns, rows, page, page_size, selected_row } => {
                if page > 0 {
                    ResultView::Rows {
                        columns,
                        rows,
                        page: (page - 1) as usize,
                        page_size,
                        selected_row,
                    }
                } else {
                    self
                }
            },
            ResultView::AffectedRows(_) => self,
        }
    }

    /// The selected row, counted from the top of the page shown (0 for a
    /// count of changed rows).
    pub open spec fn selected_row(self) -> nat {
        match self {
            ResultView::Rows { selected_row, .. } => selected_row as nat,
            ResultView::AffectedRows(_) => 0,
        }
    }

    /// The result after selecting the next row of the page shown, stopping at
    /// its last row.
    pub open spec fn after_next_row(self) -> ResultView {
        match self {
            ResultView::Rows { columns, rows, page, page_size, selected_row } => {
                if selected_row + 1 < self.page_rows().len() {
                    ResultView::Rows {
                        columns,
                        rows,
                        page,
                        page_size,
                        selected_row: (selected_row + 1) as usize,
                    }
                } else {
                    self
                }
            },
            ResultView::AffectedRows(_) => self,
        }
    }

    /// The result after selecting the previous row, stopping at the first.
    pub open spec fn after_prev_row(self) -> ResultView {
        match self {
            ResultView::Rows { columns, rows, page, page_size, selected_row } => {
                if selected_row > 0 {
                    ResultView::Rows {
                        columns,
                        rows,
                        page,
                        page_size,
                        selected_row: (selected_row - 1) as usize,
                    }
                } else {
                    self
                }
            },
            ResultView::AffectedRows(_) => self,
        }
    }

    /// This result with the page `p` shown.
    pub open spec fn with_page(self, p: usize) -> ResultView {
        match self {
            ResultView::Rows { columns, rows, page_size, selected_row, .. } => ResultView::Rows {
                columns,
                rows,
                page: p,
                page_size,
                selected_row,
            },
            ResultView::AffectedRows(_) => self,
        }
    }

    /// Paging can be asked of this result: a page holds at least one row.
    pub open spec fn pageable(self) -> bool {
        match self {
            ResultView::Rows { rows, page_size, .. } => rows.len() > 0 ==> page_size > 0,
            ResultView::AffectedRows(_) => true,
        }
    }

    /// The rows of the page shown can be taken: the page starts within the
    /// rows, and its end can be computed.
    pub open spec fn page_in_range(self) -> bool {
        match self {
            ResultView::Rows { rows, page, page_size, .. } => {
                &&& page * page_size + page_size <= usize::MAX
                &&& page * page_size <= rows.len()
            },
            ResultView::AffectedRows(_) => true,
        }
    }

    /// The page shown exists: it is at most the last page.
    pub open spec fn well_formed(self) -> bool {
        match self {
            ResultView::Rows { rows, page, page_size, .. } => {
                &&& page_size > 0
                &&& (page as nat) <= last_page_for(rows.len(), page_size as nat)
                &&& last_page_for(rows.len(), page_size as nat) * page_size + page_size
                    <= usize::MAX
            },
            ResultView::AffectedRows(_) => true,
        }
    }
}

impl QueryResult {
    /// The number of rows shown on one page.
    pub const PAGE_SIZE: usize = 20;

    /// Whether this result is well-formed: a page holds at least one row, the
    /// page shown exists, and the end of the last page can be computed.
    pub fn is_well_formed(&self) -> (b: bool)
        ensures
            b == self@.well_formed(),
    {
        match self {
            QueryResult::Rows { rows, page, page_size, .. } => {
                if *page_size == 0 {
                    return false;
                }
                let last = if rows.len() == 0 {
                    0
                } else {
                    (rows.len() - 1) / *page_size
                };
                proof {
                    if rows.len() > 0 {
                        lemma_div_le(rows.len() - 1, *page_size as int);
                    }
                }
                if *page > last {
                    return false;
                }
                match last.checked_mul(*page_size) {
                    Some(end) => end.checked_add(*page_size).is_some(),
                    None => false,
                }
            },
            QueryResult::AffectedRows(_) => true,
        }
    }

    /// The number of pages (at least one).
    pub fn page_count(&self) -> (n: usize)
        requires
            self@.pageable(),
        ensures
            n == self@.page_count(),
    {
        match self {
            QueryResult::Rows { rows, page_size, .. } => {
                if rows.len() == 0 {
                    1
                } else {
                    let n = rows.len();
                    proof {
                        lemma_div_ceil(n as int, *page_size as int);
                    }
                    if n % *page_size > 0 {
                        n / *page_size + 1
                    } else {
                        n / *page_size
                    }
                }
            },
            QueryResult::AffectedRows(_) => 1,
        }
    }

    /// The index of the page shown (0 for a count of changed rows).
    pub fn current_page(&self) -> (p: usize)
        ensures
            p == self@.current_page(),
    {
        match self {
            QueryResult::Rows { page, .. } => *page,
            QueryResult::AffectedRows(_) => 0,
        }
    }

    /// The rows of the page shown (none for a count of changed rows).
    pub fn current_page_rows(&self) -> (r: &[Vec<String>])
        requires
            self@.page_in_range(),
        ensures
            r.deep_view() == self@.page_rows(),
    {
        match self {
            QueryResult::Rows { rows, page, page_size, .. } => {
                let start = *page * *page_size;
                let end = if start + *page_size < rows.len() {
                    start + *page_size
                } else {
                    rows.len()
                };
                let r = &rows.as_slice()[start..end];
                assert(r.deep_view() =~= self@.page_rows());
                r
            },
            QueryResult::AffectedRows(_) => {
                let r: &[Vec<String>] = &[];
                assert(r.deep_view() =~= self@.page_rows());
                r
            },
        }
    }

    /// Moves one page forward unless the last page is shown.
    pub fn next_page(&mut self)
        requires
            old(self)@.pageable(),
        ensures
            final(self)@ == old(self)@.after_next_page(),
    {
        match self {
            QueryResult::Rows { page, page_size, rows, .. } => {
                let max_page = if rows.len() == 0 {
                    0
                } else {
                    (rows.len() - 1) / *page_size
                };
                if *page < max_page {
                    *page = *page + 1;
                }
            },
            QueryResult::AffectedRows(_) => {},
        }
    }

    /// Moves one page back unless the first page is shown.
    pub fn prev_page(&mut self)
        ensures
            final(self)@ == old(self)@.after_prev_page(),
    {
        match self {
            QueryResult::Rows { page, .. } => {
                if *page > 0 {
                    *page = *page - 1;
                }
            },
            QueryResult::AffectedRows(_) => {},
        }
    }

    /// The selected row, counted from the top of the page shown (0 for a
    /// count of changed rows).
    pub fn selected_row(&self) -> (i: usize)
        ensures
            i == self@.selected_row(),
    {
        match self {
            QueryResult::Rows { selected_row, .. } => *selected_row,
            QueryResult::AffectedRows(_) => 0,
        }
    }

    /// Selects the next row of the page shown, unless its last row is
    /// selected.
    pub fn select_next_row(&mut self)
        requires
            old(self)@.page_in_range(),
        ensures
            final(self)@ == old(self)@.after_next_row(),
    {
        let count = self.current_page_rows().len();
        match self {
            QueryResult::Rows { selected_row, .. } => {
                if *selected_row < count && *selected_row + 1 < count {
                    *selected_row = *selected_row + 1;
                }
            },
            QueryResult::AffectedRows(_) => {},
        }
    }

    /// Selects the previous row, unless the first row is selected.
    pub fn select_prev_row(&mut self)
        ensures
            final(self)@ == old(self)@.after_prev_row(),
    {
        match self {
            QueryResult::Rows { selected_row, .. } => {
                if *selected_row > 0 {
                    *selected_row = *selected_row - 1;
                }
            },
            QueryResult::AffectedRows(_) => {},
        }
    }
}

// ── ConnectionForm ───────────────────────────────────────────────────────────

/// The number of fields of the connection form.
pub const FORM_FIELD_COUNT: usize = 6;

/// The labels of the connection form's fields, in order.
pub const FORM_FIELD_NAMES: [&'static str; 6] = ["Name", "Host", "Port", "Database", "Username", "Password"];

/// The form in which a new connection is entered: one text per field, the
/// field that has the focus, and whether its text is being typed.
#[derive(Debug)]
pub struct ConnectionForm {
    pub values: [String; 6],
    pub active_field: usize,
    pub editing: bool,
}

/// A connection form as mathematical values.
pub struct FormView {
    pub values: Seq<Seq<char>>,
    pub active_field: usize,
    pub editing: bool,
}

impl View for ConnectionForm {
    type V = FormView;

    open spec fn view(&self) -> FormView {
        FormView {
            values: self.values.deep_view(),
            active_field: self.active_field,
            editing: self.editing,
        }
    }
}

/// The message when the name is left empty.
pub open spec fn name_required_message() -> Seq<char> {
    "Name is required"@
}

/// The message when the port is not a 16-bit number.
pub open spec fn port_invalid_message() -> Seq<char> {
    "Port must be a number (1–65535)"@
}

/// The message when the database is left empty.
pub open spec fn database_required_message() -> Seq<char> {
    "Database is required"@
}

impl FormView {
    /// The settings that the form holds, or why it holds none: the name must
    /// be given, the port must parse as a 16-bit number, and the database must
    /// be given, checked in that order.
    pub open spec fn to_config(self) -> Result<ConfigView, Seq<char>> {
        if self.values[0].len() == 0 {
            Err(name_required_message())
        } else if text::parse_u16(self.values[2]) is None {
            Err(port_invalid_message())
        } else if self.values[3].len() == 0 {
            Err(database_required_message())
        } else {
            Ok(
                ConfigView {
                    name: self.values[0],
                    host: self.values[1],
                    port: text::parse_u16(self.values[2])->0,
                    database: self.values[3],
                    username: self.values[4],
                    password: self.values[5],
                },
            )
        }
    }

    /// The form after moving the focus to the next field, from the last back
    /// to the first.
    pub open spec fn after_next_field(self) -> FormView {
        FormView { active_field: ((self.active_field + 1) % 6) as usize, ..self }
    }

    /// The form after moving the focus to the previous field, from the first
    /// round to the last.
    pub open spec fn after_prev_field(self) -> FormView {
        FormView {
            active_field: if self.active_field == 0 {
                5
            } else {
                (self.active_field - 1) as usize
            },
            ..self
        }
    }
}

/// The form that a new connection starts from.
pub open spec fn default_form() -> FormView {
    FormView {
        values: seq![Seq::empty(), "localhost"@, "5432"@, Seq::empty(), "postgres"@, Seq::empty()],
        active_field: 0,
        editing: false,
    }
}

/// The form that shows the settings `c`.
pub open spec fn form_of(c: ConfigView) -> FormView {
    FormView {
        values: seq![c.name, c.host, text::decimal(c.port as nat), c.database, c.username, c.password],
        active_field: 0,
        editing: false,
    }
}

/// The result of `to_config` as mathematical values.
pub open spec fn config_result_view(r: Result<ConnectionConfig, String>) -> Result<
    ConfigView,
    Seq<char>,
> {
    match r {
        Ok(c) => Ok(c@),
        Err(e) => Err(e@),
    }
}

impl Default for ConnectionForm {
    fn default() -> (f: Self)
        ensures
            f@ == default_form(),
    {
        let f = ConnectionForm {
            values: [
                String::new(),
                "localhost".to_string(),
                "5432".to_string(),
                String::new(),
                "postgres".to_string(),
                String::new(),
            ],
            active_field: 0,
            editing: false,
        };
        proof {
            broadcast use vstd::array::group_array_axioms;

            assert(f.values@.len() == 6);
            assert(f.values@[0]@ == Seq::<char>::empty());
            assert(f.values@[1]@ == "localhost"@);
            assert(f.values@[2]@ == "5432"@);
            assert(f.values@[3]@ == Seq::<char>::empty());
            assert(f.values@[4]@ == "postgres"@);
            assert(f.values@[5]@ == Seq::<char>::empty());
            assert(f@.values =~= default_form().values);
        }
        f
    }
}

impl ConnectionForm {
    /// A form that shows the settings `cfg`, its first field in focus.
    pub fn from_config(cfg: &ConnectionConfig) -> (f: Self)
        ensures
            f@ == form_of(cfg@),
    {
        let f = ConnectionForm {
            values: [
                cfg.name.clone(),
                cfg.host.clone(),
                decimal_string(cfg.port as u64),
                cfg.database.clone(),
                cfg.username.clone(),
                cfg.password.clone(),
            ],
            active_field: 0,
            editing: false,
        };
        assert(f@.values =~= form_of(cfg@).values);
        f
    }

    /// A copy of this form.
    pub fn duplicate(&self) -> (f: Self)
        ensures
            f@ == self@,
    {
        let f = ConnectionForm {
            values: [
                self.values[0].clone(),
                self.values[1].clone(),
                self.values[2].clone(),
                self.values[3].clone(),
                self.values[4].clone(),
                self.values[5].clone(),
            ],
            active_field: self.active_field,
            editing: self.editing,
        };
        assert(f@.values =~= self@.values);
        f
    }

    /// The settings that the form holds, or the message that says what is missing.
    pub fn to_config(&self) -> (r: Result<ConnectionConfig, String>)
        ensures
            config_result_view(r) == self@.to_config(),
    {
        if self.values[0].as_str().is_empty() {
            return Err("Name is required".to_string());
        }
        let port = match parse_port_number(self.values[2].as_str()) {
            Some(p) => p,
            None => {
                return Err("Port must be a number (1–65535)".to_string());
            },
        };
        if self.values[3].as_str().is_empty() {
            return Err("Database is required".to_string());
        }
        Ok(
            ConnectionConfig {
                name: self.values[0].clone(),
                host: self.values[1].clone(),
                port,
                database: self.values[3].clone(),
                username: self.values[4].clone(),
                password: self.values[5].clone(),
            },
        )
    }

    /// Moves the focus to the next field, from the last back to the first.
    pub fn next_field(&mut self)
        requires
            old(self).active_field < usize::MAX,
        ensures
            final(self)@ == old(self)@.after_next_field(),
    {
        self.active_field = (self.active_field + 1) % FORM_FIELD_COUNT;
    }

    /// Moves the focus to the previous field, from the first round to the last.
    pub fn prev_field(&mut self)
        ensures
            final(self)@ == old(self)@.after_prev_field(),
    {
        if self.active_field == 0 {
            self.active_field = FORM_FIELD_COUNT - 1;
        } else {
            self.active_field = self.active_field - 1;
        }
    }

    /// The text of the field in focus, to be changed in place.
    pub fn active_value_mut(&mut self) -> (r: &mut String)
        requires
            old(self).active_field < 6,
        ensures
            *r == old(self).values[old(self).active_field as int],
            final(self).values@ == old(self).values@.update(old(self).active_field as int, *final(r)),
            final(self).active_field == old(self).active_field,
            final(self).editing == old(self).editing,
    {
        &mut self.values[self.active_field]
    }

    /// Appends `c` to the text of the field in focus.
    pub fn push_to_active(&mut self, c: char)
        requires
            old(self).active_field < 6,
        ensures
            final(self)@ == (FormView {
                values: old(self)@.values.update(
                    old(self).active_field as int,
                    old(self)@.values[old(self).active_field as int].push(c),
                ),
                ..old(self)@
            }),
    {
        let ghost i = self.active_field as int;
        push_char(self.active_value_mut(), c);
        assert(self@.values =~= old(self)@.values.update(i, old(self)@.values[i].push(c)));
    }

    /// Erases the last character of the text of the field in focus, if it has one.
    pub fn erase_from_active(&mut self)
        requires
            old(self).active_field < 6,
        ensures
            final(self)@ == (FormView {
                values: old(self)@.values.update(
                    old(self).active_field as int,
                    text::without_last(old(self)@.values[old(self).active_field as int]),
                ),
                ..old(self)@
            }),
    {
        let ghost i = self.active_field as int;
        erase_last(self.active_value_mut());
        assert(self@.values =~= old(self)@.values.update(i, text::without_last(old(self)@.values[i])));
    }
}

} // verus!

verus! {

// ── Laws ─────────────────────────────────────────────────────────────────────

/// A form filled from complete settings gives exactly those settings back.
pub proof fn lemma_form_round_trip(c: ConfigView)
    requires
        c.name.len() > 0,
        c.database.len() > 0,
    ensures
        form_of(c).to_config() == Ok::<ConfigView, Seq<char>>(c),
{
    crate::text::lemma_parse_decimal(c.port);
}

/// Moving the focus forward and then back, or back and then forward, returns
/// the form to where it was.
pub proof fn lemma_field_moves_undo(f: FormView)
    requires
        f.active_field < 6,
    ensures
        f.after_next_field().after_prev_field() == f,
        f.after_prev_field().after_next_field() == f,
{
}

/// Six moves forward bring the focus back to the same field.
pub proof fn lemma_field_cycle(f: FormView)
    requires
        f.active_field < 6,
    ensures
        f.after_next_field().after_next_field().after_next_field().after_next_field().after_next_field().after_next_field()
            == f,
{
}

/// The focus always stays on one of the six fields.
pub proof fn lemma_field_moves_stay_in_form(f: FormView)
    ensures
        f.after_next_field().active_field < 6,
        f.active_field < 6 ==> f.after_prev_field().active_field < 6,
{
}

/// A well-formed result can be paged, its page can be shown, and paging keeps
/// it well-formed; the page shown is one of its pages.
pub proof fn lemma_paging_keeps_well_formed(r: ResultView)
    requires
        r.well_formed(),
    ensures
        r.pageable(),
        r.page_in_range(),
        r.current_page() < r.page_count(),
        r.after_next_page().well_formed(),
        r.after_prev_page().well_formed(),
{
    match r {
        ResultView::Rows { rows, page, page_size, .. } => {
            lemma_last_page_bounds(rows.len(), page_size as nat, page as nat);
            if (page as nat) < last_page_for(rows.len(), page_size as nat) {
                lemma_last_page_bounds(rows.len(), page_size as nat, (page + 1) as nat);
            }
        },
        ResultView::AffectedRows(_) => {},
    }
}

/// For a page index `p` up to the last page: the page starts within the rows,
/// and the page count is one more than the last page's index.
proof fn lemma_last_page_bounds(n: nat, size: nat, p: nat)
    requires
        size > 0,
        p <= last_page_for(n, size),
    ensures
        p * size <= n,
        n > 0 ==> p * size < n,
        p * size <= last_page_for(n, size) * size,
        p * size + size == (p + 1) * size,
        last_page_for(n, size) <= last_page_for(n, size) * size,
        pages_for(n, size) == last_page_for(n, size) + 1,
{
    lemma_mul_le(p as int, last_page_for(n, size) as int, size as int);
    lemma_mul_le(1, size as int, last_page_for(n, size) as int);
    if n > 0 {
        lemma_last_page_arith(n as int, size as int, p as int);
    }
}

proof fn lemma_mul_le(a: int, b: int, c: int)
    by (nonlinear_arith)
    requires
        0 <= a <= b,
        c >= 0,
    ensures
        a * c <= b * c,
        a * c + c == (a + 1) * c,
{
}

proof fn lemma_last_page_arith(n: int, size: int, p: int)
    by (nonlinear_arith)
    requires
        n > 0,
        size > 0,
        0 <= p <= (n - 1) / size,
    ensures
        p * size < n,
        (n + size - 1) / size == (n - 1) / size + 1,
{
    assert(p * size <= ((n - 1) / size) * size);
}

/// Moving a page forward and back again shows the same page, unless the last
/// page was shown; moving back and forward again does too, unless the first
/// page was shown.
pub proof fn lemma_page_moves_undo(r: ResultView)
    requires
        r.well_formed(),
    ensures
        r.current_page() + 1 < r.page_count() ==> r.after_next_page().after_prev_page() == r,
        r.current_page() > 0 ==> r.after_prev_page().after_next_page() == r,
{
    if let ResultView::Rows { rows, page, page_size, .. } = r {
        lemma_last_page_bounds(rows.len(), page_size as nat, page as nat);
    }
}

/// Every page but the last holds a full page of rows; the last holds the rest,
/// at least one row when there are rows.
pub proof fn lemma_page_sizes(r: ResultView)
    requires
        r.well_formed(),
        r is Rows,
    ensures
        r.current_page() + 1 < r.page_count() ==> r.page_rows().len() == r->page_size,
        r->rows.len() > 0 ==> r.page_rows().len() > 0,
        r.page_rows().len() <= r->page_size,
{
    lemma_paging_keeps_well_formed(r);
    let n = r->rows.len();
    let size = r->page_size as nat;
    let p = r->page as nat;
    lemma_last_page_bounds(n, size, p);
    if p + 1 < pages_for(n, size) {
        lemma_last_page_bounds(n, size, p + 1);
    }
}

/// The rows of the first `k` pages of `r`, one page after the other.
pub open spec fn rows_of_pages(r: ResultView, k: nat) -> Seq<Seq<Seq<char>>>
    decreases k,
{
    if k == 0 {
        Seq::empty()
    } else {
        rows_of_pages(r, (k - 1) as nat) + r.with_page((k - 1) as usize).page_rows()
    }
}

/// The last page reaches the last row.
proof fn lemma_last_page_reaches_end(n: int, size: int)
    by (nonlinear_arith)
    requires
        n > 0,
        size > 0,
    ensures
        ((n - 1) / size + 1) * size >= n,
{
}

/// The first `k` pages hold the first `k` pages' worth of rows, in order.
proof fn lemma_pages_prefix(r: ResultView, k: nat)
    requires
        r is Rows,
        r->page_size > 0,
        r->rows.len() <= usize::MAX,
        k <= r.page_count(),
    ensures
        rows_of_pages(r, k) == r->rows.subrange(
            0,
            if k * r->page_size < r->rows.len() {
                k * r->page_size
            } else {
                r->rows.len() as int
            },
        ),
    decreases k,
{
    let rows = r->rows;
    let n = rows.len();
    let size = r->page_size as nat;
    lemma_last_page_bounds(n, size, 0);
    if k > 0 {
        let p = (k - 1) as nat;
        lemma_pages_prefix(r, p);
        lemma_last_page_bounds(n, size, p);
        let start = (p * size) as int;
        let end = if k * size < n {
            (k * size) as int
        } else {
            n as int
        };
        assert(r.with_page(p as usize).page_rows() == rows.subrange(start, end));
        assert(rows.subrange(0, start) + rows.subrange(start, end) =~= rows.subrange(0, end));
    }
}

/// Taken in order, the pages of a result give back all its rows, each exactly
/// once and with no gap; and when there are rows, no page is empty.
pub proof fn lemma_pages_cover_rows(r: ResultView)
    requires
        r is Rows,
        r->page_size > 0,
        r->rows.len() <= usize::MAX,
    ensures
        rows_of_pages(r, r.page_count()) == r->rows,
        forall|p: nat|
            p < r.page_count() && r->rows.len() > 0 ==> #[trigger] r.with_page(
                p as usize,
            ).page_rows().len() > 0,
{
    let rows = r->rows;
    let n = rows.len();
    let size = r->page_size as nat;
    lemma_last_page_bounds(n, size, 0);
    lemma_pages_prefix(r, r.page_count());
    if n > 0 {
        lemma_last_page_reaches_end(n as int, size as int);
    }
    assert(rows.subrange(0, n as int) =~= rows);
    assert forall|p: nat| p < r.page_count() && r->rows.len() > 0 implies #[trigger] r.with_page(
        p as usize,
    ).page_rows().len() > 0 by {
        lemma_last_page_bounds(n, size, p);
    }
}

/// Selecting another row changes only the selection: the rows and the page
/// shown stay. The selection stays on a row of the page shown when it was on
/// one; selecting the next row and then the previous one gives the result
/// back unless the last row of the page was selected, and selecting the
/// previous row and then the next one does too unless the first was.
pub proof fn lemma_row_moves(r: ResultView)
    requires
        r is Rows,
    ensures
        r.after_next_row().page_rows() == r.page_rows(),
        r.after_prev_row().page_rows() == r.page_rows(),
        r.after_next_row().current_page() == r.current_page(),
        r.after_prev_row().current_page() == r.current_page(),
        r.selected_row() < r.page_rows().len() ==> r.after_next_row().selected_row()
            < r.page_rows().len() && r.after_prev_row().selected_row() < r.page_rows().len(),
        r.selected_row() + 1 < r.page_rows().len() && r.selected_row() < usize::MAX
            ==> r.after_next_row().after_prev_row() == r,
        0 < r.selected_row() < r.page_rows().len() ==> r.after_prev_row().after_next_row() == r,
{
}

} // verus!
