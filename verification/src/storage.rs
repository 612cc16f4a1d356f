//! Where the application keeps its files, and which directory entries are
//! saved connections and saved queries.
//!
//! Paths are text here. The home directory is handed in by the caller; the
//! layout under it is:
//!
//! ```text
//! <home>/.squirrel/connections/<name>/config.toml
//! <home>/.squirrel/connections/<name>/queries/<query>.sql
//! ```
use vstd::prelude::*;

verus! {

broadcast use vstd::seq_lib::group_to_multiset_ensures;

// ── Paths ────────────────────────────────────────────────────────────────────

/// `base` extended by the path `part`, as `PathBuf::join` does on Unix: an
/// absolute `part` replaces `base`; otherwise a `/` is put between the two
/// unless `base` is empty or already ends in one.
pub open spec fn join_path(base: Seq<char>, part: Seq<char>) -> Seq<char> {
    if part.len() > 0 && part[0] == '/' {
        part
    } else if base.len() == 0 || base.last() == '/' {
        base + part
    } else {
        base + seq!['/'] + part
    }
}

/// The application's own directory under `home`.
pub open spec fn squirrel_dir_path(home: Seq<char>) -> Seq<char> {
    join_path(home, ".squirrel"@)
}

/// The directory that holds one directory per connection.
pub open spec fn connections_dir_path(home: Seq<char>) -> Seq<char> {
    join_path(squirrel_dir_path(home), "connections"@)
}

/// The directory of the connection `name`.
pub open spec fn connection_dir_path(home: Seq<char>, name: Seq<char>) -> Seq<char> {
    join_path(connections_dir_path(home), name)
}

/// The settings file of the connection `name`.
pub open spec fn connection_config_file(home: Seq<char>, name: Seq<char>) -> Seq<char> {
    join_path(connection_dir_path(home, name), "config.toml"@)
}

/// The directory of the saved queries of `connection`.
pub open spec fn queries_dir_path(home: Seq<char>, connection: Seq<char>) -> Seq<char> {
    join_path(connection_dir_path(home, connection), "queries"@)
}

/// The file of the saved query `query` of `connection`.
pub open spec fn query_file(home: Seq<char>, connection: Seq<char>, query: Seq<char>) -> Seq<
    char,
> {
    join_path(queries_dir_path(home, connection), query + ".sql"@)
}

/// `base` extended by the path `part` (`PathBuf::join` on Unix).
pub fn join(base: &str, part: &str) -> (p: String)
    ensures
        p@ == join_path(base@, part@),
{
    if part.unicode_len() > 0 && part.get_char(0) == '/' {
        return part.to_string();
    }
    let n = base.unicode_len();
    let mut p = base.to_string();
    if n > 0 && base.get_char(n - 1) != '/' {
        crate::text::push_char(&mut p, '/');
    }
    p.append(part);
    p
}

/// The application's own directory under `home`.
pub fn squirrel_dir(home: &str) -> (p: String)
    ensures
        p@ == squirrel_dir_path(home@),
{
    join(home, ".squirrel")
}

/// The directory that holds one directory per connection.
pub fn connections_dir(home: &str) -> (p: String)
    ensures
        p@ == connections_dir_path(home@),
{
    join(squirrel_dir(home).as_str(), "connections")
}

/// The directory of the connection `name`.
pub fn connection_dir(home: &str, name: &str) -> (p: String)
    ensures
        p@ == connection_dir_path(home@, name@),
{
    join(connections_dir(home).as_str(), name)
}

/// The settings file of the connection `name`.
pub fn connection_config_path(home: &str, name: &str) -> (p: String)
    ensures
        p@ == connection_config_file(home@, name@),
{
    join(connection_dir(home, name).as_str(), "config.toml")
}

/// The directory of the saved queries of `connection`.
pub fn queries_dir(home: &str, connection: &str) -> (p: String)
    ensures
        p@ == queries_dir_path(home@, connection@),
{
    join(connection_dir(home, connection).as_str(), "queries")
}

/// The file of the saved query `query_name` of `connection`.
pub fn query_path(home: &str, connection: &str, query_name: &str) -> (p: String)
    ensures
        p@ == query_file(home@, connection@, query_name@),
{
    let mut file = query_name.to_string();
    file.append(".sql");
    join(queries_dir(home, connection).as_str(), file.as_str())
}

// ── Renaming ─────────────────────────────────────────────────────────────────

/// Why a connection cannot be renamed to `name`: one of that name exists.
pub open spec fn connection_exists_message_of(name: Seq<char>) -> Seq<char> {
    "A connection named '"@ + name + "' already exists"@
}

/// Why a query cannot be renamed to `name`: one of that name exists.
pub open spec fn query_exists_message_of(name: Seq<char>) -> Seq<char> {
    "A query named '"@ + name + "' already exists"@
}

/// Why a connection cannot be renamed to `name`.
pub fn connection_exists_message(name: &str) -> (m: String)
    ensures
        m@ == connection_exists_message_of(name@),
{
    let mut m = "A connection named '".to_string();
    m.append(name);
    m.append("' already exists");
    m
}

/// Why a query cannot be renamed to `name`.
pub fn query_exists_message(name: &str) -> (m: String)
    ensures
        m@ == query_exists_message_of(name@),
{
    let mut m = "A query named '".to_string();
    m.append(name);
    m.append("' already exists");
    m
}

// ── Ordering of names ────────────────────────────────────────────────────────

/// Whether `a` comes before `b` or equals it, comparing characters by code
/// point from the start and a prefix before the longer text (the order of
/// `String`).
pub open spec fn text_le(a: Seq<char>, b: Seq<char>) -> bool
    decreases a.len(),
{
    if a.len() == 0 {
        true
    } else if b.len() == 0 {
        false
    } else if a[0] != b[0] {
        a[0] < b[0]
    } else {
        text_le(a.drop_first(), b.drop_first())
    }
}

/// Whether the texts of `s` are in ascending order.
pub open spec fn sorted(s: Seq<Seq<char>>) -> bool {
    forall|i: int, j: int| 0 <= i < j < s.len() ==> text_le(#[trigger] s[i], #[trigger] s[j])
}

/// Any two texts are ordered one way or the other.
pub proof fn lemma_text_le_total(a: Seq<char>, b: Seq<char>)
    ensures
        text_le(a, b) || text_le(b, a),
    decreases a.len(),
{
    if a.len() > 0 && b.len() > 0 && a[0] == b[0] {
        lemma_text_le_total(a.drop_first(), b.drop_first());
    }
}

/// The order is transitive.
pub proof fn lemma_text_le_transitive(a: Seq<char>, b: Seq<char>, c: Seq<char>)
    requires
        text_le(a, b),
        text_le(b, c),
    ensures
        text_le(a, c),
    decreases a.len(),
{
    if a.len() > 0 && b.len() > 0 && c.len() > 0 && a[0] == b[0] && b[0] == c[0] {
        lemma_text_le_transitive(a.drop_first(), b.drop_first(), c.drop_first());
    }
}

/// Two texts that each come before the other are equal.
pub proof fn lemma_text_le_antisymmetric(a: Seq<char>, b: Seq<char>)
    requires
        text_le(a, b),
        text_le(b, a),
    ensures
        a == b,
    decreases a.len(),
{
    if a.len() > 0 && b.len() > 0 {
        lemma_text_le_antisymmetric(a.drop_first(), b.drop_first());
        assert(a =~= seq![a[0]] + a.drop_first());
        assert(b =~= seq![b[0]] + b.drop_first());
    }
}

/// Whether `a` comes before `b` or equals it.
pub fn text_le_exec(a: &str, b: &str) -> (r: bool)
    ensures
        r == text_le(a@, b@),
{
    let n = a.unicode_len();
    let m = b.unicode_len();
    let mut i: usize = 0;
    assert(a@.subrange(0, n as int) =~= a@);
    assert(b@.subrange(0, m as int) =~= b@);
    loop
        invariant
            i <= n,
            i <= m,
            n == a@.len(),
            m == b@.len(),
            text_le(a@, b@) == text_le(a@.subrange(i as int, n as int), b@.subrange(i as int, m as int)),
        decreases n - i,
    {
        let ghost sa = a@.subrange(i as int, n as int);
        let ghost sb = b@.subrange(i as int, m as int);
        if i == n {
            return true;
        }
        if i == m {
            return false;
        }
        let x = a.get_char(i);
        let y = b.get_char(i);
        assert(sa[0] == x && sb[0] == y);
        if x != y {
            return x < y;
        }
        assert(sa.drop_first() =~= a@.subrange(i + 1, n as int));
        assert(sb.drop_first() =~= b@.subrange(i + 1, m as int));
        i = i + 1;
    }
}

/// `names` in ascending order.
pub fn sort_names(names: Vec<String>) -> (r: Vec<String>)
    ensures
        sorted(r.deep_view()),
        r.deep_view().to_multiset() == names.deep_view().to_multiset(),
{
    let mut r: Vec<String> = Vec::new();
    let mut k: usize = 0;
    while k < names.len()
        invariant
            k <= names.len(),
            sorted(r.deep_view()),
            r.deep_view().to_multiset() == names.deep_view().subrange(0, k as int).to_multiset(),
        decreases names.len() - k,
    {
        let x = names[k].clone();
        let ghost s = r.deep_view();
        let mut pos: usize = r.len();
        while pos > 0 && !text_le_exec(r[pos - 1].as_str(), x.as_str())
            invariant
                pos <= r.len(),
                r.deep_view() == s,
                forall|j: int| pos <= j < s.len() ==> !text_le(#[trigger] s[j], x@),
            decreases pos,
        {
            pos = pos - 1;
        }
        proof {
            assert forall|i: int| 0 <= i < pos implies text_le(#[trigger] s[i], x@) by {
                if i < pos - 1 {
                    lemma_text_le_transitive(s[i], s[pos - 1], x@);
                }
            }
            assert forall|j: int| pos <= j < s.len() implies text_le(x@, #[trigger] s[j]) by {
                lemma_text_le_total(x@, s[j]);
            }
        }
        r.insert(pos, x);
        proof {
            let t = s.insert(pos as int, x@);
            assert(r.deep_view() =~= t);
            assert forall|i: int, j: int| 0 <= i < j < t.len() implies text_le(
                #[trigger] t[i],
                #[trigger] t[j],
            ) by {
                if j < pos {
                    assert(t[i] == s[i] && t[j] == s[j]);
                } else if j == pos {
                    assert(t[i] == s[i]);
                } else if i < pos {
                    assert(t[i] == s[i] && t[j] == s[j - 1]);
                    lemma_text_le_transitive(s[i], x@, s[j - 1]);
                } else if i == pos {
                    assert(t[j] == s[j - 1]);
                } else {
                    assert(t[i] == s[i - 1] && t[j] == s[j - 1]);
                }
            }
            let all = names.deep_view();
            assert(all.subrange(0, k + 1) =~= all.subrange(0, k as int).push(x@));
        }
        k = k + 1;
    }
    assert(names.deep_view().subrange(0, names.len() as int) =~= names.deep_view());
    r
}

// ── Saved connections and queries ────────────────────────────────────────────

/// One entry of the connections directory: its name, whether it is a
/// directory, and whether a settings file exists in it.
pub struct ConnectionEntry {
    pub name: String,
    pub is_dir: bool,
    pub has_config: bool,
}

/// Whether an entry of the connections directory is a saved connection.
pub open spec fn is_connection(e: ConnectionEntry) -> bool {
    e.is_dir && e.has_config
}

/// The names of the saved connections among `entries`.
pub open spec fn connection_entry_names(entries: Seq<ConnectionEntry>) -> Seq<Seq<char>>
    decreases entries.len(),
{
    if entries.len() == 0 {
        Seq::empty()
    } else {
        let rest = connection_entry_names(entries.drop_last());
        if is_connection(entries.last()) {
            rest.push(entries.last().name@)
        } else {
            rest
        }
    }
}

/// The names of the saved connections among `entries`, in ascending order:
/// the directories that hold a settings file.
pub fn connection_names(entries: &Vec<ConnectionEntry>) -> (r: Vec<String>)
    ensures
        sorted(r.deep_view()),
        r.deep_view().to_multiset() == connection_entry_names(entries@).to_multiset(),
{
    let mut names: Vec<String> = Vec::new();
    let mut k: usize = 0;
    while k < entries.len()
        invariant
            k <= entries.len(),
            names.deep_view() == connection_entry_names(entries@.subrange(0, k as int)),
        decreases entries.len() - k,
    {
        let ghost before = names.deep_view();
        assert(entries@.subrange(0, k + 1).drop_last() =~= entries@.subrange(0, k as int));
        if entries[k].is_dir && entries[k].has_config {
            names.push(entries[k].name.clone());
            assert(names.deep_view() =~= before.push(entries@[k as int].name@));
        }
        k = k + 1;
    }
    assert(entries@.subrange(0, entries.len() as int) =~= entries@);
    sort_names(names)
}

/// The query that the file named `file` holds, if it is a saved query: the
/// file name ends in `.sql` after at least one other character, and the
/// query's name is what comes before the `.sql`.
pub open spec fn query_of_file(file: Seq<char>) -> Option<Seq<char>> {
    if file.len() > 4 && file.subrange(file.len() - 4, file.len() as int) == ".sql"@ {
        Some(file.subrange(0, file.len() - 4))
    } else {
        None
    }
}

/// The names of the saved queries among the file names `files`.
pub open spec fn query_file_names(files: Seq<Seq<char>>) -> Seq<Seq<char>>
    decreases files.len(),
{
    if files.len() == 0 {
        Seq::empty()
    } else {
        let rest = query_file_names(files.drop_last());
        match query_of_file(files.last()) {
            Some(q) => rest.push(q),
            None => rest,
        }
    }
}

/// The query that the file named `file` holds, if it is a saved query.
pub fn query_name_of_file(file: &str) -> (r: Option<String>)
    ensures
        r.deep_view() == query_of_file(file@),
{
    let n = file.unicode_len();
    if n <= 4 {
        return None;
    }
    let tail = file.substring_char(n - 4, n);
    let suffix = ".sql".to_string();
    let tail_text = tail.to_string();
    if tail_text == suffix {
        Some(file.substring_char(0, n - 4).to_string())
    } else {
        None
    }
}

/// The names of the saved queries among the file names `files`, in ascending
/// order.
pub fn query_names(files: &Vec<String>) -> (r: Vec<String>)
    ensures
        sorted(r.deep_view()),
        r.deep_view().to_multiset() == query_file_names(files.deep_view()).to_multiset(),
{
    let mut names: Vec<String> = Vec::new();
    let mut k: usize = 0;
    while k < files.len()
        invariant
            k <= files.len(),
            names.deep_view() == query_file_names(files.deep_view().subrange(0, k as int)),
        decreases files.len() - k,
    {
        let ghost before = names.deep_view();
        assert(files.deep_view().subrange(0, k + 1).drop_last() =~= files.deep_view().subrange(
            0,
            k as int,
        ));
        match query_name_of_file(files[k].as_str()) {
            Some(q) => {
                names.push(q);
                assert(names.deep_view() =~= before.push(query_of_file(files@[k as int]@)->0));
            },
            None => {},
        }
        k = k + 1;
    }
    assert(files.deep_view().subrange(0, files.len() as int) =~= files.deep_view());
    sort_names(names)
}

} // verus!
