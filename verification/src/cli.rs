//! The command line and the environment: which connection and query to open
//! at start, and which editor to run.
use vstd::prelude::*;

verus! {

/// What the command line asks for: a connection to open, and a query to select.
#[derive(Debug)]
pub struct CliArgs {
    pub connection: Option<String>,
    pub query: Option<String>,
}

/// Whether `arg` names the connection option.
pub open spec fn is_connection_flag(arg: Seq<char>) -> bool {
    arg == "--connection"@ || arg == "-c"@
}

/// Whether `arg` names the query option.
pub open spec fn is_query_flag(arg: Seq<char>) -> bool {
    arg == "--query"@ || arg == "-q"@
}

/// The options found in `args` from index `i` on, given those found before:
/// an option followed by a value takes that value (a later one wins); any
/// other argument, and an option with nothing after it, is skipped.
pub open spec fn scan_args(
    args: Seq<Seq<char>>,
    i: int,
    connection: Option<Seq<char>>,
    query: Option<Seq<char>>,
) -> (Option<Seq<char>>, Option<Seq<char>>)
    decreases args.len() - i,
{
    if i < 0 || i >= args.len() {
        (connection, query)
    } else if is_connection_flag(args[i]) && i + 1 < args.len() {
        scan_args(args, i + 2, Some(args[i + 1]), query)
    } else if is_query_flag(args[i]) && i + 1 < args.len() {
        scan_args(args, i + 2, connection, Some(args[i + 1]))
    } else {
        scan_args(args, i + 1, connection, query)
    }
}

/// The options of the command line `args`, whose first entry is the program.
pub open spec fn cli_of(args: Seq<Seq<char>>) -> (Option<Seq<char>>, Option<Seq<char>>) {
    scan_args(args, 1, None, None)
}

/// Reads the options `--connection`/`-c` and `--query`/`-q` from the command
/// line `args`, whose first entry is the program.
pub fn parse_args(args: &Vec<String>) -> (r: CliArgs)
    ensures
        (r.connection.deep_view(), r.query.deep_view()) == cli_of(args.deep_view()),
{
    let ghost all = args.deep_view();
    let long_connection = "--connection".to_string();
    let short_connection = "-c".to_string();
    let long_query = "--query".to_string();
    let short_query = "-q".to_string();
    let mut connection: Option<String> = None;
    let mut query: Option<String> = None;
    let mut i: usize = 1;
    while i < args.len()
        invariant
            1 <= i,
            all == args.deep_view(),
            long_connection@ == "--connection"@,
            short_connection@ == "-c"@,
            long_query@ == "--query"@,
            short_query@ == "-q"@,
            cli_of(all) == scan_args(all, i as int, connection.deep_view(), query.deep_view()),
        decreases args.len() - i,
    {
        let arg = &args[i];
        assert(all[i as int] == arg@);
        if (*arg == long_connection || *arg == short_connection) && i + 1 < args.len() {
            connection = Some(args[i + 1].clone());
            i = i + 2;
        } else if (*arg == long_query || *arg == short_query) && i + 1 < args.len() {
            query = Some(args[i + 1].clone());
            i = i + 2;
        } else {
            i = i + 1;
        }
    }
    CliArgs { connection, query }
}

/// The editor to run: `$EDITOR` if set, else `$VISUAL`, else `vi`.
pub open spec fn editor_of(editor: Option<Seq<char>>, visual: Option<Seq<char>>) -> Seq<char> {
    match editor {
        Some(e) => e,
        None => match visual {
            Some(v) => v,
            None => "vi"@,
        },
    }
}

/// The editor to run, given the values of `$EDITOR` and `$VISUAL`.
pub fn choose_editor(editor: Option<String>, visual: Option<String>) -> (e: String)
    ensures
        e@ == editor_of(editor.deep_view(), visual.deep_view()),
{
    match editor {
        Some(e) => e,
        None => match visual {
            Some(v) => v,
            None => "vi".to_string(),
        },
    }
}

} // verus!
