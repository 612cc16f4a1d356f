use squirrel::storage::{
    connection_config_path, connection_dir, connection_names, connections_dir, join, queries_dir,
    query_name_of_file, query_names, query_path, sort_names, squirrel_dir, text_le_exec,
    ConnectionEntry,
};

fn names(list: &[&str]) -> Vec<String> {
    list.iter().map(|s| s.to_string()).collect()
}

fn entry(name: &str, is_dir: bool, has_config: bool) -> ConnectionEntry {
    ConnectionEntry { name: name.to_string(), is_dir, has_config }
}

#[test]
fn paths_under_home() {
    assert_eq!(squirrel_dir("/home/u"), "/home/u/.squirrel");
    assert_eq!(connections_dir("/home/u/"), "/home/u/.squirrel/connections");
    assert_eq!(connection_dir("/home/u", "db"), "/home/u/.squirrel/connections/db");
    assert_eq!(connection_config_path("/home/u", "db"), "/home/u/.squirrel/connections/db/config.toml");
    assert_eq!(queries_dir("/home/u", "db"), "/home/u/.squirrel/connections/db/queries");
    assert_eq!(query_path("/home/u", "db", "all"), "/home/u/.squirrel/connections/db/queries/all.sql");
    assert_eq!(squirrel_dir("."), "./.squirrel");
}

#[test]
fn join_follows_path_rules() {
    assert_eq!(join("", "a"), "a");
    assert_eq!(join("a/", "b"), "a/b");
    assert_eq!(join("a", "/b"), "/b");
    assert_eq!(join("a", ""), "a/");
    let std_joined = std::path::PathBuf::from("x/y").join("z");
    assert_eq!(join("x/y", "z"), std_joined.to_str().unwrap());
}

#[test]
fn names_sort_as_strings_do() {
    let input = names(&["bbb", "aaa", "ccc", "B", "aa", "ä", "a"]);
    let mut expected = input.clone();
    expected.sort();
    assert_eq!(sort_names(input), expected);
    assert!(text_le_exec("abc", "abd"));
    assert!(text_le_exec("ab", "abc"));
    assert!(!text_le_exec("abc", "ab"));
    assert!(text_le_exec("", ""));
}

#[test]
fn connection_names_keep_configured_directories() {
    let entries = vec![
        entry("zeta", true, true),
        entry("notes.txt", false, false),
        entry("empty", true, false),
        entry("alpha", true, true),
    ];
    assert_eq!(connection_names(&entries), names(&["alpha", "zeta"]));
    assert!(connection_names(&vec![]).is_empty());
}

#[test]
fn query_names_keep_sql_files() {
    let files = names(&["zzz.sql", "aaa.sql", "readme.md", ".sql", "mmm.sql", "x.sql.bak", "a.b.sql"]);
    assert_eq!(query_names(&files), names(&["a.b", "aaa", "mmm", "zzz"]));
}

#[test]
fn query_name_of_file_matches_path_stem() {
    for file in ["a.sql", ".sql", "sql", "a.SQL", "..sql", "x.y.sql", "é.sql"] {
        let path = std::path::Path::new(file);
        let expected = if path.extension().and_then(|e| e.to_str()) == Some("sql") {
            path.file_stem().and_then(|s| s.to_str()).map(|s| s.to_string())
        } else {
            None
        };
        assert_eq!(query_name_of_file(file), expected, "file {file:?}");
    }
}
