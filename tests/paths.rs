use dialog_prompts::completers::{
    collapse_separators, complete_path, lookup_dir, split_path, Completion, DirEntryName,
    PathCompleter, Suffix,
};
use dialog_prompts::tools::{escape_path, wrap_sep_string};

fn entry(name: &str, is_dir: bool) -> DirEntryName {
    DirEntryName { name: name.to_string(), is_dir }
}

fn sample_dir() -> Vec<DirEntryName> {
    vec![entry("a.txt", false), entry("b", true), entry("abc", false)]
}

fn find<'a>(cs: &'a [Completion], text: &str) -> &'a Completion {
    cs.iter().find(|c| c.completion == text).expect("candidate missing")
}

#[test]
fn test_split_path() {
    assert_eq!(split_path(""), (None, ""));
    assert_eq!(split_path(""), (None, ""));
}

#[test]
fn split_path_cuts_after_last_separator() {
    assert_eq!(split_path("a/b/cd"), (Some("a/b/"), "cd"));
    assert_eq!(split_path("name"), (None, "name"));
    assert_eq!(split_path("dir/"), (Some("dir/"), ""));
    assert_eq!(split_path("/"), (Some("/"), ""));
}

#[test]
fn lookup_dir_defaults_to_current() {
    assert_eq!(lookup_dir("abc"), ".");
    assert_eq!(lookup_dir("src/ma"), "src/");
}

#[test]
fn collapse_joins_doubled_separators() {
    assert_eq!(collapse_separators("a//b///c"), "a/b/c");
    assert_eq!(collapse_separators("//x//"), "/x/");
    assert_eq!(collapse_separators("plain"), "plain");
    assert_eq!(collapse_separators(""), "");
}

#[test]
fn escape_path_backslashes_specials() {
    assert_eq!(escape_path("my file (1).txt"), "my\\ file\\ \\(1\\).txt");
    assert_eq!(escape_path("a&b;c$d"), r"a\&b\;c\$d");
    assert_eq!(escape_path("x\\y"), "x\\\\y");
}

#[test]
fn escape_path_keeps_plain_text() {
    assert_eq!(escape_path("plain-name_1.rs"), "plain-name_1.rs");
    assert_eq!(escape_path(""), "");
}

#[test]
fn escape_path_idempotent_only_on_plain() {
    let plain = "abc.txt";
    assert_eq!(escape_path(&escape_path(plain)), escape_path(plain));
    let special = "a b";
    let once = escape_path(special);
    assert_ne!(escape_path(&once), once);
}

#[test]
fn wrap_with_quote_escapes_quote() {
    assert_eq!(wrap_sep_string("'", "it's"), "'it\\'s'");
    assert_eq!(wrap_sep_string("'", "a b"), "'a b'");
}

#[test]
fn wrap_with_nonempty_sep_encloses() {
    let w = wrap_sep_string("\"", "x\"y\"");
    assert!(w.starts_with('"') && w.ends_with('"'));
    assert_eq!(w, "\"x\\\"y\\\"\"");
}

#[test]
fn wrap_with_empty_sep_escapes_spaces() {
    assert_eq!(wrap_sep_string("", "a b"), "a\\ b");
}

#[test]
fn wrap_with_empty_sep_keeps_spaces_in_quotes() {
    assert_eq!(wrap_sep_string("", "say \"a b\" c"), "say\\ \"a b\"\\ c");
    assert_eq!(wrap_sep_string("", "x=`a b`"), "x=`a b`");
}

#[test]
fn complete_empty_fragment_offers_all() {
    let cs = PathCompleter.complete("", &sample_dir());
    assert_eq!(cs.len(), 3);
    assert_eq!(find(&cs, "a.txt").suffix, Suffix::Default);
    assert_eq!(find(&cs, "abc").suffix, Suffix::Default);
    assert_eq!(find(&cs, "b").suffix, Suffix::Separator);
    assert!(cs.iter().all(|c| c.display.is_none()));
}

#[test]
fn complete_prefix_filters() {
    let cs = PathCompleter.complete("a", &sample_dir());
    let mut names: Vec<&str> = cs.iter().map(|c| c.completion.as_str()).collect();
    names.sort();
    assert_eq!(names, vec!["a.txt", "abc"]);
}

#[test]
fn complete_collapses_every_doubled_separator() {
    let cs = complete_path("a//x", false, &vec![entry("xy", false)]);
    assert_eq!(cs.len(), 1);
    assert_eq!(cs[0].completion, "a/xy");
    assert_eq!(cs[0].display.as_deref(), Some("xy"));
}

#[test]
fn complete_directories_only() {
    let cs = complete_path("", true, &sample_dir());
    assert_eq!(cs.len(), 1);
    assert_eq!(cs[0].completion, "b");
}

#[test]
fn complete_under_directory_shows_bare_name() {
    let entries = vec![entry("main.rs", false), entry("lib.rs", false), entry("my mod", true)];
    let cs = complete_path("src/m", false, &entries);
    assert_eq!(cs.len(), 2);
    assert_eq!(cs[0].completion, "src/main.rs");
    assert_eq!(cs[0].display.as_deref(), Some("main.rs"));
    assert_eq!(cs[1].completion, "src/my\\ mod");
    assert_eq!(cs[1].display.as_deref(), Some("my mod"));
    assert_eq!(cs[1].suffix, Suffix::Separator);
}
