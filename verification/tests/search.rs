use tiny_grep::{run, search, Config, Entry, PathNode, SearchError, SearchOptions, Theme};

fn hello_world() -> PathNode {
    PathNode::File {
        contents: String::from(
            "hello world.\nfello world.\nWorld Hello World.\nhello you hello world.\n",
        ),
    }
}

fn poem_text() -> String {
    String::from(
        "I'm nobody! Who are you?\nAre you nobody, too?\nThen there's a pair of us - don't tell!\nThey'd banish us, you know.\n\nHow dreary to be somebody!\nHow public, like a frog\nTo tell your name the livelong day\nTo an admiring bog!\n",
    )
}

fn poem() -> PathNode {
    PathNode::File { contents: poem_text() }
}

fn file(path: &str, contents: &str) -> Entry {
    Entry { path: String::from(path), node: PathNode::File { contents: String::from(contents) } }
}

fn plain(case_sensitive: bool) -> SearchOptions {
    SearchOptions { case_sensitive, line_numbered: false, colored: false, theme: Theme::Blue }
}

#[test]
fn search_single_file_case_insensitive() {
    let query = "hello";

    assert_eq!(
        vec!["hello world.", "World Hello World.", "hello you hello world."],
        search(
            query,
            &hello_world(),
            &SearchOptions {
                case_sensitive: false,
                line_numbered: false,
                colored: false,
                theme: Theme::Blue
            },
        )
        .expect("Should not fail")
    );
}

#[test]
fn search_single_file_case_sensitive() {
    let query = "hello";

    assert_eq!(
        vec!["hello world.", "hello you hello world."],
        search(
            query,
            &hello_world(),
            &SearchOptions {
                case_sensitive: true,
                line_numbered: false,
                colored: false,
                theme: Theme::Blue
            }
        )
        .expect("Should not fail")
    );
}

#[test]
fn run_single_file_case_insensitive() {
    let lines = run(
        Config::new(
            String::from("you"),
            String::from("./tests/poem.txt"),
            false,
            false,
            false,
            Theme::Blue,
        ),
        &poem(),
    )
    .expect("Expect to run successfully");
    assert_eq!(
        lines,
        vec![
            "I'm nobody! Who are you?",
            "Are you nobody, too?",
            "They'd banish us, you know.",
            "To tell your name the livelong day",
        ]
    );
}

#[test]
fn run_single_file_case_sensitive() {
    let lines = run(
        Config::new(
            String::from("you"),
            String::from("./tests/poem.txt"),
            true,
            false,
            false,
            Theme::Blue,
        ),
        &poem(),
    )
    .expect("Expect to run successfully");
    assert_eq!(lines.len(), 4);
    assert_eq!(lines[0], "I'm nobody! Who are you?");
}

#[test]
fn run_directory() {
    let tree = PathNode::Directory {
        entries: vec![
            file("./tests/grep.rs", "fn main() {}\n"),
            file("./tests/hello_world.txt", "hello world.\nhello you hello world.\n"),
            Entry { path: String::from("./tests/poem.txt"), node: poem() },
        ],
    };
    let lines = run(
        Config::new(String::from("you"), String::from("./tests"), true, false, false, Theme::Blue),
        &tree,
    )
    .expect("Expect to run successfully");
    assert_eq!(
        lines,
        vec![
            "",
            "./tests/hello_world.txt",
            "hello you hello world.",
            "",
            "./tests/poem.txt",
            "I'm nobody! Who are you?",
            "Are you nobody, too?",
            "They'd banish us, you know.",
            "To tell your name the livelong day",
        ]
    );
}

#[test]
fn insensitive_search_finds_both_casings() {
    let node = PathNode::File {
        contents: String::from("hello world.\nfello world.\nWorld Hello World.\n"),
    };
    let lines = search("hello", &node, &plain(false)).unwrap();
    assert_eq!(lines, vec!["hello world.", "World Hello World."]);
}

#[test]
fn sensitive_search_finds_exact_casing_only() {
    let node = PathNode::File {
        contents: String::from("Hello world.\nhello world.\nWorld Hello world.\n"),
    };
    let lines = search("hello", &node, &plain(true)).unwrap();
    assert_eq!(lines, vec!["hello world."]);
}

#[test]
fn directory_skips_children_without_matches() {
    let tree = PathNode::Directory {
        entries: vec![file("dir/a.txt", "one match here\n"), file("dir/b.txt", "nothing\n")],
    };
    let lines = search("match", &tree, &plain(true)).unwrap();
    assert_eq!(lines, vec!["", "dir/a.txt", "one match here"]);
}

#[test]
fn directory_without_any_match_is_empty() {
    let tree = PathNode::Directory {
        entries: vec![
            file("dir/a.txt", "alpha\n"),
            Entry {
                path: String::from("dir/sub"),
                node: PathNode::Directory { entries: vec![file("dir/sub/b.txt", "beta\n")] },
            },
            Entry { path: String::from("dir/empty"), node: PathNode::Directory { entries: vec![] } },
        ],
    };
    let lines = search("gamma", &tree, &plain(false)).unwrap();
    assert!(lines.is_empty());
}

#[test]
fn nested_directories_nest_their_headings() {
    let tree = PathNode::Directory {
        entries: vec![
            Entry {
                path: String::from("top/sub"),
                node: PathNode::Directory {
                    entries: vec![
                        file("top/sub/x.txt", "no\n"),
                        file("top/sub/y.txt", "a\nneedle\n"),
                    ],
                },
            },
            file("top/z.txt", "needle one\nneedle two\n"),
        ],
    };
    let options = SearchOptions::new(true, true, false, Theme::Green);
    let lines = search("needle", &tree, &options).unwrap();
    assert_eq!(
        lines,
        vec![
            "",
            "top/sub",
            "",
            "top/sub/y.txt",
            "2: needle",
            "",
            "top/z.txt",
            "1: needle one",
            "2: needle two",
        ]
    );
}

#[test]
fn missing_path_is_not_found() {
    let outcome = search("x", &PathNode::Missing, &plain(true));
    assert!(matches!(outcome, Err(SearchError::PathNotFound)));
    assert_eq!(outcome.unwrap_err().message(), "Path does not exist");
}

#[test]
fn special_path_is_invalid_kind() {
    let outcome = search("x", &PathNode::Special, &plain(true));
    assert!(matches!(outcome, Err(SearchError::InvalidPathKind)));
    assert_eq!(outcome.unwrap_err().message(), "Path is neither a file nor a directory");
}

#[test]
fn unreadable_path_is_io_error_with_cause() {
    let node = PathNode::Unreadable { cause: String::from("Permission denied (os error 13)") };
    match search("x", &node, &plain(true)) {
        Err(SearchError::IoError { cause }) => assert_eq!(cause, "Permission denied (os error 13)"),
        _ => panic!("an unreadable file gives an I/O error"),
    }
    let error = SearchError::IoError { cause: String::from("stream did not contain valid UTF-8") };
    assert_eq!(error.message(), "stream did not contain valid UTF-8");
}

#[test]
fn first_failing_child_aborts_the_traversal() {
    let tree = PathNode::Directory {
        entries: vec![
            file("d/a.txt", "hit\n"),
            Entry { path: String::from("d/b"), node: PathNode::Unreadable { cause: String::from("first") } },
            Entry { path: String::from("d/c"), node: PathNode::Special },
            file("d/e.txt", "hit\n"),
        ],
    };
    match search("hit", &tree, &plain(true)) {
        Err(SearchError::IoError { cause }) => assert_eq!(cause, "first"),
        _ => panic!("the first failure is returned"),
    }
    let nested = PathNode::Directory {
        entries: vec![
            Entry {
                path: String::from("d/sub"),
                node: PathNode::Directory {
                    entries: vec![Entry { path: String::from("d/sub/gone"), node: PathNode::Missing }],
                },
            },
            Entry { path: String::from("d/c"), node: PathNode::Special },
        ],
    };
    assert!(matches!(search("hit", &nested, &plain(true)), Err(SearchError::PathNotFound)));
}

#[test]
fn searching_twice_gives_the_same_lines() {
    let tree = PathNode::Directory {
        entries: vec![file("p/a.txt", "You and you\nme\n"), Entry { path: String::from("p/poem"), node: poem() }],
    };
    let options = SearchOptions::new(false, true, false, Theme::Purple);
    let first = search("you", &tree, &options).unwrap();
    let second = search("you", &tree, &options).unwrap();
    assert_eq!(first, second);
    assert_eq!(first.len(), 2 + 1 + 2 + 4);
}

#[test]
fn config_keeps_what_it_is_given() {
    let config = Config::new(String::from("q"), String::from("some/path"), true, false, true, Theme::Green);
    assert_eq!(config.query, "q");
    assert_eq!(config.file_path, "some/path");
    assert!(config.search_options.case_sensitive);
    assert!(!config.search_options.line_numbered);
    assert!(config.search_options.colored);
    assert_eq!(config.search_options.theme, Theme::Green);
    let options = SearchOptions::new(false, true, false, Theme::Purple);
    assert!(!options.case_sensitive && options.line_numbered && !options.colored);
    assert_eq!(options.theme, Theme::Purple);
}
