use rrrocket::expand::{Answer, DirectoryExpander, DiscoveryError, PathExpander, Request};
use rrrocket::{expand_directory, expand_paths};

/// One thing that a walk reports.
#[derive(Clone)]
enum Entry {
    File(&'static str),
    Other(&'static str),
    Unreadable(&'static str, &'static str),
}

/// A file system in memory: the regular files, and for each directory the
/// pattern under it and what opening and walking that pattern gives. A path
/// that is neither does not exist.
struct FakeFs {
    files: Vec<&'static str>,
    globs: Vec<(&'static str, Result<Vec<Entry>, (usize, &'static str)>)>,
    open: Vec<Entry>,
    requests: Vec<String>,
}

impl FakeFs {
    fn new(
        files: Vec<&'static str>,
        globs: Vec<(&'static str, Result<Vec<Entry>, (usize, &'static str)>)>,
    ) -> FakeFs {
        FakeFs {
            files,
            globs,
            open: Vec::new(),
            requests: Vec::new(),
        }
    }

    /// Answers one request; `None` for `Done`.
    fn answer(&mut self, request: Request) -> Option<Answer> {
        match request {
            Request::Done => None,
            Request::Probe { path } => {
                self.requests.push(format!("probe {}", path));
                let pattern = format!("{}/**/*.replay", path);
                if self.files.contains(&path.as_str()) {
                    Some(Answer::IsFile(true))
                } else if self.globs.iter().any(|(p, _)| *p == pattern) {
                    Some(Answer::IsFile(false))
                } else {
                    Some(Answer::NoSuchPath)
                }
            }
            Request::OpenGlob { pattern } => {
                self.requests.push(format!("open {}", pattern));
                let found = self.globs.iter().find(|(p, _)| *p == pattern);
                match found {
                    Some((_, Ok(entries))) => {
                        self.open = entries.clone();
                        self.open.reverse();
                        Some(Answer::GlobOpened)
                    }
                    Some((_, Err((position, message)))) => Some(Answer::GlobRefused {
                        position: *position,
                        message: message.to_string(),
                    }),
                    None => {
                        self.open = Vec::new();
                        Some(Answer::GlobOpened)
                    }
                }
            }
            Request::NextMatch => {
                self.requests.push("next".to_string());
                Some(match self.open.pop() {
                    None => Answer::NoMoreMatches,
                    Some(Entry::File(path)) => Answer::Match {
                        path: path.to_string(),
                        is_file: true,
                    },
                    Some(Entry::Other(path)) => Answer::Match {
                        path: path.to_string(),
                        is_file: false,
                    },
                    Some(Entry::Unreadable(path, message)) => Answer::MatchFailed {
                        path: path.to_string(),
                        message: message.to_string(),
                    },
                })
            }
        }
    }
}

/// Pulls the next item out of an expansion, as an iterator's `next` would.
fn next_item(
    expander: &mut PathExpander,
    fs: &mut FakeFs,
) -> Option<Result<String, DiscoveryError>> {
    loop {
        let answer = fs.answer(expander.request())?;
        if let Some(item) = expander.advance(answer) {
            return Some(item);
        }
    }
}

fn next_directory_item(
    expander: &mut DirectoryExpander,
    fs: &mut FakeFs,
) -> Option<Result<String, DiscoveryError>> {
    loop {
        let answer = fs.answer(expander.request())?;
        if let Some(item) = expander.advance(answer) {
            return Some(item);
        }
    }
}

/// The whole expansion, each item as a text: a path, or `error: ` and the
/// message.
fn expand_all(files: &[String], fs: &mut FakeFs) -> Vec<String> {
    let mut expander = expand_paths(files.to_vec());
    let mut items = Vec::new();
    while let Some(item) = next_item(&mut expander, fs) {
        items.push(match item {
            Ok(path) => path,
            Err(error) => format!("error: {}", error.describe()),
        });
    }
    items
}

fn strings(items: &[&str]) -> Vec<String> {
    items.iter().map(|s| s.to_string()).collect()
}

fn dir_with_three_replays() -> FakeFs {
    FakeFs::new(
        vec![
            "/a/file1.replay",
            "/dir/x.replay",
            "/dir/y.replay",
            "/dir/sub/z.replay",
        ],
        vec![(
            "/dir/**/*.replay",
            Ok(vec![
                Entry::File("/dir/sub/z.replay"),
                Entry::File("/dir/x.replay"),
                Entry::File("/dir/y.replay"),
            ]),
        )],
    )
}

#[test]
fn files_and_directories_expand_in_the_order_given() {
    let mut fs = dir_with_three_replays();
    let items = expand_all(&strings(&["/a/file1.replay", "/dir"]), &mut fs);
    assert_eq!(
        items,
        strings(&[
            "/a/file1.replay",
            "/dir/sub/z.replay",
            "/dir/x.replay",
            "/dir/y.replay",
        ])
    );

    let mut fs = dir_with_three_replays();
    let items = expand_all(&strings(&["/dir", "/a/file1.replay"]), &mut fs);
    assert_eq!(
        items,
        strings(&[
            "/dir/sub/z.replay",
            "/dir/x.replay",
            "/dir/y.replay",
            "/a/file1.replay",
        ])
    );
}

#[test]
fn a_file_that_lies_under_a_directory_argument_is_yielded_for_both() {
    let mut fs = dir_with_three_replays();
    let items = expand_all(&strings(&["/dir/x.replay", "/dir"]), &mut fs);
    assert_eq!(
        items,
        strings(&[
            "/dir/x.replay",
            "/dir/sub/z.replay",
            "/dir/x.replay",
            "/dir/y.replay",
        ])
    );
}

#[test]
fn a_file_argument_is_yielded_unchanged_and_without_a_walk() {
    let mut fs = dir_with_three_replays();
    let items = expand_all(&strings(&["/a/file1.replay"]), &mut fs);
    assert_eq!(items, strings(&["/a/file1.replay"]));
    assert_eq!(fs.requests, strings(&["probe /a/file1.replay"]));
}

#[test]
fn no_arguments_expand_to_nothing() {
    let mut fs = dir_with_three_replays();
    let files: Vec<String> = Vec::new();
    let mut expander = expand_paths(files.clone());
    assert!(matches!(expander.request(), Request::Done));
    assert!(expander.advance(Answer::IsFile(true)).is_none());
    assert!(matches!(expander.request(), Request::Done));
    assert!(expand_all(&files, &mut fs).is_empty());
    assert!(fs.requests.is_empty());
}

#[test]
fn a_directory_without_replays_expands_to_nothing() {
    let mut fs = FakeFs::new(vec![], vec![("/empty/**/*.replay", Ok(vec![]))]);
    let items = expand_all(&strings(&["/empty"]), &mut fs);
    assert!(items.is_empty());
    assert_eq!(
        fs.requests,
        strings(&["probe /empty", "open /empty/**/*.replay", "next"])
    );
}

#[test]
fn matches_that_are_no_regular_files_are_passed_over() {
    let mut fs = FakeFs::new(
        vec!["/dir/a.replay"],
        vec![(
            "/dir/**/*.replay",
            Ok(vec![
                Entry::Other("/dir/folder.replay"),
                Entry::File("/dir/a.replay"),
                Entry::Other("/dir/dangling.replay"),
            ]),
        )],
    );
    let items = expand_all(&strings(&["/dir"]), &mut fs);
    assert_eq!(items, strings(&["/dir/a.replay"]));
}

#[test]
fn a_walk_error_is_yielded_in_place_and_the_walk_goes_on() {
    let mut fs = FakeFs::new(
        vec!["/dir/a.replay", "/dir/z.replay", "/b.replay"],
        vec![(
            "/dir/**/*.replay",
            Ok(vec![
                Entry::File("/dir/a.replay"),
                Entry::Unreadable("/dir/locked", "Permission denied (os error 13)"),
                Entry::File("/dir/z.replay"),
            ]),
        )],
    );
    let items = expand_all(&strings(&["/dir", "/b.replay"]), &mut fs);
    assert_eq!(
        items,
        strings(&[
            "/dir/a.replay",
            "error: attempting to read `/dir/locked` resulted in an error: Permission denied (os error 13)",
            "/dir/z.replay",
            "/b.replay",
        ])
    );
}

#[test]
fn an_argument_that_cannot_be_walked_does_not_stop_the_expansion() {
    let mut fs = FakeFs::new(
        vec!["/b.replay"],
        vec![(
            "/locked/**/*.replay",
            Ok(vec![Entry::Unreadable(
                "/locked",
                "Permission denied (os error 13)",
            )]),
        )],
    );
    let items = expand_all(&strings(&["/locked", "/b.replay"]), &mut fs);
    assert_eq!(
        items,
        strings(&[
            "error: attempting to read `/locked` resulted in an error: Permission denied (os error 13)",
            "/b.replay",
        ])
    );
}

#[test]
fn an_argument_that_does_not_exist_gives_one_error_that_names_it() {
    let mut fs = FakeFs::new(vec!["/b.replay"], vec![]);
    let files = strings(&["/missing", "/b.replay"]);
    let mut expander = expand_paths(files);
    assert_eq!(expander.position(), 0);
    match next_item(&mut expander, &mut fs) {
        Some(Err(DiscoveryError::Missing { path })) => assert_eq!(path, "/missing"),
        other => panic!("unexpected item: {:?}", other),
    }
    assert_eq!(expander.position(), 1);
    assert_eq!(fs.requests, strings(&["probe /missing"]));
    assert_eq!(
        next_item(&mut expander, &mut fs).map(|item| item.unwrap()),
        Some("/b.replay".to_string())
    );
    assert_eq!(expander.position(), 2);
    assert!(next_item(&mut expander, &mut fs).is_none());

    let mut fs = FakeFs::new(vec!["/b.replay"], vec![]);
    let items = expand_all(&strings(&["/missing", "/b.replay", "/gone"]), &mut fs);
    assert_eq!(
        items,
        strings(&[
            "error: no file or directory at /missing",
            "/b.replay",
            "error: no file or directory at /gone",
        ])
    );
    assert_eq!(
        fs.requests,
        strings(&["probe /missing", "probe /b.replay", "probe /gone"])
    );
}

#[test]
fn the_position_follows_the_argument_that_is_due() {
    let mut fs = dir_with_three_replays();
    let mut expander = expand_paths(strings(&["/dir", "/a/file1.replay"]));
    assert_eq!(expander.position(), 0);
    for _ in 0..3 {
        assert!(next_item(&mut expander, &mut fs).is_some());
        assert_eq!(expander.position(), 0);
    }
    assert!(next_item(&mut expander, &mut fs).is_some());
    assert_eq!(expander.position(), 2);
}

#[test]
fn a_refused_pattern_gives_one_error_and_ends_that_directory() {
    let mut fs = FakeFs::new(
        vec!["/b.replay"],
        vec![(
            "/bad[dir/**/*.replay",
            Err((4, "invalid range pattern")),
        )],
    );
    let files = strings(&["/bad[dir", "/b.replay"]);
    let mut expander = expand_paths(files);
    match next_item(&mut expander, &mut fs) {
        Some(Err(DiscoveryError::Pattern {
            dir,
            position,
            message,
        })) => {
            assert_eq!(dir, "/bad[dir");
            assert_eq!(position, 4);
            assert_eq!(message, "invalid range pattern");
        }
        other => panic!("unexpected item: {:?}", other),
    }
    assert_eq!(
        fs.requests,
        strings(&["probe /bad[dir", "open /bad[dir/**/*.replay"])
    );
    assert_eq!(
        next_item(&mut expander, &mut fs).map(|item| item.unwrap()),
        Some("/b.replay".to_string())
    );
    assert!(next_item(&mut expander, &mut fs).is_none());

    let mut fs = FakeFs::new(
        vec![],
        vec![(
            "/bad[dir/**/*.replay",
            Err((4, "invalid range pattern")),
        )],
    );
    let items = expand_all(&strings(&["/bad[dir"]), &mut fs);
    assert_eq!(items, strings(&["error: unable to form glob in /bad[dir"]));
}

#[test]
fn the_first_item_of_a_large_directory_comes_after_three_requests() {
    let mut entries = Vec::new();
    for _ in 0..10_000 {
        entries.push(Entry::File("/big/one.replay"));
    }
    let mut fs = FakeFs::new(
        vec!["/big/one.replay"],
        vec![("/big/**/*.replay", Ok(entries))],
    );
    let files = strings(&["/big", "/other"]);
    let mut expander = expand_paths(files);
    let first = next_item(&mut expander, &mut fs);
    assert_eq!(first.map(|item| item.unwrap()), Some("/big/one.replay".to_string()));
    assert_eq!(
        fs.requests,
        strings(&["probe /big", "open /big/**/*.replay", "next"])
    );
    assert_eq!(fs.open.len(), 9_999);
}

#[test]
fn nothing_is_asked_before_the_first_item_is_pulled() {
    let files = strings(&["/dir", "/a/file1.replay"]);
    let expander = expand_paths(files);
    match expander.request() {
        Request::Probe { path } => assert_eq!(path, "/dir"),
        other => panic!("unexpected request: {:?}", other),
    }
    let directory = expand_directory("/dir");
    match directory.request() {
        Request::OpenGlob { pattern } => assert_eq!(pattern, "/dir/**/*.replay"),
        other => panic!("unexpected request: {:?}", other),
    }
    assert!(!directory.is_finished());
}

#[test]
fn an_answer_to_another_request_changes_nothing() {
    let files = strings(&["/dir"]);
    let mut expander = expand_paths(files);
    assert!(expander.advance(Answer::GlobOpened).is_none());
    assert!(expander.advance(Answer::NoMoreMatches).is_none());
    assert!(expander
        .advance(Answer::Match {
            path: "/dir/x.replay".to_string(),
            is_file: true
        })
        .is_none());
    assert!(matches!(expander.request(), Request::Probe { .. }));

    assert!(expander.advance(Answer::IsFile(false)).is_none());
    assert!(expander.advance(Answer::IsFile(true)).is_none());
    assert!(expander.advance(Answer::NoMoreMatches).is_none());
    assert!(matches!(expander.request(), Request::OpenGlob { .. }));

    assert!(expander.advance(Answer::GlobOpened).is_none());
    assert!(expander.advance(Answer::GlobOpened).is_none());
    assert!(expander.advance(Answer::IsFile(true)).is_none());
    assert!(expander.advance(Answer::NoSuchPath).is_none());
    assert!(matches!(expander.request(), Request::NextMatch));

    assert!(expander.advance(Answer::NoMoreMatches).is_none());
    assert!(matches!(expander.request(), Request::Done));
}

#[test]
fn expand_directory_walks_one_directory() {
    let mut fs = dir_with_three_replays();
    let mut expander = expand_directory("/dir");
    let mut paths = Vec::new();
    while let Some(item) = next_directory_item(&mut expander, &mut fs) {
        paths.push(item.unwrap());
    }
    assert_eq!(
        paths,
        strings(&["/dir/sub/z.replay", "/dir/x.replay", "/dir/y.replay"])
    );
    assert!(expander.is_finished());
    assert!(matches!(expander.request(), Request::Done));
    assert_eq!(
        fs.requests,
        strings(&["open /dir/**/*.replay", "next", "next", "next", "next"])
    );
}

#[test]
fn expand_directory_reports_a_refused_pattern_once() {
    let mut expander = expand_directory("[");
    assert!(expander.advance(Answer::IsFile(false)).is_none());
    assert!(expander.advance(Answer::NoSuchPath).is_none());
    let item = expander.advance(Answer::GlobRefused {
        position: 0,
        message: "invalid range pattern".to_string(),
    });
    match item {
        Some(Err(error)) => assert_eq!(error.describe(), "unable to form glob in ["),
        other => panic!("unexpected item: {:?}", other),
    }
    assert!(expander.is_finished());
    assert!(expander.advance(Answer::GlobOpened).is_none());
    assert!(expander
        .advance(Answer::Match {
            path: "x.replay".to_string(),
            is_file: true
        })
        .is_none());
    assert!(expander.is_finished());
}
