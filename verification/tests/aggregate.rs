use cliperge::aggregate::{
    classify, combine_files_content, combine_with_home, matches_exclusion, push_block,
    report_outcome, Aggregation, FileEntry, FileObservation, FileOutcome,
};
use cliperge::display::{CombineError, PathDisplayMode};

fn readable(path: &str, content: &str) -> FileEntry {
    FileEntry {
        path: path.to_string(),
        observation: Some(FileObservation::Readable {
            content: content.to_string(),
            canonical: Ok(format!("/work/{}", path)),
        }),
    }
}

fn observed(path: &str, observation: FileObservation) -> FileEntry {
    FileEntry { path: path.to_string(), observation: Some(observation) }
}

fn strings(list: &[&str]) -> Vec<String> {
    list.iter().map(|text| text.to_string()).collect()
}

fn kinds(aggregation: &Aggregation) -> Vec<String> {
    aggregation.outcomes.iter().map(|outcome| format!("{:?}", outcome)).collect()
}

fn three_inputs() -> Vec<FileEntry> {
    vec![
        readable("a.txt", "hello"),
        observed("missing.txt", FileObservation::Missing),
        readable("b.txt", "world"),
    ]
}

#[test]
fn two_files_and_a_missing_one() {
    let run = combine_with_home(PathDisplayMode::Basename, &three_inputs(), &vec![], "/work", &None);
    let (document, names) = run.result.unwrap();
    assert_eq!(document, "```a.txt\nhello\n```\n\n```b.txt\nworld\n```\n\n");
    assert_eq!(names, strings(&["a.txt", "b.txt"]));
    assert_eq!(run.outcomes.len(), 3);
    assert!(matches!(&run.outcomes[0], FileOutcome::Included { name } if name == "a.txt"));
    assert!(matches!(&run.outcomes[1], FileOutcome::NotFound));
    assert!(matches!(&run.outcomes[2], FileOutcome::Included { name } if name == "b.txt"));
    assert_eq!(
        report_outcome("missing.txt", &run.outcomes[1]),
        Some("Skipping: missing.txt (File not found)".to_string())
    );
}

#[test]
fn exclusion_leaves_one_file() {
    let run = combine_with_home(
        PathDisplayMode::Basename,
        &three_inputs(),
        &strings(&["b"]),
        "/work",
        &None,
    );
    let (document, names) = run.result.unwrap();
    assert_eq!(document, "```a.txt\nhello\n```\n\n");
    assert_eq!(names, strings(&["a.txt"]));
    assert!(matches!(&run.outcomes[0], FileOutcome::Included { .. }));
    assert!(matches!(&run.outcomes[1], FileOutcome::NotFound));
    assert!(matches!(&run.outcomes[2], FileOutcome::Excluded));
}

#[test]
fn exclusion_is_by_substring() {
    let excludes = strings(&["test"]);
    assert!(matches_exclusion("test.txt", &excludes));
    assert!(matches_exclusion("mytest/file.rs", &excludes));
    assert!(matches_exclusion("contest.md", &excludes));
    assert!(!matches_exclusion("tes.txt", &excludes));
    assert!(!matches_exclusion("test.txt", &vec![]));
}

#[test]
fn any_of_several_patterns_excludes() {
    let excludes = strings(&["zzz", ".md"]);
    assert!(matches_exclusion("notes.md", &excludes));
    assert!(!matches_exclusion("notes.txt", &excludes));
}

#[test]
fn excluded_candidate_is_skipped_whatever_was_found() {
    let entries = vec![readable("secret.txt", "x"), readable("a.txt", "y")];
    let run = combine_with_home(
        PathDisplayMode::Basename,
        &entries,
        &strings(&["secret"]),
        "/work",
        &None,
    );
    assert_eq!(run.result.unwrap().1, strings(&["a.txt"]));
    assert!(matches!(&run.outcomes[0], FileOutcome::Excluded));
}

#[test]
fn nothing_valid_is_a_failure() {
    let entries = vec![
        observed("gone.txt", FileObservation::Missing),
        observed("dir", FileObservation::Directory),
        readable("skip.txt", "x"),
        FileEntry { path: "unseen.txt".to_string(), observation: None },
    ];
    let run = combine_with_home(
        PathDisplayMode::Basename,
        &entries,
        &strings(&["skip"]),
        "/work",
        &None,
    );
    assert!(matches!(run.result, Err(CombineError::NoValidFiles)));
    assert_eq!(kinds(&run), vec!["NotFound", "IsDirectory", "Excluded", "NotFound"]);
}

#[test]
fn no_candidates_is_a_failure() {
    let run = combine_with_home(PathDisplayMode::Basename, &vec![], &vec![], "/work", &None);
    assert!(matches!(run.result, Err(CombineError::NoValidFiles)));
    assert!(run.outcomes.is_empty());
}

#[test]
fn unreadable_files_do_not_stop_the_run() {
    let entries = vec![
        observed("locked.txt", FileObservation::OpenFailed { detail: "denied".to_string() }),
        observed("binary.bin", FileObservation::ReadFailed { detail: "not UTF-8".to_string() }),
        observed("late", FileObservation::DirectoryOnRead),
        readable("a.txt", "hello"),
    ];
    let run = combine_with_home(PathDisplayMode::Basename, &entries, &vec![], "/work", &None);
    let (document, names) = run.result.unwrap();
    assert_eq!(document, "```a.txt\nhello\n```\n\n");
    assert_eq!(names, strings(&["a.txt"]));
    assert!(matches!(&run.outcomes[0], FileOutcome::Unreadable { message }
        if message == "Failed to open locked.txt: denied"));
    assert!(matches!(&run.outcomes[1], FileOutcome::Unreadable { message }
        if message == "Failed to read content of binary.bin: not UTF-8"));
    assert!(matches!(&run.outcomes[2], FileOutcome::Unreadable { message }
        if message == "late is a directory"));
    assert_eq!(
        report_outcome("locked.txt", &run.outcomes[0]),
        Some("Error reading locked.txt: Failed to open locked.txt: denied".to_string())
    );
}

#[test]
fn only_unreadable_files_is_a_failure() {
    let entries =
        vec![observed("locked.txt", FileObservation::OpenFailed { detail: "denied".to_string() })];
    let run = combine_with_home(PathDisplayMode::Basename, &entries, &vec![], "/work", &None);
    assert!(matches!(run.result, Err(CombineError::NoValidFiles)));
    assert_eq!(run.outcomes.len(), 1);
}

#[test]
fn relative_display_strips_the_working_directory() {
    let entries = vec![FileEntry {
        path: "sub/a.txt".to_string(),
        observation: Some(FileObservation::Readable {
            content: "hello".to_string(),
            canonical: Ok("/cwd/sub/a.txt".to_string()),
        }),
    }];
    let run = combine_with_home(PathDisplayMode::Relative, &entries, &vec![], "/cwd", &None);
    let (document, names) = run.result.unwrap();
    assert_eq!(names, strings(&["sub/a.txt"]));
    assert_eq!(document, "```sub/a.txt\nhello\n```\n\n");
}

#[test]
fn relative_display_outside_the_working_directory_ends_the_run() {
    let entries = vec![
        readable("a.txt", "hello"),
        FileEntry {
            path: "../b.txt".to_string(),
            observation: Some(FileObservation::Readable {
                content: "world".to_string(),
                canonical: Ok("/other/b.txt".to_string()),
            }),
        },
        readable("c.txt", "again"),
    ];
    let run = combine_with_home(PathDisplayMode::Relative, &entries, &vec![], "/work", &None);
    assert_eq!(run.outcomes.len(), 1);
    assert!(matches!(&run.outcomes[0], FileOutcome::Included { name } if name == "a.txt"));
    let error = run.result.unwrap_err();
    assert!(matches!(error, CombineError::PrefixNotFound));
    assert_eq!(error.message(), "Failed to strip prefix: prefix not found");
}

#[test]
fn failed_canonical_path_ends_the_run() {
    let entries = vec![FileEntry {
        path: "a.txt".to_string(),
        observation: Some(FileObservation::Readable {
            content: "hello".to_string(),
            canonical: Err("gone".to_string()),
        }),
    }];
    for mode in [PathDisplayMode::Relative, PathDisplayMode::Full] {
        let home = Some("/home/user".to_string());
        let run = combine_with_home(mode, &entries, &vec![], "/work", &home);
        assert!(run.outcomes.is_empty());
        let error = run.result.unwrap_err();
        assert!(matches!(&error, CombineError::Canonicalize { path, detail }
            if path == "a.txt" && detail == "gone"));
        assert_eq!(error.message(), "Failed to canonicalize a.txt: gone");
    }
    let run = combine_with_home(PathDisplayMode::Basename, &entries, &vec![], "/work", &None);
    assert_eq!(run.result.unwrap().1, strings(&["a.txt"]));
}

#[test]
fn full_display_under_the_home_directory() {
    let entries = vec![FileEntry {
        path: "docs/a.txt".to_string(),
        observation: Some(FileObservation::Readable {
            content: "hello".to_string(),
            canonical: Ok("/home/user/docs/a.txt".to_string()),
        }),
    }];
    let home = Some("/home/user".to_string());
    let run = combine_with_home(PathDisplayMode::Full, &entries, &vec![], "/home/user", &home);
    let (document, names) = run.result.unwrap();
    assert_eq!(names, strings(&["~/docs/a.txt"]));
    assert_eq!(document, "```~/docs/a.txt\nhello\n```\n\n");
}

#[test]
fn full_display_outside_the_home_directory() {
    let entries = vec![FileEntry {
        path: "/etc/hosts".to_string(),
        observation: Some(FileObservation::Readable {
            content: "x".to_string(),
            canonical: Ok("/etc/hosts".to_string()),
        }),
    }];
    let home = Some("/home/user".to_string());
    let run = combine_with_home(PathDisplayMode::Full, &entries, &vec![], "/", &home);
    assert_eq!(run.result.unwrap().1, strings(&["/etc/hosts"]));
}

#[test]
fn full_display_without_a_home_directory_ends_the_run() {
    let entries = vec![readable("a.txt", "hello")];
    let run = combine_with_home(PathDisplayMode::Full, &entries, &vec![], "/work", &None);
    let error = run.result.unwrap_err();
    assert!(matches!(error, CombineError::NoHomeDirectory));
    assert_eq!(error.message(), "Unable to determine home directory");
}

#[test]
fn full_display_asks_for_the_home_directory() {
    let entries = vec![readable("a.txt", "hello")];
    let home = dirs::home_dir().map(|path| path.to_string_lossy().into_owned());
    let asked = combine_files_content(PathDisplayMode::Full, &entries, &vec![], "/work");
    let given = combine_with_home(PathDisplayMode::Full, &entries, &vec![], "/work", &home);
    assert_eq!(format!("{:?}", asked), format!("{:?}", given));
}

#[test]
fn other_displays_do_not_depend_on_the_home_directory() {
    for mode in [PathDisplayMode::Basename, PathDisplayMode::Relative] {
        let asked = combine_files_content(mode, &three_inputs(), &vec![], "/work");
        let given = combine_with_home(mode, &three_inputs(), &vec![], "/work", &None);
        assert_eq!(format!("{:?}", asked), format!("{:?}", given));
        assert_eq!(asked.result.unwrap().1, strings(&["a.txt", "b.txt"]));
    }
}

#[test]
fn order_of_the_input_is_kept() {
    let entries = vec![
        readable("z.txt", "1"),
        readable("a.txt", "2"),
        readable("z.txt", "3"),
        readable("m.txt", "4"),
    ];
    let run = combine_with_home(PathDisplayMode::Basename, &entries, &vec![], "/work", &None);
    let (document, names) = run.result.unwrap();
    assert_eq!(names, strings(&["z.txt", "a.txt", "z.txt", "m.txt"]));
    assert_eq!(
        document,
        "```z.txt\n1\n```\n\n```a.txt\n2\n```\n\n```z.txt\n3\n```\n\n```m.txt\n4\n```\n\n"
    );
}

#[test]
fn one_candidate_at_a_time() {
    let excludes = strings(&["skip"]);
    let verdict = classify(
        PathDisplayMode::Basename,
        &readable("dir/a.txt", "x"),
        &excludes,
        "/work",
        &None,
    );
    assert!(matches!(verdict, Ok(FileOutcome::Included { name }) if name == "a.txt"));
    let verdict = classify(
        PathDisplayMode::Basename,
        &readable("skip/a.txt", "x"),
        &excludes,
        "/work",
        &None,
    );
    assert!(matches!(verdict, Ok(FileOutcome::Excluded)));
    let verdict = classify(
        PathDisplayMode::Basename,
        &FileEntry { path: "a.txt".to_string(), observation: None },
        &excludes,
        "/work",
        &None,
    );
    assert!(matches!(verdict, Ok(FileOutcome::NotFound)));
}

#[test]
fn block_of_one_file() {
    let mut document = "before".to_string();
    push_block(&mut document, "a.txt", "line 1\nline 2");
    assert_eq!(document, "before```a.txt\nline 1\nline 2\n```\n\n");
    let mut document = String::new();
    push_block(&mut document, "", "");
    assert_eq!(document, "```\n\n```\n\n");
}

#[test]
fn notices_for_every_outcome() {
    assert_eq!(
        report_outcome("x", &FileOutcome::Excluded),
        Some("Skipping: x (Matched exclude pattern)".to_string())
    );
    assert_eq!(
        report_outcome("x", &FileOutcome::NotFound),
        Some("Skipping: x (File not found)".to_string())
    );
    assert_eq!(
        report_outcome("x", &FileOutcome::IsDirectory),
        Some("Skipping: x (Is a directory)".to_string())
    );
    assert_eq!(
        report_outcome("x", &FileOutcome::Unreadable { message: "why".to_string() }),
        Some("Error reading x: why".to_string())
    );
    assert_eq!(report_outcome("x", &FileOutcome::Included { name: "x".to_string() }), None);
}

#[test]
fn no_valid_files_in_words() {
    assert_eq!(CombineError::NoValidFiles.message(), "No valid files found.");
}
