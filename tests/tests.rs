use mmv::errors::MassMoveError;
use mmv::fs_utils::{
    captures_from_groups, rename_from_search, check_patterns, collect_matches, move_record, path_check, rename_file_by_pattern,
    render_destination, translate_pattern,
};
use mmv::args::CLI;
use mmv::run::{run_step, RunAction, RunEvent, RunState};
use mmv::relocation::{file_exists_error, move_step, MoveAction, MoveEvent, MoveState};
use mmv::text::{chars_of, decimal_of, find_first, replace_first_in};

#[test]
fn test_rename_file_by_pattern_simple_case() {
    let source_pattern = "file_*.txt";
    let path = "file_123.txt";
    let destination_pattern = "renamed_file_#1.txt";

    let result = rename_file_by_pattern(source_pattern, path, destination_pattern);
    assert!(result.is_ok());
    assert_eq!(result.unwrap(), "renamed_file_123.txt");
}

#[test]
fn test_rename_file_by_pattern_multiple_wildcards() {
    let source_pattern = "file_*-v*.txt";
    let path = "file_abc-v123.txt";
    let destination_pattern = "renamed_file_#1_version_#2.txt";

    let result = rename_file_by_pattern(source_pattern, path, destination_pattern);
    assert!(result.is_ok());
    assert_eq!(result.unwrap(), "renamed_file_abc_version_123.txt");
}

#[test]
fn test_rename_file_by_pattern_no_wildcards_in_source() {
    let source_pattern = "file.txt";
    let path = "file.txt";
    let destination_pattern = "renamed_file.txt";

    let result = rename_file_by_pattern(source_pattern, path, destination_pattern);
    assert!(result.is_ok());
    assert_eq!(result.unwrap(), "renamed_file.txt");
}

#[test]
fn test_rename_file_by_pattern_no_match() {
    let source_pattern = "file_*.txt";
    let path = "different_file.txt";
    let destination_pattern = "renamed_file_#1.txt";

    let result = rename_file_by_pattern(source_pattern, path, destination_pattern);
    assert!(result.is_err());
    if let Err(MassMoveError::MatchError(message)) = result {
        assert!(message.contains(source_pattern));
        assert!(message.contains(path));
    } else {
        panic!("Expected a MatchError.");
    }
}

#[test]
fn test_rename_file_by_pattern_invalid_source_pattern() {
    let source_pattern = "dir_*/file_*.txt";
    let path = "dir_abc/file_123.txt";
    let destination_pattern = "renamed_dir_#1/renamed_file_#2.txt";

    let result = rename_file_by_pattern(source_pattern, path, destination_pattern);
    assert!(result.is_err());
    if let Err(MassMoveError::PathError(message)) = result {
        assert_eq!(
            message,
            "Invalid pattern entered. The pattern should only contain * in the file name."
        );
    } else {
        panic!("Expected a PathError.");
    }
}

#[test]
fn test_rename_file_by_pattern_with_different_extension() {
    let source_pattern = "image_*.jpg";
    let path = "image_456.jpg";
    let destination_pattern = "picture_#1.png";

    let result = rename_file_by_pattern(source_pattern, path, destination_pattern);
    assert!(result.is_ok());
    assert_eq!(result.unwrap(), "picture_456.png");
}

#[test]
fn test_rename_file_by_pattern_edge_case_with_multiple_captures() {
    let source_pattern = "*_file_v*.ext";
    let path = "sample_file_v2.ext";
    let destination_pattern = "prefix_#1_file_version_#2.newext";

    let result = rename_file_by_pattern(source_pattern, path, destination_pattern);
    assert!(result.is_ok());
    assert_eq!(result.unwrap(), "prefix_sample_file_version_2.newext");
}

#[test]
fn test_rename_file_by_pattern_missing_wildcard_in_path() {
    let source_pattern = "file_*.txt";
    let path = "file.txt";
    let destination_pattern = "renamed_file_#1.txt";

    let result = rename_file_by_pattern(source_pattern, path, destination_pattern);
    assert!(result.is_err());
    if let Err(MassMoveError::MatchError(message)) = result {
        assert!(message.contains(source_pattern));
        assert!(message.contains(path));
    } else {
        panic!("Expected a MatchError.");
    }
}

#[test]
fn rename_single_wildcard_between_literals() {
    let result = rename_file_by_pattern("a_*_b.txt", "a_123_b.txt", "c_#1_d.txt");
    assert_eq!(result.unwrap(), "c_123_d.txt");
}

#[test]
fn rename_keeps_directories_of_both_patterns() {
    let result = rename_file_by_pattern("src/dir/t*.*", "src/dir/test.bin", "out/dir2/foo_#1.#2");
    assert_eq!(result.unwrap(), "out/dir2/foo_est.bin");
}

#[test]
fn rename_leaves_unresolved_placeholder() {
    let result = rename_file_by_pattern("a_*_b.txt", "a_123_b.txt", "c_#1_#2.txt");
    assert_eq!(result.unwrap(), "c_123_#2.txt");
}

#[test]
fn rename_destination_without_captures_unchanged() {
    let result = rename_file_by_pattern("plain.txt", "plain.txt", "moved_#1.txt");
    assert_eq!(result.unwrap(), "moved_#1.txt");
}

#[test]
fn rename_replaces_only_first_occurrence() {
    let result = rename_file_by_pattern("x*.txt", "x7.txt", "#1_#1.txt");
    assert_eq!(result.unwrap(), "7_#1.txt");
}

#[test]
fn rename_placeholder_in_destination_directory_fails() {
    let result = rename_file_by_pattern("file_*.txt", "file_1.txt", "dir_#1/file.txt");
    match result {
        Err(MassMoveError::PathError(message)) => assert_eq!(
            message,
            "Invalid pattern entered. The pattern should only contain * in the file name."
        ),
        _ => panic!("Expected a PathError."),
    }
}

#[test]
fn rename_match_error_message_names_both() {
    let result = rename_file_by_pattern("a_*.txt", "b.txt", "c_#1.txt");
    match result {
        Err(MassMoveError::MatchError(message)) => {
            assert_eq!(message, "Pattern a_*.txt could not match the path b.txt.")
        }
        _ => panic!("Expected a MatchError."),
    }
}

#[test]
fn rename_escapes_metacharacters_of_source() {
    let result = rename_file_by_pattern("v+(*).txt", "v+(9).txt", "n_#1.txt");
    assert_eq!(result.unwrap(), "n_9.txt");
    let result = rename_file_by_pattern("a.*", "abc", "x_#1");
    assert!(matches!(result, Err(MassMoveError::MatchError(_))));
}

#[test]
fn translate_pattern_escapes_then_groups() {
    assert_eq!(translate_pattern("a.b*c+"), "(?s)^a\\.b(.*)c\\+$");
    assert_eq!(translate_pattern(""), "(?s)^$");
    assert_eq!(translate_pattern("#*"), "(?s)^\\#(.*)$");
}

#[test]
fn render_destination_fills_in_order() {
    let caps = vec!["abc".to_string(), "123".to_string()];
    assert_eq!(render_destination("r_#1_v_#2.txt", &caps), "r_abc_v_123.txt");
    assert_eq!(render_destination("#2-#1", &caps), "123-abc");
    assert_eq!(render_destination("none", &caps), "none");
}

#[test]
fn render_destination_index_ten_and_prefix_token() {
    let caps: Vec<String> = (1..=10).map(|i| format!("c{}", i)).collect();
    assert_eq!(render_destination("#10", &caps), "c10");
    assert_eq!(render_destination("#1", &Vec::new()), "#1");
}

#[test]
fn path_check_markers() {
    assert!(path_check("file_*.txt", "*").is_ok());
    assert!(path_check("dir/file_*.txt", "*").is_ok());
    assert!(matches!(
        path_check("di*r/file.txt", "*"),
        Err(MassMoveError::PathError(_))
    ));
    assert!(matches!(
        path_check("a/#1/b", "#"),
        Err(MassMoveError::PathError(_))
    ));
    assert!(path_check("a/b/#1", "#").is_ok());
}

#[test]
fn check_patterns_rejects_either_side() {
    assert!(check_patterns("d/a_*.txt", "e/b_#1.txt").is_ok());
    assert!(matches!(
        check_patterns("d*/a.txt", "e/b.txt"),
        Err(MassMoveError::PathError(_))
    ));
    assert!(matches!(
        check_patterns("d/a.txt", "e#/b.txt"),
        Err(MassMoveError::PathError(_))
    ));
}

#[test]
fn collect_matches_empty_is_not_found() {
    match collect_matches(&Vec::new()) {
        Err(MassMoveError::NotFoundError(message)) => {
            assert_eq!(message, "No matches for this pattern.")
        }
        _ => panic!("Expected a NotFoundError."),
    }
}

#[test]
fn collect_matches_normalizes_and_dedups() {
    let listed = vec![
        "d\\a.txt".to_string(),
        "d/b.txt".to_string(),
        "d/a.txt".to_string(),
    ];
    let paths = collect_matches(&listed).unwrap();
    assert_eq!(paths, vec!["d/a.txt".to_string(), "d/b.txt".to_string()]);
}

#[test]
fn move_step_refuses_existing_without_force() {
    let (state, action) = move_step(
        false,
        MoveState::Checking,
        MoveEvent::DestinationChecked { exists: true },
    );
    assert_eq!(state, MoveState::Finished);
    assert_eq!(action, MoveAction::FailExists);
    let (_, after) = move_step(false, state, MoveEvent::RenameDone { ok: true });
    assert_eq!(after, MoveAction::Ignore);
}

#[test]
fn move_step_forced_overwrite_with_fallback() {
    let (state, action) = move_step(
        true,
        MoveState::Checking,
        MoveEvent::DestinationChecked { exists: true },
    );
    assert_eq!((state, action), (MoveState::Renaming, MoveAction::Rename));
    let (state, action) = move_step(true, state, MoveEvent::RenameDone { ok: false });
    assert_eq!((state, action), (MoveState::Copying, MoveAction::CopyContent));
    let (state, action) = move_step(true, state, MoveEvent::CopyDone { ok: true });
    assert_eq!((state, action), (MoveState::Removing, MoveAction::RemoveSource));
    let (state, action) = move_step(true, state, MoveEvent::RemoveDone { ok: true });
    assert_eq!((state, action), (MoveState::Finished, MoveAction::Succeed));
}

#[test]
fn move_step_failures() {
    let (_, action) = move_step(false, MoveState::Copying, MoveEvent::CopyDone { ok: false });
    assert_eq!(action, MoveAction::FailIo);
    let (_, action) = move_step(false, MoveState::Removing, MoveEvent::RemoveDone { ok: false });
    assert_eq!(action, MoveAction::FailIo);
    let (state, action) = move_step(
        false,
        MoveState::Checking,
        MoveEvent::DestinationChecked { exists: false },
    );
    assert_eq!((state, action), (MoveState::Renaming, MoveAction::Rename));
    let (state, action) = move_step(false, state, MoveEvent::RenameDone { ok: true });
    assert_eq!((state, action), (MoveState::Finished, MoveAction::Succeed));
}

#[test]
fn file_exists_error_text() {
    match file_exists_error() {
        MassMoveError::FileExistsError(message) => assert_eq!(
            message,
            "The file already exists. Try --force mode to overwrite the file"
        ),
        _ => panic!("Expected a FileExistsError."),
    }
}

#[test]
fn move_record_format() {
    assert_eq!(move_record("a/x.txt", "b/y.txt"), "a/x.txt -> b/y.txt");
}

#[test]
fn text_helpers() {
    assert_eq!(decimal_of(0), vec!['0']);
    assert_eq!(decimal_of(407), vec!['4', '0', '7']);
    let s = chars_of("ab#1cd#1");
    let t = chars_of("#1");
    assert_eq!(find_first(&s, &t), Some(2));
    assert_eq!(find_first(&s, &chars_of("zz")), None);
    assert_eq!(replace_first_in(&s, &t, &chars_of("X")), chars_of("abXcd#1"));
}

#[test]
fn rename_requires_whole_path_match() {
    let result = rename_file_by_pattern("file_*.txt", "xfile_1.txt", "r_#1.txt");
    assert!(matches!(result, Err(MassMoveError::MatchError(_))));
    let result = rename_file_by_pattern("file_*.txt", "file_1.txt.bak", "r_#1.txt");
    assert!(matches!(result, Err(MassMoveError::MatchError(_))));
}

#[test]
fn from_conversions_pick_variant() {
    let io = std::io::Error::new(std::io::ErrorKind::Other, "x");
    assert!(matches!(MassMoveError::from(io), MassMoveError::StdIOError(_)));
    let re = regex::Regex::new("(").unwrap_err();
    assert!(matches!(MassMoveError::from(re), MassMoveError::RegexError(_)));
    let pe = glob::Pattern::new("[").unwrap_err();
    assert!(matches!(MassMoveError::from(pe), MassMoveError::PatternError(_)));
}

fn run_args(source: &str, destination: &str) -> CLI {
    CLI {
        source_pattern: source.to_string(),
        destination_pattern: destination.to_string(),
        force: false,
    }
}

#[test]
fn run_moves_each_file_and_reports() {
    let args = run_args("d/a_*_b.txt", "d/c_#1_d.txt");
    let (state, action) = run_step(&args, RunState::Idle, RunEvent::Begin);
    assert!(matches!(action, RunAction::List));
    let listing = Ok(vec!["d/a_123_b.txt".to_string()]);
    let (state, action) = run_step(&args, state, RunEvent::Listed { listing });
    match action {
        RunAction::Move { source, destination } => {
            assert_eq!(source, "d/a_123_b.txt");
            assert_eq!(destination, "d/c_123_d.txt");
        }
        _ => panic!("Expected a move."),
    }
    let (state, action) = run_step(&args, state, RunEvent::Moved { result: Ok(()) });
    match action {
        RunAction::Report { line } => assert_eq!(line, "d/a_123_b.txt -> d/c_123_d.txt"),
        _ => panic!("Expected a report."),
    }
    let (state, action) = run_step(&args, state, RunEvent::Reported);
    assert!(matches!(action, RunAction::Succeed));
    let (_, action) = run_step(&args, state, RunEvent::Begin);
    assert!(matches!(action, RunAction::Ignore));
}

#[test]
fn run_invalid_pattern_fails_before_listing() {
    let args = run_args("d*/a.txt", "e/b.txt");
    let (state, action) = run_step(&args, RunState::Idle, RunEvent::Begin);
    assert!(matches!(
        action,
        RunAction::Fail { error: MassMoveError::PathError(_) }
    ));
    assert!(matches!(state, RunState::Finished));
}

#[test]
fn run_empty_listing_is_not_found() {
    let args = run_args("abcdef/*.txt", "x/#1.txt");
    let (state, _) = run_step(&args, RunState::Idle, RunEvent::Begin);
    let (state, action) = run_step(&args, state, RunEvent::Listed { listing: Ok(Vec::new()) });
    assert!(matches!(
        action,
        RunAction::Fail { error: MassMoveError::NotFoundError(_) }
    ));
    assert!(matches!(state, RunState::Finished));
}

#[test]
fn run_stops_at_mismatched_path() {
    let args = run_args("d/file_*.txt", "d/r_#1.txt");
    let (state, _) = run_step(&args, RunState::Idle, RunEvent::Begin);
    let listing = Ok(vec!["d/other.txt".to_string(), "d/file_2.txt".to_string()]);
    let (state, action) = run_step(&args, state, RunEvent::Listed { listing });
    match action {
        RunAction::Fail { error: MassMoveError::MatchError(m) } => {
            assert!(m.contains("d/file_*.txt"));
            assert!(m.contains("d/other.txt"));
        }
        _ => panic!("Expected a MatchError."),
    }
    let (_, action) = run_step(&args, state, RunEvent::Reported);
    assert!(matches!(action, RunAction::Ignore));
}

#[test]
fn run_stops_at_failed_move() {
    let args = run_args("d/f_*.txt", "d/g_#1.txt");
    let (state, _) = run_step(&args, RunState::Idle, RunEvent::Begin);
    let listing = Ok(vec!["d/f_1.txt".to_string(), "d/f_2.txt".to_string()]);
    let (state, _) = run_step(&args, state, RunEvent::Listed { listing });
    let (state, action) = run_step(&args, state, RunEvent::Moved { result: Err(file_exists_error()) });
    assert!(matches!(
        action,
        RunAction::Fail { error: MassMoveError::FileExistsError(_) }
    ));
    assert!(matches!(state, RunState::Finished));
}

#[test]
fn rename_wildcard_takes_line_breaks() {
    let result = rename_file_by_pattern("a_*.txt", "a_x\ny.txt", "b_#1.txt");
    assert_eq!(result.unwrap(), "b_x\ny.txt");
}

#[test]
fn rename_wildcards_split_greedily() {
    let result = rename_file_by_pattern("*_*.txt", "a_b_c.txt", "#1|#2");
    assert_eq!(result.unwrap(), "a_b|c");
}

#[test]
fn captures_from_groups_skips_whole_match() {
    let groups = vec![
        Some("file_1-v2.txt".to_string()),
        Some("1".to_string()),
        None,
        Some("2".to_string()),
    ];
    assert_eq!(
        captures_from_groups(&groups),
        vec!["1".to_string(), "".to_string(), "2".to_string()]
    );
    assert_eq!(captures_from_groups(&Vec::new()), Vec::<String>::new());
}

#[test]
fn rename_from_search_outcomes() {
    let found = Some(vec![Some("file_7.txt".to_string()), Some("7".to_string())]);
    let result = rename_from_search("file_*.txt", "file_7.txt", "out_#1_#2.txt", found);
    assert_eq!(result.unwrap(), "out_7_#2.txt");
    match rename_from_search("file_*.txt", "other.txt", "out_#1.txt", None) {
        Err(MassMoveError::MatchError(m)) => {
            assert_eq!(m, "Pattern file_*.txt could not match the path other.txt.")
        }
        _ => panic!("Expected a MatchError."),
    }
}
