use md_reader::resolve_candidate;
use md_reader::resolve_from_answers;
use md_reader::resolve_relative_path;
use md_reader::resolve_startup_path;
use md_reader::require_existing;
use md_reader::validate_existence;
use md_reader::FilePath;
use md_reader::PathError;

fn path_of(absolute: bool, parts: &[&str]) -> FilePath {
    FilePath::new(absolute, parts.iter().map(|p| p.to_string()).collect())
}

fn parts(path: &FilePath) -> Vec<String> {
    path.components.clone()
}

#[test]
fn empty_candidate_is_no_path_provided() {
    let cwd = path_of(true, &["home", "user"]);
    let candidate = FilePath::empty();
    let r = resolve_candidate(&cwd, candidate);
    assert!(matches!(r, Err(PathError::NoPathProvided)));
}

#[test]
fn empty_candidate_fails_whole_startup() {
    let cwd = path_of(true, &["home", "user"]);
    let candidate = FilePath::empty();
    let r = resolve_startup_path(&cwd, candidate);
    assert!(matches!(r, Err(PathError::NoPathProvided)));
}

#[test]
fn absolute_candidate_returned_unchanged() {
    let cwd = path_of(true, &["home", "user"]);
    let candidate = path_of(true, &["etc", "motd.md"]);
    let r = resolve_candidate(&cwd, candidate).unwrap();
    assert!(r.absolute);
    assert_eq!(parts(&r), vec!["etc".to_string(), "motd.md".to_string()]);
}

#[test]
fn absolute_candidate_unchanged_even_when_missing() {
    let cwd = path_of(true, &["home", "user"]);
    let candidate = path_of(true, &["md_reader_no_such_dir_p2", "ghost.md"]);
    let r = resolve_candidate(&cwd, candidate).unwrap();
    assert!(r.absolute);
    assert_eq!(
        parts(&r),
        vec!["md_reader_no_such_dir_p2".to_string(), "ghost.md".to_string()]
    );
}

#[test]
fn first_successful_probe_wins() {
    let base = path_of(true, &["work", "proj", "src-tauri"]);
    let rel = path_of(false, &["notes.md"]);
    let hit = path_of(true, &["work", "proj", "notes.md"]);
    let answers = vec![None, Some(hit)];
    let r = resolve_from_answers(&base, &rel, &answers);
    assert!(r.absolute);
    assert_eq!(
        parts(&r),
        vec!["work".to_string(), "proj".to_string(), "notes.md".to_string()]
    );
}

#[test]
fn later_probes_do_not_override_first_hit() {
    let base = path_of(true, &["a", "b"]);
    let rel = path_of(false, &["f.md"]);
    let first = path_of(true, &["a", "b", "f.md"]);
    let second = path_of(true, &["a", "f.md"]);
    let answers = vec![Some(first), Some(second)];
    let r = resolve_from_answers(&base, &rel, &answers);
    assert_eq!(
        parts(&r),
        vec!["a".to_string(), "b".to_string(), "f.md".to_string()]
    );
}

#[test]
fn all_probes_failing_gives_naive_join() {
    let base = path_of(true, &["work", "proj", "src-tauri"]);
    let rel = path_of(false, &["notes.md"]);
    let answers = vec![None, None, None, None];
    let r = resolve_from_answers(&base, &rel, &answers);
    assert!(r.absolute);
    assert_eq!(
        parts(&r),
        vec![
            "work".to_string(),
            "proj".to_string(),
            "src-tauri".to_string(),
            "notes.md".to_string()
        ]
    );
}

#[test]
fn missing_file_resolves_to_naive_join() {
    let base = path_of(true, &["md_reader_no_such_dir_a", "md_reader_no_such_dir_b"]);
    let rel = path_of(false, &["md_reader_no_such_file.md"]);
    let r = resolve_relative_path(&base, &rel);
    assert!(r.absolute);
    assert_eq!(
        parts(&r),
        vec![
            "md_reader_no_such_dir_a".to_string(),
            "md_reader_no_such_dir_b".to_string(),
            "md_reader_no_such_file.md".to_string()
        ]
    );
}

#[test]
fn existing_relative_path_resolves_to_absolute_path() {
    // The current directory exists wherever the test runs, so probing the
    // relative path "." must succeed and hand back its canonical, absolute
    // form — not the relative input unchanged.
    let base = FilePath::empty();
    let rel = path_of(false, &["."]);
    let r = resolve_relative_path(&base, &rel);
    assert!(r.absolute);
    assert!(r.components.iter().all(|c| c != "."));
}

#[test]
fn existence_gate_passes_present_path_through() {
    let p = path_of(true, &["etc", "hosts"]);
    let r = validate_existence(p, true).unwrap();
    assert!(r.absolute);
    assert_eq!(parts(&r), vec!["etc".to_string(), "hosts".to_string()]);
}

#[test]
fn existence_gate_reports_absent_path() {
    let p = path_of(true, &["etc", "md_reader_ghost.md"]);
    let r = validate_existence(p, false);
    match r {
        Err(PathError::FileNotFound(q)) => {
            assert!(q.absolute);
            assert_eq!(
                parts(&q),
                vec!["etc".to_string(), "md_reader_ghost.md".to_string()]
            );
        }
        _ => panic!("expected FileNotFound"),
    }
}

#[test]
fn root_directory_exists() {
    let root = path_of(true, &[]);
    let r = require_existing(root);
    assert!(r.is_ok());
}

#[test]
fn startup_succeeds_on_existing_absolute_path() {
    let cwd = path_of(true, &["home"]);
    let root = path_of(true, &[]);
    let r = resolve_startup_path(&cwd, root).unwrap();
    assert!(r.absolute);
    assert_eq!(r.component_count(), 0);
}

#[test]
fn missing_absolute_path_is_file_not_found() {
    let p = path_of(true, &["md_reader_no_such_dir_x", "gone.md"]);
    let r = resolve_startup_path(&path_of(true, &["home"]), p);
    match r {
        Err(PathError::FileNotFound(q)) => {
            assert_eq!(
                parts(&q),
                vec!["md_reader_no_such_dir_x".to_string(), "gone.md".to_string()]
            );
        }
        _ => panic!("expected FileNotFound"),
    }
}

#[test]
fn join_appends_components() {
    let dir = path_of(true, &["a", "b"]);
    let rel = path_of(false, &["c", "d.md"]);
    let joined = dir.join(&rel);
    assert!(joined.absolute);
    assert_eq!(
        parts(&joined),
        vec![
            "a".to_string(),
            "b".to_string(),
            "c".to_string(),
            "d.md".to_string()
        ]
    );
}

#[test]
fn pop_walks_up_and_stops_at_root() {
    let mut dir = path_of(true, &["a", "b"]);
    assert!(dir.pop());
    assert_eq!(parts(&dir), vec!["a".to_string()]);
    assert!(dir.pop());
    assert_eq!(parts(&dir), Vec::<String>::new());
    assert!(!dir.pop());
    assert!(dir.absolute);
}

#[test]
fn file_name_is_last_component() {
    let p = path_of(true, &["docs", "readme.md"]);
    assert_eq!(p.file_name().map(|s| s.as_str()), Some("readme.md"));
    let root = path_of(true, &[]);
    assert!(root.file_name().is_none());
}

#[test]
fn duplicate_preserves_value() {
    let p = path_of(true, &["a", "b.md"]);
    let q = p.duplicate();
    assert_eq!(p.absolute, q.absolute);
    assert_eq!(parts(&p), parts(&q));
}
