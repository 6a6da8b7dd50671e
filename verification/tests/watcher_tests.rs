use path_hider::dispatch::{begin, DispatchOutcome, SkipReason, Step};
use path_hider::filesystem::ObjectType;
use path_hider::matcher::Matcher;
use path_hider::watcher::{handle_event, ChangeKind, Handling, MissingPath, RawChangeEvent, RenameMode};

fn event(kind: ChangeKind, paths: &[&str]) -> RawChangeEvent {
    RawChangeEvent { kind, paths: paths.iter().map(|p| p.as_bytes().to_vec()).collect() }
}

fn candidate(event: &RawChangeEvent) -> Option<Result<Vec<u8>, MissingPath>> {
    event.normalize().map(|found| found.map(|index| event.paths[index].clone()))
}

#[test]
fn create_yields_its_path() {
    let created = event(ChangeKind::Create, &["/a/b"]);
    assert_eq!(created.normalize(), Some(Ok(0)));
    assert_eq!(candidate(&created), Some(Ok(b"/a/b".to_vec())));
}

#[test]
fn create_with_more_paths_yields_the_first() {
    let created = event(ChangeKind::Create, &["/a/b", "/a/c"]);
    assert_eq!(candidate(&created), Some(Ok(b"/a/b".to_vec())));
}

#[test]
fn rename_pair_yields_the_new_name_never_the_old() {
    for mode in [RenameMode::Both, RenameMode::Any, RenameMode::To, RenameMode::Other] {
        let renamed = event(ChangeKind::Rename(mode), &["/a/old", "/a/new"]);
        assert_eq!(renamed.normalize(), Some(Ok(1)));
        assert_eq!(candidate(&renamed), Some(Ok(b"/a/new".to_vec())));
        assert_ne!(candidate(&renamed), Some(Ok(b"/a/old".to_vec())));
    }
}

#[test]
fn rename_with_one_path_yields_that_path() {
    for mode in [RenameMode::Both, RenameMode::Any, RenameMode::To, RenameMode::Other] {
        let renamed = event(ChangeKind::Rename(mode), &["/a/new"]);
        assert_eq!(candidate(&renamed), Some(Ok(b"/a/new".to_vec())));
    }
}

#[test]
fn rename_with_three_paths_yields_the_second() {
    let renamed = event(ChangeKind::Rename(RenameMode::Both), &["/a/old", "/a/new", "/a/x"]);
    assert_eq!(candidate(&renamed), Some(Ok(b"/a/new".to_vec())));
}

#[test]
fn rename_from_yields_nothing() {
    assert_eq!(event(ChangeKind::Rename(RenameMode::From), &["/a/old"]).normalize(), None);
    assert_eq!(event(ChangeKind::Rename(RenameMode::From), &["/a/old", "/a/new"]).normalize(), None);
    assert_eq!(event(ChangeKind::Rename(RenameMode::From), &[]).normalize(), None);
}

#[test]
fn other_kinds_yield_nothing() {
    assert_eq!(event(ChangeKind::Other, &["/a/b"]).normalize(), None);
    assert_eq!(event(ChangeKind::Other, &["/a/b", "/a/c"]).normalize(), None);
    assert_eq!(event(ChangeKind::Other, &[]).normalize(), None);
}

#[test]
fn a_missing_path_is_an_error() {
    assert_eq!(event(ChangeKind::Create, &[]).normalize(), Some(Err(MissingPath)));
    for mode in [RenameMode::Both, RenameMode::Any, RenameMode::To, RenameMode::Other] {
        assert_eq!(event(ChangeKind::Rename(mode), &[]).normalize(), Some(Err(MissingPath)));
    }
}

#[test]
fn normalize_keeps_nothing_between_events() {
    let from = event(ChangeKind::Rename(RenameMode::From), &["/a/old"]);
    let to = event(ChangeKind::Rename(RenameMode::To), &["/a/new"]);
    assert_eq!(from.normalize(), None);
    assert_eq!(candidate(&to), Some(Ok(b"/a/new".to_vec())));
    assert_eq!(from.normalize(), None);
    assert_eq!(candidate(&to), Some(Ok(b"/a/new".to_vec())));
}

fn strings(patterns: &[&str]) -> Option<Vec<String>> {
    Some(patterns.iter().map(|p| p.to_string()).collect())
}

#[test]
fn handle_event_ignores_what_is_not_actionable() {
    let matcher = Matcher::new(None, None, None, None).unwrap();
    assert_eq!(handle_event(&event(ChangeKind::Other, &["/a/b"]), None, &matcher, false), Handling::Ignore);
    assert_eq!(
        handle_event(&event(ChangeKind::Rename(RenameMode::From), &["/a/b"]), None, &matcher, false),
        Handling::Ignore
    );
}

#[test]
fn handle_event_reports_a_missing_path() {
    let matcher = Matcher::new(None, None, None, None).unwrap();
    assert_eq!(
        handle_event(&event(ChangeKind::Create, &[]), None, &matcher, false),
        Handling::ReportMissingPath
    );
}

#[test]
fn handle_event_dispatches_the_candidate() {
    let matcher = Matcher::new(strings(&["*.tmp"]), None, None, None).unwrap();
    let renamed = event(ChangeKind::Rename(RenameMode::Both), &["/a/old.tmp", "/a/new.txt"]);
    assert_eq!(
        handle_event(&renamed, None, &matcher, false),
        Handling::Dispatch {
            index: 1,
            step: Step::Done(DispatchOutcome::Skipped(SkipReason::NoPatternMatched)),
        }
    );
    let renamed = event(ChangeKind::Rename(RenameMode::Both), &["/a/old.txt", "/a/new.tmp"]);
    assert_eq!(
        handle_event(&renamed, None, &matcher, false),
        Handling::Dispatch { index: 1, step: Step::Hide }
    );
    assert_eq!(
        handle_event(&renamed, None, &matcher, true),
        Handling::Dispatch { index: 1, step: Step::Done(DispatchOutcome::WouldHide) }
    );
    assert_eq!(
        handle_event(&renamed, Some(&[ObjectType::File]), &matcher, false),
        Handling::Dispatch { index: 1, step: Step::Classify }
    );
}

#[test]
fn handle_event_and_a_scan_take_the_same_first_step() {
    let matcher = Matcher::new(strings(&["*.tmp"]), strings(&["*/keep/*"]), None, None).unwrap();
    for path in ["/proj/a.tmp", "/proj/keep/b.tmp", "/proj/c.txt"] {
        for dry_run in [false, true] {
            let created = event(ChangeKind::Create, &[path]);
            assert_eq!(
                handle_event(&created, None, &matcher, dry_run),
                Handling::Dispatch { index: 0, step: begin(path.as_bytes(), None, &matcher, dry_run) }
            );
        }
    }
}
