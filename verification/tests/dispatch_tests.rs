use path_hider::dispatch::{begin, classified, hidden, DispatchOutcome, SkipReason, Step, Stream};
use path_hider::filesystem::{HideError, ObjectType};
use path_hider::filter::path_matches_pattern;
use path_hider::matcher::{Matcher, MatcherType};
use path_hider::search::{visit, walk_options, Visit, WalkOptions, BUSY_TIMEOUT_SECS};

fn strings(patterns: &[&str]) -> Option<Vec<String>> {
    Some(patterns.iter().map(|p| p.to_string()).collect())
}

fn run(
    path: &[u8],
    kind: Option<ObjectType>,
    types: Option<&[ObjectType]>,
    matcher: &Matcher,
    dry_run: bool,
    hide: Result<(), HideError>,
) -> (DispatchOutcome, bool) {
    let mut step = begin(path, types, matcher, dry_run);
    if step == Step::Classify {
        step = classified(path, kind, types.unwrap(), matcher, dry_run);
    }
    match step {
        Step::Classify => panic!("the kind was read already"),
        Step::Hide => (hidden(hide), true),
        Step::Done(outcome) => (outcome, false),
    }
}

#[test]
fn dry_run_over_a_project_reports_and_alters_nothing() {
    let matcher = Matcher::new(strings(&["*.tmp"]), None, None, None).unwrap();
    let types = [ObjectType::File];
    let file = Some(ObjectType::File);
    let cases: [(&[u8], DispatchOutcome); 3] = [
        (b"/proj/a.tmp", DispatchOutcome::WouldHide),
        (b"/proj/sub/b.tmp", DispatchOutcome::WouldHide),
        (b"/proj/keep.txt", DispatchOutcome::Skipped(SkipReason::NoPatternMatched)),
    ];
    for (path, expected) in cases {
        let (outcome, hid) = run(path, file, Some(&types), &matcher, true, Ok(()));
        assert_eq!(outcome, expected);
        assert!(!hid);
    }
    let (outcome, hid) =
        run(b"/proj/sub", Some(ObjectType::Folder), Some(&types), &matcher, true, Ok(()));
    assert_eq!(outcome, DispatchOutcome::Skipped(SkipReason::TypeNotAccepted));
    assert!(!hid);
}

#[test]
fn begin_asks_for_the_kind_when_types_are_given() {
    let matcher = Matcher::new(None, None, None, None).unwrap();
    assert_eq!(begin(b"/proj/a.tmp", Some(&[ObjectType::File]), &matcher, false), Step::Classify);
    assert_eq!(begin(b"/proj/a.tmp", Some(&[]), &matcher, true), Step::Classify);
}

#[test]
fn begin_bypasses_the_type_filter_without_types() {
    let matcher = Matcher::new(strings(&["*.tmp"]), None, None, None).unwrap();
    assert_eq!(begin(b"/proj/a.tmp", None, &matcher, false), Step::Hide);
    assert_eq!(begin(b"/proj/a.tmp", None, &matcher, true), Step::Done(DispatchOutcome::WouldHide));
    assert_eq!(
        begin(b"/proj/a.txt", None, &matcher, false),
        Step::Done(DispatchOutcome::Skipped(SkipReason::NoPatternMatched))
    );
}

#[test]
fn classified_skips_unreadable_entries() {
    let matcher = Matcher::new(None, None, None, None).unwrap();
    assert_eq!(
        classified(b"/gone", None, &[ObjectType::File], &matcher, false),
        Step::Done(DispatchOutcome::Skipped(SkipReason::Unreadable))
    );
}

#[test]
fn classified_skips_kinds_that_are_not_accepted() {
    let matcher = Matcher::new(None, None, None, None).unwrap();
    let types = [ObjectType::File, ObjectType::Symlink];
    assert_eq!(
        classified(b"/proj", Some(ObjectType::Folder), &types, &matcher, false),
        Step::Done(DispatchOutcome::Skipped(SkipReason::TypeNotAccepted))
    );
    assert_eq!(classified(b"/proj/l", Some(ObjectType::Symlink), &types, &matcher, false), Step::Hide);
}

#[test]
fn classified_reports_the_family_that_excluded() {
    let matcher = Matcher::new(None, strings(&["*.txt"]), None, strings(&["secret"])).unwrap();
    let types = [ObjectType::File];
    assert_eq!(
        classified(b"/proj/keep.txt", Some(ObjectType::File), &types, &matcher, false),
        Step::Done(DispatchOutcome::Skipped(SkipReason::Excluded(MatcherType::Glob)))
    );
    assert_eq!(
        classified(b"/proj/secret", Some(ObjectType::File), &types, &matcher, false),
        Step::Done(DispatchOutcome::Skipped(SkipReason::Excluded(MatcherType::Regex)))
    );
    assert_eq!(
        classified(b"/proj/a.tmp", Some(ObjectType::File), &types, &matcher, false),
        Step::Hide
    );
}

#[test]
fn hidden_turns_the_result_into_an_outcome() {
    assert_eq!(hidden(Ok(())), DispatchOutcome::Hidden);
    assert_eq!(hidden(Err(HideError::Io)), DispatchOutcome::Failed(HideError::Io));
    assert_eq!(hidden(Err(HideError::NoFileName)), DispatchOutcome::Failed(HideError::NoFileName));
}

#[test]
fn a_full_run_hides_what_passes_both_filters() {
    let matcher = Matcher::new(strings(&["*.tmp"]), None, None, None).unwrap();
    let types = [ObjectType::File];
    let file = Some(ObjectType::File);
    assert_eq!(
        run(b"/proj/a.tmp", file, Some(&types), &matcher, false, Ok(())),
        (DispatchOutcome::Hidden, true)
    );
    assert_eq!(
        run(b"/proj/a.tmp", file, Some(&types), &matcher, false, Err(HideError::Io)),
        (DispatchOutcome::Failed(HideError::Io), true)
    );
    assert_eq!(
        run(b"/proj/a.tmp", None, Some(&types), &matcher, false, Ok(())),
        (DispatchOutcome::Skipped(SkipReason::Unreadable), false)
    );
    assert_eq!(
        run(b"/proj/a.tmp", None, None, &matcher, false, Ok(())),
        (DispatchOutcome::Hidden, true)
    );
}

#[test]
fn outcomes_go_to_their_streams() {
    for verbose in [false, true] {
        assert_eq!(DispatchOutcome::Hidden.stream(verbose), Stream::Success);
        assert_eq!(DispatchOutcome::WouldHide.stream(verbose), Stream::Success);
        assert_eq!(DispatchOutcome::Failed(HideError::Io).stream(verbose), Stream::Diagnostic);
        assert_eq!(
            DispatchOutcome::Skipped(SkipReason::Unreadable).stream(verbose),
            Stream::Diagnostic
        );
    }
    let quiet = [
        SkipReason::TypeNotAccepted,
        SkipReason::NoPatternMatched,
        SkipReason::Excluded(MatcherType::Glob),
        SkipReason::Excluded(MatcherType::Regex),
    ];
    for reason in quiet {
        assert_eq!(DispatchOutcome::Skipped(reason).stream(false), Stream::Silent);
        assert_eq!(DispatchOutcome::Skipped(reason).stream(true), Stream::Diagnostic);
    }
}

#[test]
fn path_matches_pattern_is_the_result_of_the_match() {
    let matcher = Matcher::new(strings(&["*.tmp"]), None, None, strings(&["keep"])).unwrap();
    assert!(path_matches_pattern(b"/proj/a.tmp", &matcher));
    assert!(!path_matches_pattern(b"/proj/keep.tmp", &matcher));
    assert!(!path_matches_pattern(b"/proj/a.txt", &matcher));
    assert!(path_matches_pattern(b"/proj/\xff.tmp", &matcher));
}

#[test]
fn walk_options_bound_the_depth() {
    assert_eq!(
        walk_options(false),
        WalkOptions { follow_links: true, skip_hidden: false, max_depth: 1, busy_timeout_secs: 3 }
    );
    assert_eq!(
        walk_options(true),
        WalkOptions {
            follow_links: true,
            skip_hidden: false,
            max_depth: usize::MAX,
            busy_timeout_secs: 3,
        }
    );
    assert_eq!(BUSY_TIMEOUT_SECS, 3);
}

#[test]
fn visit_passes_over_unreadable_entries() {
    let matcher = Matcher::new(None, None, None, None).unwrap();
    assert_eq!(visit(None, None, &matcher, false), Visit::ReportUnreadable);
    assert_eq!(visit(None, Some(&[ObjectType::File]), &matcher, true), Visit::ReportUnreadable);
}

#[test]
fn visit_begins_as_the_dispatcher_does() {
    let matcher = Matcher::new(strings(&["*.tmp"]), None, None, None).unwrap();
    let types = [ObjectType::File];
    for path in [&b"/proj/a.tmp"[..], b"/proj/keep.txt"] {
        for dry_run in [false, true] {
            assert_eq!(
                visit(Some(path), None, &matcher, dry_run),
                Visit::Dispatch(begin(path, None, &matcher, dry_run))
            );
            assert_eq!(
                visit(Some(path), Some(&types), &matcher, dry_run),
                Visit::Dispatch(Step::Classify)
            );
        }
    }
    assert_eq!(visit(Some(b"/proj/a.tmp"), None, &matcher, false), Visit::Dispatch(Step::Hide));
}
