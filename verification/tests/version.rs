use rusmux::tmux::version::VERSION_PATTERN;
use rusmux::TmuxVersion;

#[test]
fn test_version_strings_none() {
    let version: TmuxVersion = None.into();
    assert_eq!(version, TmuxVersion::Max);
}

#[test]
fn test_version_strings() {
    let empty = Some("");
    let some_version = Some("tmux 3.3a");
    let next_version = Some("tmux next-3.4");

    assert_eq!(TmuxVersion::from(empty), TmuxVersion::Max);
    assert_eq!(TmuxVersion::from(some_version), TmuxVersion::Version(3, 3));
    assert_eq!(TmuxVersion::from(next_version), TmuxVersion::Version(3, 4));
}

#[test]
fn test_version_compare() {
    assert!(TmuxVersion::Max > TmuxVersion::Version(2, 0));
    assert!(TmuxVersion::Version(3, 0) > TmuxVersion::Version(2, 900));
    assert!(TmuxVersion::Version(3, 1) < TmuxVersion::Version(3, 2));
    assert!(TmuxVersion::Version(3, 1) >= TmuxVersion::Version(3, 1));
}

#[test]
fn version_sentinel_equals_itself_and_tops_every_pair() {
    assert!(TmuxVersion::Max == TmuxVersion::Max);
    assert!(TmuxVersion::Max >= TmuxVersion::Max);
    assert!(TmuxVersion::Max <= TmuxVersion::Max);
    assert!(!(TmuxVersion::Max > TmuxVersion::Max));
    assert!(TmuxVersion::Max > TmuxVersion::Version(usize::MAX, usize::MAX));
    assert!(TmuxVersion::Version(usize::MAX, usize::MAX) < TmuxVersion::Max);
}

#[test]
fn version_pairs_order_by_major_then_minor() {
    assert!(TmuxVersion::Version(2, 6) > TmuxVersion::Version(2, 5));
    assert!(TmuxVersion::Version(2, 10) > TmuxVersion::Version(2, 9));
    assert!(TmuxVersion::Version(1, 9) < TmuxVersion::Version(2, 0));
    assert!(TmuxVersion::Version(2, 6) == TmuxVersion::Version(2, 6));
    assert!(TmuxVersion::Version(2, 6).at_least(&TmuxVersion::Version(2, 6)));
    assert!(TmuxVersion::Max.at_least(&TmuxVersion::Version(2, 6)));
    assert!(!TmuxVersion::Version(2, 5).at_least(&TmuxVersion::Version(2, 6)));
    assert!(!TmuxVersion::Version(2, 5).at_least(&TmuxVersion::Max));
}

#[test]
fn version_is_read_from_the_leftmost_pair() {
    assert_eq!(TmuxVersion::from(Some("3.3a")), TmuxVersion::Version(3, 3));
    assert_eq!(TmuxVersion::from(Some("1 2.3 4.5")), TmuxVersion::Version(2, 3));
    assert_eq!(TmuxVersion::from(Some("tmux 2.6")), TmuxVersion::Version(2, 6));
    assert_eq!(TmuxVersion::from(Some("tmux 03.04")), TmuxVersion::Version(3, 4));
    assert_eq!(TmuxVersion::from(Some("tmux master")), TmuxVersion::Max);
    assert_eq!(TmuxVersion::from(Some("tmux 3")), TmuxVersion::Max);
    assert_eq!(TmuxVersion::from(Some("3.")), TmuxVersion::Max);
}

#[test]
fn version_number_that_does_not_fit_reads_as_zero() {
    assert_eq!(
        TmuxVersion::from(Some("tmux 99999999999999999999999999.7")),
        TmuxVersion::Version(0, 7)
    );
}

#[test]
fn version_digits_that_are_not_ascii_read_as_zero() {
    assert_eq!(
        TmuxVersion::from(Some("tmux \u{663}.\u{664}")),
        TmuxVersion::Version(0, 0)
    );
    assert_eq!(
        TmuxVersion::from(Some("tmux 3.\u{664}")),
        TmuxVersion::Version(3, 0)
    );
}

#[test]
fn version_from_captures_takes_the_first_two_groups() {
    let groups = Some(vec![
        Some("3.4".to_string()),
        Some("3".to_string()),
        Some("4".to_string()),
    ]);
    assert_eq!(TmuxVersion::from_captures(&groups), TmuxVersion::Version(3, 4));
    assert_eq!(TmuxVersion::from_captures(&None), TmuxVersion::Max);
    let partial = Some(vec![Some("3".to_string()), Some("3".to_string())]);
    assert_eq!(TmuxVersion::from_captures(&partial), TmuxVersion::Version(3, 0));
    let missing = Some(vec![Some("x".to_string()), None, Some("x7".to_string())]);
    assert_eq!(TmuxVersion::from_captures(&missing), TmuxVersion::Version(0, 0));
}

#[test]
fn version_pattern_is_major_dot_minor() {
    assert_eq!(VERSION_PATTERN, r"(?P<major>\d+)\.(?P<minor>\d+)");
}
