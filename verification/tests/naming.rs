use dotlinks::errors::ReconcileError;
use dotlinks::naming::backup_candidate;
use dotlinks::naming::decimal_string;
use dotlinks::naming::stripped_of;
use dotlinks::naming::valid_backup_source;

#[test]
fn decimal_small() {
    assert_eq!(decimal_string(0), "0");
    assert_eq!(decimal_string(7), "7");
    assert_eq!(decimal_string(9), "9");
}

#[test]
fn decimal_multi_digit() {
    assert_eq!(decimal_string(10), "10");
    assert_eq!(decimal_string(42), "42");
    assert_eq!(decimal_string(1234567890), "1234567890");
}

#[test]
fn decimal_largest() {
    assert_eq!(decimal_string(u64::MAX), "18446744073709551615");
}

#[test]
fn candidate_first_try_appends_stamp() {
    let link = String::from("/home/user/.config/zsh");
    let stamp = String::from("2024-01-01T00_00_00");
    let got = backup_candidate(&link, &stamp, 0).unwrap();
    assert_eq!(got, "/home/user/.config/zsh-2024-01-01T00_00_00");
}

#[test]
fn candidate_collision_appends_counter() {
    // A sibling named "foo-2024-01-01T00_00_00" already exists, so the
    // next candidate gets "-1", not an overwrite of the taken name.
    let link = String::from("/d/foo");
    let stamp = String::from("2024-01-01T00_00_00");
    let got = backup_candidate(&link, &stamp, 1).unwrap();
    assert_eq!(got, "/d/foo-2024-01-01T00_00_00-1");
    let got = backup_candidate(&link, &stamp, 2).unwrap();
    assert_eq!(got, "/d/foo-2024-01-01T00_00_00-2");
}

#[test]
fn candidate_without_directory_part() {
    let link = String::from("foo");
    let stamp = String::from("2024-01-01T00_00_00");
    let got = backup_candidate(&link, &stamp, 0).unwrap();
    assert_eq!(got, "foo-2024-01-01T00_00_00");
}

#[test]
fn candidate_ignores_trailing_decorations() {
    // A trailing slash (or a trailing "." component) does not hide the
    // basename: the candidate is built on the stripped path.
    let stamp = String::from("2024-01-01T00_00_00");
    let got = backup_candidate(&String::from("/home/user/dir/"), &stamp, 0).unwrap();
    assert_eq!(got, "/home/user/dir-2024-01-01T00_00_00");
    let got = backup_candidate(&String::from("/home/user/dir/."), &stamp, 0).unwrap();
    assert_eq!(got, "/home/user/dir-2024-01-01T00_00_00");
}

#[test]
fn candidate_needs_a_basename() {
    let stamp = String::from("2024-01-01T00_00_00");
    for link in ["", "/", "//", ".", "./", "..", "/a/.."] {
        let got = backup_candidate(&String::from(link), &stamp, 0);
        assert_eq!(
            got,
            Err(ReconcileError::InvalidBackupTarget { path: String::from(link) }),
            "link {:?}",
            link
        );
    }
}

#[test]
fn valid_backup_source_classifies() {
    assert!(valid_backup_source("/home/user/.zshenv"));
    assert!(valid_backup_source("relative/file"));
    assert!(valid_backup_source("...")); // three dots are an ordinary name
    assert!(valid_backup_source("/ends/with/slash/")); // names "slash"
    assert!(valid_backup_source("/x/.")); // names "x"
    assert!(!valid_backup_source(""));
    assert!(!valid_backup_source("/"));
    assert!(!valid_backup_source("."));
    assert!(!valid_backup_source(".."));
    assert!(!valid_backup_source("/x/.."));
}

#[test]
fn stripping_matches_platform_basenames() {
    assert_eq!(stripped_of(&String::from("/home/user/")), "/home/user");
    assert_eq!(stripped_of(&String::from("/home/user/.")), "/home/user");
    assert_eq!(stripped_of(&String::from("/home//")), "/home");
    assert_eq!(stripped_of(&String::from("/home/user")), "/home/user");
    assert_eq!(stripped_of(&String::from("a.")), "a."); // a file named "a."
    assert_eq!(stripped_of(&String::from("/a/..")), "/a/.."); // ".." is kept
    assert_eq!(stripped_of(&String::from("/")), "");
}

#[test]
fn error_descriptions_nonempty() {
    let p = || String::from("/p");
    let all = [
        ReconcileError::OriginalNotFound { path: p(), code: 2 },
        ReconcileError::CanonicalizationFailed { path: p(), code: 2 },
        ReconcileError::LinkProbeFailed { path: p(), code: 13 },
        ReconcileError::BackupFailed { from: p(), to: p(), code: 13 },
        ReconcileError::LinkCreationFailed { path: p(), code: 30 },
        ReconcileError::LinkInconsistent { path: p(), observed: p() },
        ReconcileError::InvalidBackupTarget { path: p() },
    ];
    for e in all {
        assert!(!e.describe().is_empty());
    }
}

#[test]
fn timestamp_is_rendered_not_echoed() {
    let stamp = dotlinks::naming::timestamp_now();
    // local date-time at second precision, filesystem-safe separators
    assert_eq!(stamp.len(), 19);
    assert!(!stamp.contains(':'));
    assert!(!stamp.contains('/'));
    assert_ne!(stamp, "%Y-%m-%dT%H_%M_%S");
}
