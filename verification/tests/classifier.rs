use safe_path::is_traversal_attack;

#[test]
fn valid_paths() {
    assert!(!is_traversal_attack(""));
    assert!(!is_traversal_attack("."));
    assert!(!is_traversal_attack("./foo/bar.txt"));
    assert!(!is_traversal_attack("a/b/c/d"));
    assert!(!is_traversal_attack("foo.txt"));
    assert!(!is_traversal_attack("foo/./bar.txt"));
    assert!(!is_traversal_attack("foo/bar.txt"));
}

#[test]
fn invalid_parent_dir() {
    assert!(is_traversal_attack(".."));
    assert!(is_traversal_attack("../foo.txt"));
    assert!(is_traversal_attack("foo/../bar.txt"));
    assert!(is_traversal_attack("foo/bar/.."));
}

#[test]
fn invalid_absolute_paths() {
    assert!(is_traversal_attack("/etc/passwd"));
    assert!(is_traversal_attack("/foo/bar.txt"));
}

#[test]
fn invalid_windows_paths() {
    assert!(is_traversal_attack("C:\\Users\\Admin"));
    assert!(is_traversal_attack("\\Windows"));
}

#[test]
fn parent_dir_with_backslash_separators() {
    assert!(is_traversal_attack("..\\secret.txt"));
    assert!(is_traversal_attack("foo\\..\\bar"));
    assert!(is_traversal_attack("foo/..\\bar"));
}

#[test]
fn parent_dir_at_the_very_end_is_found() {
    assert!(is_traversal_attack("a/b/c/d/e/f/.."));
    assert!(is_traversal_attack("a\\b\\.."));
}

#[test]
fn dots_inside_normal_segments_are_accepted() {
    assert!(!is_traversal_attack("..."));
    assert!(!is_traversal_attack("..foo"));
    assert!(!is_traversal_attack("foo.."));
    assert!(!is_traversal_attack("a..b"));
    assert!(!is_traversal_attack(".hidden"));
    assert!(!is_traversal_attack("foo/.../bar"));
}

#[test]
fn drive_prefixes_are_rejected() {
    assert!(is_traversal_attack("C:"));
    assert!(is_traversal_attack("c:relative"));
    assert!(is_traversal_attack("Z:/foo"));
}

#[test]
fn colon_without_drive_letter_is_accepted() {
    assert!(!is_traversal_attack(":"));
    assert!(!is_traversal_attack("1:foo"));
    assert!(!is_traversal_attack("foo/C:/bar"));
}

#[test]
fn unc_style_openings_are_rejected() {
    assert!(is_traversal_attack("\\\\server\\share"));
    assert!(is_traversal_attack("//server/share"));
}

#[test]
fn separators_in_odd_places_are_accepted() {
    assert!(!is_traversal_attack("a//b"));
    assert!(!is_traversal_attack("a/"));
    assert!(!is_traversal_attack("a\\b"));
}

#[test]
fn non_ascii_segments_are_accepted() {
    assert!(!is_traversal_attack("h\u{e9}llo/w\u{f6}rld.txt"));
    assert!(is_traversal_attack("h\u{e9}llo/../w\u{f6}rld.txt"));
}
