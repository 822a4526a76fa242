use rustpack::cache::{clean_cache, is_stale, parse_pkg_filename, InstalledVersion};

fn strings(items: &[&str]) -> Vec<String> {
    items.iter().map(|s| s.to_string()).collect()
}

fn installed(items: &[(&str, &str)]) -> Vec<InstalledVersion> {
    items
        .iter()
        .map(|(n, v)| InstalledVersion { name: n.to_string(), version: v.to_string() })
        .collect()
}

fn pair(a: &str, b: &str) -> Option<(String, String)> {
    Some((a.to_string(), b.to_string()))
}

#[test]
fn file_names_give_package_and_version() {
    assert_eq!(parse_pkg_filename("bash-5.2.026-2-x86_64.pkg.tar.zst"), pair("bash", "5.2.026-2"));
    assert_eq!(
        parse_pkg_filename("xorg-server-common-21.1.13-1-any.pkg.tar.xz"),
        pair("xorg-server-common", "21.1.13-1")
    );
    assert_eq!(parse_pkg_filename("a-1:2.0-3-any.pkg.tar.zst.sig"), pair("a", "1:2.0-3"));
    assert_eq!(parse_pkg_filename("a-b-c-d"), pair("a", "b-c"));
    assert_eq!(parse_pkg_filename("a-b-c-d.pkg.tar.zst.pkg.tar"), pair("a", "b-c"));
}

#[test]
fn file_names_that_give_nothing() {
    assert_eq!(parse_pkg_filename("bash.pkg.tar.zst"), None);
    assert_eq!(parse_pkg_filename("bash-5.2-1.pkg.tar.zst"), None);
    assert_eq!(parse_pkg_filename("-5.2-1-x86_64.pkg.tar.zst"), None);
    assert_eq!(parse_pkg_filename("bash--1-x86_64.pkg.tar.zst"), None);
    assert_eq!(parse_pkg_filename("bash-5.2--x86_64.pkg.tar.zst"), None);
    assert_eq!(parse_pkg_filename("bash-5.2-1-.pkg.tar.zst"), None);
    assert_eq!(parse_pkg_filename(""), None);
    assert_eq!(parse_pkg_filename(".pkg.tar"), None);
}

#[test]
fn stale_files_at_level_one() {
    let db = installed(&[("bash", "5.2-1"), ("vim", "9.1-2")]);
    assert!(!is_stale(1, "bash-5.2-1-x86_64.pkg.tar.zst", &db));
    assert!(is_stale(1, "bash-5.1-1-x86_64.pkg.tar.zst", &db));
    assert!(is_stale(1, "gone-1.0-1-any.pkg.tar.zst", &db));
    assert!(!is_stale(1, "odd.pkg.tar.zst", &db));
    assert!(!is_stale(1, "notes.txt", &db));
    assert!(!is_stale(0, "bash-5.2-1-x86_64.pkg.tar.zst", &db));
    assert!(is_stale(0, "bash-5.1-1-x86_64.pkg.tar.zst", &db));
}

#[test]
fn every_package_file_is_stale_at_level_two() {
    let db = installed(&[("bash", "5.2-1")]);
    assert!(is_stale(2, "bash-5.2-1-x86_64.pkg.tar.zst", &db));
    assert!(is_stale(2, "odd.pkg.tar.zst", &db));
    assert!(is_stale(255, "odd.pkg.tar.zst", &db));
    assert!(!is_stale(2, "notes.txt", &db));
}

#[test]
fn cleaning_lists_stale_files_in_order() {
    let db = installed(&[("bash", "5.2-1"), ("vim", "9.1-2")]);
    let files = strings(&[
        "vim-9.1-1-x86_64.pkg.tar.zst",
        "bash-5.2-1-x86_64.pkg.tar.zst",
        "readme",
        "gone-1-1-any.pkg.tar.zst",
        "vim-9.1-2-x86_64.pkg.tar.zst",
    ]);
    let c = clean_cache(1, &files, &db);
    assert_eq!(
        c.stale,
        strings(&["vim-9.1-1-x86_64.pkg.tar.zst", "gone-1-1-any.pkg.tar.zst"])
    );
    assert_eq!(c.message, ":: Cache cleaned: 2 files removed");
    let c = clean_cache(2, &files, &db);
    assert_eq!(c.stale.len(), 4);
    assert_eq!(c.message, ":: Cache cleaned: 4 files removed");
    let c = clean_cache(1, &strings(&["bash-5.2-1-x86_64.pkg.tar.zst", "x"]), &db);
    assert!(c.stale.is_empty());
    assert_eq!(c.message, ":: Cache is clean");
    let c = clean_cache(2, &Vec::new(), &db);
    assert_eq!(c.message, ":: Cache is clean");
}
