use rustpack::cli::GlobalFlags;
use rustpack::search::{
    find_local_pkg, find_sync_pkg, format_list, list_explicit_packages, list_installed,
    list_manual_packages, list_package_files, normalize_query_path, not_found_message,
    query_explicit_packages, query_owns, query_packages, query_reverse_dependencies,
    resolve_local_targets, resolve_sync_targets, search_installed, search_repos,
    show_package_info, show_sync_package_info, Lookup, Package,
};

fn strings(items: &[&str]) -> Vec<String> {
    items.iter().map(|s| s.to_string()).collect()
}

fn package(name: &str, version: &str, explicit: bool) -> Package {
    Package {
        repo: None,
        name: name.to_string(),
        version: version.to_string(),
        desc: Some(format!("{} description", name)),
        arch: Some("x86_64".to_string()),
        url: None,
        licenses: Vec::new(),
        groups: Vec::new(),
        depends: Vec::new(),
        optdepends: Vec::new(),
        explicit,
        install_date: None,
        installed_size: 1024,
        download_size: 512,
        required_by: Vec::new(),
        files: Vec::new(),
    }
}

fn lookup(name: &str, package: Option<Package>) -> Lookup {
    Lookup { name: name.to_string(), package }
}

fn compact() -> GlobalFlags {
    let mut g = GlobalFlags::default();
    g.compact = true;
    g
}

fn verbose() -> GlobalFlags {
    let mut g = GlobalFlags::default();
    g.verbose = true;
    g
}

#[test]
fn explicit_list_shows_only_explicit_packages() {
    let pkgs = vec![
        package("bash", "5.2-1", true),
        package("glibc", "2.39-1", false),
        package("vim", "9.1-1", true),
        package("zlib", "1.3-1", false),
    ];
    assert_eq!(
        list_explicit_packages(&GlobalFlags::default(), &pkgs),
        strings(&[
            "Explicitly installed packages",
            "bash 5.2-1",
            "vim 9.1-1",
            "",
            "Matches: 2",
        ])
    );
    assert_eq!(list_explicit_packages(&compact(), &pkgs), strings(&["bash 5.2-1", "vim 9.1-1"]));
}

#[test]
fn explicit_list_says_when_nothing_is_found() {
    let pkgs = vec![package("glibc", "2.39-1", false)];
    assert_eq!(
        list_explicit_packages(&GlobalFlags::default(), &pkgs),
        strings(&["Explicitly installed packages", "No results found"])
    );
    assert_eq!(
        list_explicit_packages(&GlobalFlags::default(), &Vec::new()),
        strings(&["Explicitly installed packages", "No results found"])
    );
    assert_eq!(list_explicit_packages(&compact(), &Vec::new()), strings(&["No results found"]));
}

#[test]
fn repository_search_shows_repository_and_description() {
    let mut a = package("firefox", "120.0-1", false);
    a.repo = Some("extra".to_string());
    let mut b = package("firefox-i18n", "120.0-1", false);
    b.repo = Some("extra".to_string());
    b.desc = None;
    let found = vec![a, b];
    assert_eq!(
        search_repos(&GlobalFlags::default(), &strings(&["fire", "fox"]), &found),
        strings(&[
            "Searching repositories for: fire fox",
            "extra/firefox 120.0-1",
            "    firefox description",
            "extra/firefox-i18n 120.0-1",
            "",
            "Matches: 2",
        ])
    );
    assert_eq!(
        search_repos(&compact(), &strings(&["fire"]), &found),
        strings(&["extra/firefox 120.0-1", "extra/firefox-i18n 120.0-1"])
    );
    assert_eq!(
        search_repos(&GlobalFlags::default(), &strings(&["nothing"]), &Vec::new()),
        strings(&["Searching repositories for: nothing", "No results found"])
    );
}

#[test]
fn verbose_rows_add_architecture_and_size() {
    let mut a = package("firefox", "120.0-1", false);
    a.repo = Some("extra".to_string());
    a.installed_size = -5;
    let mut b = package("b", "1", false);
    b.arch = None;
    b.installed_size = 0;
    assert_eq!(
        search_repos(&verbose(), &strings(&["x"]), &vec![a, b]),
        strings(&[
            "Searching repositories for: x",
            "extra/firefox 120.0-1",
            "    firefox description",
            "    arch: x86_64  size: -5",
            "b 1",
            "    b description",
            "    arch: unknown  size: 0",
            "",
            "Matches: 2",
        ])
    );
}

#[test]
fn installed_list_shows_descriptions_only_when_verbose() {
    let pkgs = vec![package("bash", "5.2-1", true), package("glibc", "2.39-1", false)];
    assert_eq!(
        list_installed(&GlobalFlags::default(), &pkgs),
        strings(&["Installed packages", "bash 5.2-1", "glibc 2.39-1", "", "Matches: 2"])
    );
    assert_eq!(
        list_installed(&verbose(), &pkgs),
        strings(&[
            "Installed packages",
            "bash 5.2-1",
            "    bash description",
            "    arch: x86_64  size: 1024",
            "glibc 2.39-1",
            "    glibc description",
            "    arch: x86_64  size: 1024",
            "",
            "Matches: 2",
        ])
    );
    assert_eq!(
        list_installed(&GlobalFlags::default(), &Vec::new()),
        strings(&["Installed packages", "", "Matches: 0"])
    );
}

#[test]
fn installed_search_reports_matches_or_nothing() {
    let pkgs = vec![package("bash", "5.2-1", true)];
    assert_eq!(
        search_installed(&GlobalFlags::default(), &strings(&["ba"]), &pkgs),
        strings(&[
            "Searching installed packages for: ba",
            "bash 5.2-1",
            "    bash description",
            "",
            "Matches: 1",
        ])
    );
    assert_eq!(
        search_installed(&GlobalFlags::default(), &strings(&["zz"]), &Vec::new()),
        strings(&["No results found"])
    );
}

#[test]
fn foreign_list_shows_what_no_repository_holds() {
    let pkgs = vec![
        package("bash", "5.2-1", true),
        package("paru", "2.0-1", true),
        package("yay", "12-1", false),
    ];
    let repos = vec![strings(&["glibc", "bash"]), strings(&["yay"])];
    assert_eq!(
        list_manual_packages(&GlobalFlags::default(), &pkgs, &repos),
        strings(&["Foreign packages", "paru 2.0-1", "", "Matches: 1"])
    );
    assert_eq!(
        list_manual_packages(&GlobalFlags::default(), &pkgs, &Vec::new()).len(),
        1 + 3 + 2
    );
    let all = vec![strings(&["bash", "paru", "yay"])];
    assert_eq!(
        list_manual_packages(&GlobalFlags::default(), &pkgs, &all),
        strings(&["Foreign packages", "No results found"])
    );
}

#[test]
fn details_of_an_installed_package() {
    let mut p = package("bash", "5.2-1", true);
    p.url = Some("https://www.gnu.org/software/bash".to_string());
    p.licenses = strings(&["GPL-3.0-or-later"]);
    p.depends = strings(&["glibc", "readline"]);
    p.install_date = Some(1700000000);
    assert_eq!(
        show_package_info("bash", Some(&p)).unwrap(),
        strings(&[
            "Name            : bash",
            "Version         : 5.2-1",
            "Description     : bash description",
            "Architecture    : x86_64",
            "URL             : https://www.gnu.org/software/bash",
            "Licenses        : GPL-3.0-or-later",
            "Groups          : None",
            "Depends On      : glibc  readline",
            "Optional Deps   : None",
            "Install Reason  : Explicit",
            "Install Date    : 1700000000",
            "Installed Size  : 1024",
        ])
    );
    assert_eq!(
        show_package_info("nope", None).unwrap_err(),
        "error: package 'nope' was not found"
    );
}

#[test]
fn details_of_a_repository_package() {
    let mut p = package("zlib", "1.3-1", false);
    p.desc = None;
    p.arch = None;
    p.repo = Some("core".to_string());
    let lines = show_sync_package_info("zlib", Some(&p)).unwrap();
    assert_eq!(lines.len(), 12);
    assert_eq!(lines[2], "Description     : None");
    assert_eq!(lines[3], "Architecture    : unknown");
    assert_eq!(lines[4], "URL             : None");
    assert_eq!(lines[9], "Repository      : core");
    assert_eq!(lines[10], "Download Size   : 512");
    assert_eq!(lines[11], "Installed Size  : 1024");
    p.repo = None;
    assert_eq!(show_sync_package_info("zlib", Some(&p)).unwrap()[9], "Repository      : unknown");
    assert_eq!(
        show_sync_package_info("zlib", None).unwrap_err(),
        "error: package 'zlib' was not found"
    );
    p.explicit = false;
    assert_eq!(show_package_info("zlib", Some(&p)).unwrap()[9], "Install Reason  : Depend");
    assert_eq!(show_package_info("zlib", Some(&p)).unwrap()[10], "Install Date    : 0");
}

#[test]
fn format_list_joins_with_two_spaces() {
    assert_eq!(format_list(&Vec::new()), "None");
    assert_eq!(format_list(&strings(&["a"])), "a");
    assert_eq!(format_list(&strings(&["a", "b", "c"])), "a  b  c");
    assert_eq!(not_found_message("x y"), "error: package 'x y' was not found");
}

#[test]
fn query_stops_at_the_first_missing_package() {
    let lookups = vec![
        lookup("bash", Some(package("bash", "5.2-1", true))),
        lookup("nope", None),
        lookup("vim", Some(package("vim", "9.1-1", true))),
        lookup("gone", None),
    ];
    let r = query_packages(&GlobalFlags::default(), &lookups);
    assert_eq!(r.lines, strings(&["Package query bash nope vim gone", "bash 5.2-1"]));
    assert_eq!(r.missing, Some("nope".to_string()));
    let all = vec![lookup("bash", Some(package("bash", "5.2-1", true)))];
    let r = query_packages(&compact(), &all);
    assert_eq!(r.lines, strings(&["bash 5.2-1"]));
    assert_eq!(r.missing, None);
}

#[test]
fn explicit_query_filters_and_counts() {
    let lookups = vec![
        lookup("bash", Some(package("bash", "5.2-1", true))),
        lookup("glibc", Some(package("glibc", "2.39-1", false))),
    ];
    let r = query_explicit_packages(&GlobalFlags::default(), &lookups);
    assert_eq!(
        r.lines,
        strings(&["Explicit package query bash glibc", "bash 5.2-1", "", "Matches: 1"])
    );
    assert_eq!(r.missing, None);
    let none = vec![lookup("glibc", Some(package("glibc", "2.39-1", false)))];
    let r = query_explicit_packages(&GlobalFlags::default(), &none);
    assert_eq!(r.lines, strings(&["Explicit package query glibc", "No results found"]));
    let broken = vec![lookup("bash", Some(package("bash", "5.2-1", true))), lookup("x", None)];
    let r = query_explicit_packages(&GlobalFlags::default(), &broken);
    assert_eq!(r.lines, strings(&["Explicit package query bash x", "bash 5.2-1"]));
    assert_eq!(r.missing, Some("x".to_string()));
}

#[test]
fn files_of_packages() {
    let mut p = package("bash", "5.2-1", true);
    p.files = strings(&["usr/", "usr/bin/", "usr/bin/bash"]);
    let lookups = vec![lookup("bash", Some(p)), lookup("nope", None)];
    let r = list_package_files(&GlobalFlags::default(), &lookups);
    assert_eq!(
        r.lines,
        strings(&["", "Files for bash", "  usr/", "  usr/bin/", "  usr/bin/bash", "File count: 3"])
    );
    assert_eq!(r.missing, Some("nope".to_string()));
    let r = list_package_files(&compact(), &lookups);
    assert_eq!(r.lines, strings(&["bash usr/", "bash usr/bin/", "bash usr/bin/bash"]));
}

#[test]
fn reverse_dependencies_of_packages() {
    let mut glibc = package("glibc", "2.39-1", false);
    glibc.required_by = strings(&["bash", "vim"]);
    let leaf = package("leaf", "1-1", true);
    let lookups = vec![lookup("glibc", Some(glibc)), lookup("leaf", Some(leaf))];
    let r = query_reverse_dependencies(&lookups);
    assert_eq!(
        r.lines,
        strings(&["glibc is required by:", "  bash", "  vim", "leaf has no reverse dependencies"])
    );
    assert_eq!(r.missing, None);
    let r = query_reverse_dependencies(&vec![lookup("x", None)]);
    assert!(r.lines.is_empty());
    assert_eq!(r.missing, Some("x".to_string()));
}

#[test]
fn owners_of_paths() {
    let mut bash = package("bash", "5.2-1", true);
    bash.files = strings(&["usr/bin/bash", "usr/share/"]);
    let mut vim = package("vim", "9.1-1", true);
    vim.files = strings(&["usr/bin/vi", "usr/share/"]);
    let pkgs = vec![bash, vim];
    let r = query_owns(&strings(&["/usr/bin/vi", "usr/share/", "//usr/bin/bash", "/none"]), &pkgs);
    assert_eq!(r.len(), 4);
    assert!(!r[0].error);
    assert_eq!(r[0].text, "/usr/bin/vi is owned by vim");
    assert!(!r[1].error);
    assert_eq!(r[1].text, "usr/share/ is owned by bash");
    assert!(r[2].error);
    assert_eq!(r[2].text, "error: No package owns //usr/bin/bash");
    assert!(r[3].error);
    assert_eq!(r[3].text, "error: No package owns /none");
    assert_eq!(normalize_query_path("/usr/bin/vi"), "usr/bin/vi");
    assert_eq!(normalize_query_path("usr/bin/vi"), "usr/bin/vi");
    assert_eq!(normalize_query_path("//x"), "/x");
    assert_eq!(normalize_query_path(""), "");
}

#[test]
fn sync_targets_come_from_the_first_repository_that_holds_them() {
    let repos = vec![strings(&["glibc", "bash"]), strings(&["bash", "firefox"]), strings(&[])];
    assert_eq!(find_sync_pkg(&repos, "bash"), Ok(0));
    assert_eq!(find_sync_pkg(&repos, "firefox"), Ok(1));
    assert_eq!(
        find_sync_pkg(&repos, "nope"),
        Err("error: target not found: nope".to_string())
    );
    assert_eq!(
        find_sync_pkg(&Vec::new(), "bash"),
        Err("error: target not found: bash".to_string())
    );
    assert!(find_local_pkg(&strings(&["a", "b"]), "b"));
    assert!(!find_local_pkg(&strings(&["a", "b"]), "c"));
}

#[test]
fn targets_are_resolved_all_or_none() {
    let repos = vec![strings(&["glibc", "bash"]), strings(&["bash", "firefox"])];
    assert_eq!(resolve_sync_targets(&repos, &strings(&["firefox", "bash", "glibc"])), Ok(vec![1, 0, 0]));
    assert_eq!(resolve_sync_targets(&repos, &Vec::new()), Ok(Vec::new()));
    assert_eq!(
        resolve_sync_targets(&repos, &strings(&["bash", "nope", "firefox", "gone"])),
        Err("error: target not found: nope".to_string())
    );
    let installed = strings(&["bash", "vim"]);
    assert_eq!(resolve_local_targets(&installed, &strings(&["vim", "bash"])), None);
    assert_eq!(
        resolve_local_targets(&installed, &strings(&["vim", "x", "y"])),
        Some("x".to_string())
    );
    assert_eq!(resolve_local_targets(&installed, &Vec::new()), None);
}
