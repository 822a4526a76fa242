use rustpack::cli::RemoveFlags;
use rustpack::install::{
    add_summary, add_summary_lines, change_lines, format_net_bytes, magnitude, prepare_failure,
    remove_summary, remove_summary_lines, verbose_line, warn_remove_breakage, AddSummary,
    DoomedPackage, PendingPackage, RemoveSummary,
};
use rustpack::search::{Lookup, Package};
use rustpack::transaction::Kind;

fn strings(items: &[&str]) -> Vec<String> {
    items.iter().map(|s| s.to_string()).collect()
}

fn pending(name: &str, arch: Option<&str>, download: i64, size: i64, old: i64) -> PendingPackage {
    PendingPackage {
        name: name.to_string(),
        version: "2-1".to_string(),
        arch: arch.map(|a| a.to_string()),
        download_size: download,
        installed_size: size,
        old_size: old,
        old_version: if old > 0 { Some("1-1".to_string()) } else { None },
    }
}

fn installed(name: &str, required_by: &[&str]) -> Lookup {
    Lookup {
        name: name.to_string(),
        package: Some(Package {
            repo: None,
            name: name.to_string(),
            version: "1-1".to_string(),
            desc: None,
            arch: None,
            url: None,
            licenses: Vec::new(),
            groups: Vec::new(),
            depends: Vec::new(),
            optdepends: Vec::new(),
            explicit: true,
            install_date: None,
            installed_size: 0,
            download_size: 0,
            required_by: strings(required_by),
            files: Vec::new(),
        }),
    }
}

#[test]
fn totals_of_an_installing_changeset() {
    let pkgs = vec![
        pending("a", Some("x86_64"), 100, 1000, 0),
        pending("b", Some("any"), 50, 400, 600),
        pending("c", None, 0, 10, 10),
    ];
    assert_eq!(
        add_summary(&pkgs),
        Some(AddSummary { install_count: 1, upgrade_count: 2, total_download: 150, net_change: 800 })
    );
    assert_eq!(
        add_summary(&Vec::new()),
        Some(AddSummary { install_count: 0, upgrade_count: 0, total_download: 0, net_change: 0 })
    );
    let shrinking = vec![pending("a", None, -5, 10, 500)];
    assert_eq!(
        add_summary(&shrinking),
        Some(AddSummary { install_count: 0, upgrade_count: 1, total_download: 0, net_change: -490 })
    );
}

#[test]
fn totals_that_do_not_fit_give_nothing() {
    let pkgs = vec![pending("a", None, i64::MAX, 0, 0), pending("b", None, 1, 0, 0)];
    assert_eq!(add_summary(&pkgs), None);
    let pkgs = vec![pending("a", None, 0, i64::MAX, -1)];
    assert_eq!(add_summary(&pkgs), None);
    let pkgs = vec![pending("a", None, 0, i64::MAX, 0), pending("b", None, 0, 0, i64::MAX)];
    assert_eq!(add_summary(&pkgs).unwrap().net_change, 0);
    let doomed = vec![
        DoomedPackage { name: "a".to_string(), installed_size: i64::MAX },
        DoomedPackage { name: "b".to_string(), installed_size: 1 },
    ];
    assert_eq!(remove_summary(&doomed), None);
}

#[test]
fn totals_of_a_removal() {
    let doomed = vec![
        DoomedPackage { name: "a".to_string(), installed_size: 700 },
        DoomedPackage { name: "b".to_string(), installed_size: 300 },
    ];
    assert_eq!(remove_summary(&doomed), Some(RemoveSummary { remove_count: 2, reclaimed: 1000 }));
    let odd = vec![DoomedPackage { name: "a".to_string(), installed_size: -3 }];
    assert_eq!(remove_summary(&odd), Some(RemoveSummary { remove_count: 1, reclaimed: 0 }));
}

#[test]
fn summary_lines() {
    let s = AddSummary { install_count: 1, upgrade_count: 2, total_download: 150, net_change: 800 };
    assert_eq!(
        add_summary_lines(false, &s, "150 B", "+800 B"),
        strings(&[
            "",
            "Transaction Summary",
            "  Install: 1",
            "  Upgrade: 2",
            "  Download Size: 150 B",
            "  Net Installed Size: +800 B",
        ])
    );
    assert_eq!(
        add_summary_lines(true, &s, "150 B", "+800 B"),
        strings(&["summary: install=1 upgrade=2 download=150 B net=+800 B"])
    );
    let r = RemoveSummary { remove_count: 3, reclaimed: 2048 };
    assert_eq!(
        remove_summary_lines(false, &r, "2.0 KiB", "-2.0 KiB"),
        strings(&[
            "",
            "Transaction Summary",
            "  Remove: 3",
            "  Reclaimed Space: 2.0 KiB",
            "  Net Installed Size: -2.0 KiB",
        ])
    );
    assert_eq!(
        remove_summary_lines(true, &r, "2.0 KiB", "-2.0 KiB"),
        strings(&["summary: remove=3 reclaimed=2.0 KiB net=-2.0 KiB"])
    );
}

#[test]
fn sign_of_a_change() {
    assert_eq!(format_net_bytes(0, "0 B"), "+0 B");
    assert_eq!(format_net_bytes(2048, "2.0 KiB"), "+2.0 KiB");
    assert_eq!(format_net_bytes(-2048, "2.0 KiB"), "-2.0 KiB");
    assert_eq!(magnitude(0), 0);
    assert_eq!(magnitude(17), 17);
    assert_eq!(magnitude(-17), 17);
    assert_eq!(magnitude(i64::MAX), 9223372036854775807);
    assert_eq!(magnitude(i64::MIN), 9223372036854775808);
}

#[test]
fn architecture_failures_name_the_offenders() {
    let pkgs = vec![
        pending("good", Some("x86_64"), 0, 0, 0),
        pending("bad", Some("aarch64"), 0, 0, 0),
        pending("free", Some("any"), 0, 0, 0),
        pending("blank", None, 0, 0, 0),
    ];
    let allowed = strings(&["x86_64", "x86_64_v3"]);
    assert_eq!(
        prepare_failure("package Architecture is not valid", &allowed, &pkgs),
        "package Architecture is not valid\nAllowed architectures: x86_64, x86_64_v3\nInvalid package architectures: bad (aarch64), blank (unknown)"
    );
    assert_eq!(
        prepare_failure("could not satisfy dependencies", &allowed, &pkgs),
        "could not satisfy dependencies"
    );
    assert_eq!(
        prepare_failure("wrong architecture", &allowed, &pkgs[..1].to_vec()),
        "wrong architecture"
    );
    assert_eq!(prepare_failure("", &allowed, &pkgs), "");
}

#[test]
fn list_of_changes() {
    let pkgs = vec![pending("a", None, 0, 10, 0), pending("b", None, 0, 10, 5)];
    assert_eq!(
        change_lines(false, &pkgs),
        strings(&["", "Packages to upgrade/install:", "  a none -> 2-1", "  b 1-1 -> 2-1"])
    );
    assert!(change_lines(true, &pkgs).is_empty());
    assert_eq!(change_lines(false, &Vec::new()), strings(&["", "Packages to upgrade/install:"]));
}

#[test]
fn removal_warns_of_dependents_outside_the_targets() {
    let keep = RemoveFlags { recursive: false, nosave: false };
    let targets = vec![
        installed("glibc", &["bash", "vim", "gcc"]),
        installed("bash", &["glibc", "scripts"]),
        installed("leaf", &[]),
        installed("vim", &["bash"]),
    ];
    let r = warn_remove_breakage(&targets, &keep);
    assert_eq!(
        r.lines,
        strings(&[
            "warning: removing 'glibc' may break dependent packages: gcc",
            "warning: removing 'bash' may break dependent packages: scripts",
            "hint: use -Rs to remove packages with their unneeded dependencies.",
        ])
    );
    assert_eq!(r.missing, None);
    let quiet = vec![installed("leaf", &[]), installed("vim", &["leaf"])];
    let r = warn_remove_breakage(&quiet, &keep);
    assert!(r.lines.is_empty());
    assert_eq!(r.missing, None);
}

#[test]
fn removal_of_a_missing_target_stops_the_report() {
    let keep = RemoveFlags { recursive: false, nosave: false };
    let targets = vec![
        installed("glibc", &["gcc"]),
        Lookup { name: "nope".to_string(), package: None },
        installed("bash", &["scripts"]),
    ];
    let r = warn_remove_breakage(&targets, &keep);
    assert_eq!(r.lines, strings(&["warning: removing 'glibc' may break dependent packages: gcc"]));
    assert_eq!(r.missing, Some("nope".to_string()));
    let recursive = RemoveFlags { recursive: true, nosave: false };
    let r = warn_remove_breakage(&targets, &recursive);
    assert!(r.lines.is_empty());
    assert_eq!(r.missing, None);
}

#[test]
fn verbose_lines() {
    let t = strings(&["a", "b"]);
    assert_eq!(
        verbose_line(Kind::Install, false, false, &t),
        ":: verbose: operation=install targets=a b"
    );
    assert_eq!(
        verbose_line(Kind::InstallLocal, false, false, &t),
        ":: verbose: operation=install-local files=a b"
    );
    assert_eq!(
        verbose_line(Kind::Remove, true, true, &t),
        ":: verbose: operation=remove targets=a b"
    );
    assert_eq!(
        verbose_line(Kind::Sync, true, false, &Vec::new()),
        ":: verbose: operation=sync refresh=true upgrade=false targets="
    );
}
