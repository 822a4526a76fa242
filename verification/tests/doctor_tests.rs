use rustpack::alpm_ops::Distro;
use rustpack::config::{PacmanConfig, Repository};
use rustpack::doctor::{
    detect_distro, distro_name, render, root_join, run, DoctorFacts, Finding, Level, Report,
};

fn strings(items: &[&str]) -> Vec<String> {
    items.iter().map(|s| s.to_string()).collect()
}

fn healthy() -> DoctorFacts {
    DoctorFacts {
        os_release: Some("NAME=\"Arch Linux\"\nID=arch\n".to_string()),
        root_exists: true,
        db_path_exists: true,
        local_db_exists: true,
        lock_exists: false,
        cache_exists: true,
        gpg_dir_exists: true,
        pubring_kbx_exists: true,
        pubring_gpg_exists: false,
        trustdb_exists: true,
    }
}

fn repo(name: &str, servers: &[&str]) -> Repository {
    Repository {
        name: name.to_string(),
        servers: strings(servers),
        sig_level: "Required DatabaseOptional".to_string(),
    }
}

fn arch_config() -> PacmanConfig {
    let mut c = PacmanConfig::default();
    c.repositories = vec![
        repo("core", &["https://a/$repo/os/$arch"]),
        repo("Extra", &["https://a/$repo/os/$arch", "https://b/$repo"]),
    ];
    c
}

fn labels(r: &Report, level: Level) -> Vec<String> {
    r.findings.iter().filter(|f| f.level == level).map(|f| f.label.clone()).collect()
}

#[test]
fn healthy_arch_system_passes_every_check() {
    let r = run(&arch_config(), &healthy());
    assert_eq!(r.warn, 0);
    assert_eq!(r.fail, 0);
    assert_eq!(r.ok, 11);
    assert!(!r.failed());
    assert_eq!(
        labels(&r, Level::Pass),
        strings(&[
            "Root directory exists",
            "Package database path exists",
            "Local package database exists",
            "No active database lock file",
            "Package cache path exists",
            "GPG directory exists",
            "Keyring public keyring file exists",
            "Keyring trustdb exists",
            "Repositories configured",
            "All repositories include HTTPS mirrors",
            "Arch baseline repositories present (core, extra)",
        ])
    );
}

#[test]
fn broken_system_fails() {
    let facts = DoctorFacts {
        os_release: None,
        root_exists: false,
        db_path_exists: false,
        local_db_exists: false,
        lock_exists: true,
        cache_exists: false,
        gpg_dir_exists: false,
        pubring_kbx_exists: false,
        pubring_gpg_exists: false,
        trustdb_exists: false,
    };
    let r = run(&PacmanConfig::default(), &facts);
    assert!(r.failed());
    assert_eq!(r.ok, 0);
    assert_eq!(
        labels(&r, Level::Fail),
        strings(&[
            "Root directory does not exist",
            "Package database path does not exist",
            "Local package database is missing",
            "GPG directory is missing",
            "No keyring public keyring file found (pubring.kbx/pubring.gpg)",
            "No repositories configured",
        ])
    );
    assert_eq!(
        labels(&r, Level::Warn),
        strings(&[
            "Database lock file exists (possible active package manager or stale lock)",
            "Package cache path is missing",
            "Keyring trustdb.gpg not found",
            "Distro is not recognized as Arch/CachyOS; only generic checks were applied",
        ])
    );
    assert_eq!(r.fail, 6);
    assert_eq!(r.warn, 4);
    assert_eq!(r.findings.len(), 10);
}

#[test]
fn repositories_are_checked_for_mirrors() {
    let mut c = PacmanConfig::default();
    c.repositories = vec![
        repo("core", &["http://a", "https://b", "ftp://c"]),
        repo("plain", &["http://a"]),
        repo("bare", &[]),
    ];
    let r = run(&c, &healthy());
    assert_eq!(labels(&r, Level::Fail), strings(&["Repository 'bare' has no servers"]));
    assert_eq!(
        labels(&r, Level::Warn),
        strings(&[
            "Repository 'core' has non-HTTPS mirrors (2 of 3)",
            "Repository 'plain' has non-HTTPS mirrors (1 of 1)",
            "Arch baseline repositories missing one of: core, extra",
        ])
    );
    assert!(!labels(&r, Level::Pass).contains(&"All repositories include HTTPS mirrors".to_string()));
    c.repositories = vec![repo("core", &["http://a", "https://b"]), repo("bare", &[])];
    let r = run(&c, &healthy());
    assert!(labels(&r, Level::Pass).contains(&"All repositories include HTTPS mirrors".to_string()));
}

#[test]
fn cachyos_checks() {
    let mut facts = healthy();
    facts.os_release = Some("ID=cachyos\nID_LIKE=arch\n".to_string());
    let mut c = PacmanConfig::default();
    c.repositories = vec![
        repo("CachyOS-v3", &["https://m/$arch_v3/$repo"]),
        repo("core", &["https://m/$repo"]),
    ];
    let r = run(&c, &facts);
    let pass = labels(&r, Level::Pass);
    assert!(pass.contains(&"CachyOS repositories detected".to_string()));
    assert!(pass.contains(&"Architecture-optimized mirror patterns detected (v3/v4)".to_string()));
    c.repositories = vec![repo("core", &["https://m/$repo"])];
    let r = run(&c, &facts);
    assert_eq!(
        labels(&r, Level::Warn),
        strings(&[
            "No CachyOS repositories detected (expected for optimized CachyOS setups)",
            "No architecture-optimized mirror patterns detected (v3/v4)",
        ])
    );
    c.repositories = vec![repo("core", &["https://m/x86_64_v4/$repo"])];
    let r = run(&c, &facts);
    assert!(labels(&r, Level::Pass)
        .contains(&"Architecture-optimized mirror patterns detected (v3/v4)".to_string()));
}

#[test]
fn distro_from_os_release() {
    assert_eq!(detect_distro(None), Distro::Other);
    assert_eq!(detect_distro(Some("")), Distro::Other);
    assert_eq!(detect_distro(Some("ID=arch")), Distro::Arch);
    assert_eq!(detect_distro(Some("ID=manjaro\nID_LIKE=arch")), Distro::Arch);
    assert_eq!(detect_distro(Some("ID=CachyOS")), Distro::CachyOS);
    assert_eq!(detect_distro(Some("ID=x\nID_LIKE=\"cachyos arch\"")), Distro::CachyOS);
    assert_eq!(detect_distro(Some("ID=debian")), Distro::Other);
    assert_eq!(distro_name(Distro::Arch), "Arch Linux");
    assert_eq!(distro_name(Distro::CachyOS), "CachyOS");
    assert_eq!(distro_name(Distro::Other), "Unknown/Other");
}

#[test]
fn report_counts_its_findings() {
    let mut r = Report::new();
    assert_eq!((r.ok, r.warn, r.fail), (0, 0, 0));
    assert!(r.findings.is_empty());
    r.ok("a");
    r.warn("b");
    r.warn("c");
    r.fail("d");
    assert_eq!((r.ok, r.warn, r.fail), (1, 2, 1));
    assert_eq!(
        r.findings,
        vec![
            Finding { level: Level::Pass, label: "a".to_string() },
            Finding { level: Level::Warn, label: "b".to_string() },
            Finding { level: Level::Warn, label: "c".to_string() },
            Finding { level: Level::Fail, label: "d".to_string() },
        ]
    );
    assert!(r.failed());
}

#[test]
fn rendering_of_a_report() {
    let mut r = Report::new();
    r.ok("fine");
    r.warn("hm");
    r.fail("bad");
    let c = PacmanConfig::default();
    assert_eq!(
        render(&c, Distro::CachyOS, &r),
        strings(&[
            "rustpack doctor",
            "Detected distro profile: CachyOS",
            "Root: /",
            "DBPath: /var/lib/pacman",
            "CacheDir: /var/cache/pacman/pkg",
            "",
            "[OK] fine",
            "[WARN] hm",
            "[FAIL] bad",
            "",
            "Doctor summary: ok=1 warn=1 fail=1",
        ])
    );
}

#[test]
fn paths_below_the_root() {
    assert_eq!(root_join("/", "/etc/os-release"), "/etc/os-release");
    assert_eq!(root_join("/mnt", "/etc/os-release"), "/mnt/etc/os-release");
    assert_eq!(root_join("/mnt/", "///etc/pacman.d/gnupg"), "/mnt/etc/pacman.d/gnupg");
    assert_eq!(root_join("", "etc"), "etc");
}
