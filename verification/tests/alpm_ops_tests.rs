use rustpack::alpm_ops::{
    detect_distro, ensure_db_unlocked, has_local_pkg_dir, lock_path, preflight_paths,
    preflight_transaction, root_join, Distro, PreflightErrorKind, PreflightFacts,
};
use rustpack::config::PacmanConfig;

fn strings(items: &[&str]) -> Vec<String> {
    items.iter().map(|s| s.to_string()).collect()
}

fn ready() -> PreflightFacts {
    PreflightFacts {
        lock_exists: false,
        gpg_dir_exists: true,
        pubring_kbx_exists: false,
        pubring_gpg_exists: true,
        trustdb_exists: true,
        os_release: Some("ID=arch\n".to_string()),
        local_entries: strings(&["bash-5.2-1", "archlinux-keyring-20240101-1"]),
    }
}

#[test]
fn root_join_drops_doubled_slashes() {
    assert_eq!(root_join("/", "/etc/os-release"), "/etc/os-release");
    assert_eq!(root_join("/", "etc"), "/etc");
    assert_eq!(root_join("/mnt", "/etc/pacman.d/gnupg"), "/mnt/etc/pacman.d/gnupg");
    assert_eq!(root_join("/mnt//", "//etc"), "/mnt/etc");
    assert_eq!(root_join("", "etc"), "/etc");
    assert_eq!(root_join("//", "x"), "/x");
}

#[test]
fn places_of_the_checks() {
    let mut c = PacmanConfig::default();
    let p = preflight_paths(&c);
    assert_eq!(p.lock, "/var/lib/pacman/db.lck");
    assert_eq!(lock_path(&c), "/var/lib/pacman/db.lck");
    assert_eq!(p.gpg_dir, "/etc/pacman.d/gnupg");
    assert_eq!(p.pubring_kbx, "/etc/pacman.d/gnupg/pubring.kbx");
    assert_eq!(p.pubring_gpg, "/etc/pacman.d/gnupg/pubring.gpg");
    assert_eq!(p.trustdb, "/etc/pacman.d/gnupg/trustdb.gpg");
    assert_eq!(p.os_release, "/etc/os-release");
    assert_eq!(p.local_db, "/var/lib/pacman/local");
    c.root_dir = "/mnt".to_string();
    c.db_path = "/mnt/db/".to_string();
    c.gpg_dir = Some("/keys/".to_string());
    let p = preflight_paths(&c);
    assert_eq!(p.lock, "/mnt/db/db.lck");
    assert_eq!(p.gpg_dir, "/mnt/keys/");
    assert_eq!(p.trustdb, "/mnt/keys/trustdb.gpg");
    assert_eq!(p.os_release, "/mnt/etc/os-release");
}

#[test]
fn locked_database_is_refused() {
    let c = PacmanConfig::default();
    assert!(ensure_db_unlocked(&c, false).is_ok());
    let e = ensure_db_unlocked(&c, true).unwrap_err();
    assert_eq!(e.kind, PreflightErrorKind::DatabaseLocked);
    assert_eq!(e.path, "/var/lib/pacman/db.lck");
    assert_eq!(e.message(), "database is locked (found /var/lib/pacman/db.lck)");
}

#[test]
fn preflight_passes_when_everything_is_there() {
    assert!(preflight_transaction(&PacmanConfig::default(), &ready()).is_ok());
}

#[test]
fn preflight_reports_the_first_failure() {
    let c = PacmanConfig::default();
    let mut f = ready();
    f.lock_exists = true;
    f.gpg_dir_exists = false;
    let e = preflight_transaction(&c, &f).unwrap_err();
    assert_eq!(e.kind, PreflightErrorKind::DatabaseLocked);
    f.lock_exists = false;
    let e = preflight_transaction(&c, &f).unwrap_err();
    assert_eq!(e.kind, PreflightErrorKind::KeyringDirMissing);
    assert_eq!(
        e.message(),
        "keyring directory missing at /etc/pacman.d/gnupg (run pacman-key --init and repopulate keyrings)"
    );
    let mut f = ready();
    f.pubring_gpg_exists = false;
    let e = preflight_transaction(&c, &f).unwrap_err();
    assert_eq!(
        e.message(),
        "no keyring public keyring file in /etc/pacman.d/gnupg (expected pubring.kbx or pubring.gpg)"
    );
    let mut f = ready();
    f.trustdb_exists = false;
    let e = preflight_transaction(&c, &f).unwrap_err();
    assert_eq!(e.message(), "keyring trustdb missing at /etc/pacman.d/gnupg/trustdb.gpg");
    let mut f = ready();
    f.local_entries = strings(&["bash-5.2-1"]);
    let e = preflight_transaction(&c, &f).unwrap_err();
    assert_eq!(e.kind, PreflightErrorKind::ArchKeyringMissing);
    assert_eq!(
        e.message(),
        "archlinux-keyring is not installed in the local package database"
    );
}

#[test]
fn cachyos_needs_its_own_keyring() {
    let c = PacmanConfig::default();
    let mut f = ready();
    f.os_release = Some("NAME=CachyOS\nID=cachyos\n".to_string());
    let e = preflight_transaction(&c, &f).unwrap_err();
    assert_eq!(e.kind, PreflightErrorKind::CachyKeyringMissing);
    assert_eq!(e.message(), "cachyos-keyring is not installed in the local package database");
    f.local_entries.push("cachyos-keyring-3-1".to_string());
    assert!(preflight_transaction(&c, &f).is_ok());
}

#[test]
fn keyring_distro() {
    assert_eq!(detect_distro(None), Distro::Other);
    assert_eq!(detect_distro(Some("ID=Arch")), Distro::Arch);
    assert_eq!(detect_distro(Some("ID_LIKE=arch")), Distro::Arch);
    assert_eq!(detect_distro(Some("ID=cachyos")), Distro::CachyOS);
    assert_eq!(detect_distro(Some("ID_LIKE=\"cachyos\"")), Distro::Other);
    assert_eq!(detect_distro(Some("ID=fedora")), Distro::Other);
}

#[test]
fn local_package_directories() {
    let entries = strings(&["bash-5.2-1", "archlinux-keyring-2024-1", "ALPM_DB_VERSION"]);
    assert!(has_local_pkg_dir(&entries, "archlinux-keyring-"));
    assert!(has_local_pkg_dir(&entries, "bash"));
    assert!(has_local_pkg_dir(&entries, ""));
    assert!(!has_local_pkg_dir(&entries, "cachyos-keyring-"));
    assert!(!has_local_pkg_dir(&Vec::new(), ""));
}
