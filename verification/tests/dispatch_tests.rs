use rustpack::cli::GlobalFlags;
use rustpack::dispatch::{
    aur_request, authorize, dispatch, handle_query, handle_sync, is_lock_failure,
    runtime_error_lines, safety_warnings, warning_text, Route, Step, Warning,
};
use rustpack::download::download_database;
use rustpack::parser::parse_args;
use rustpack::transaction::Preflight;

fn strings(items: &[&str]) -> Vec<String> {
    items.iter().map(|s| s.to_string()).collect()
}

fn step_of(items: &[&str]) -> Step {
    dispatch(&parse_args(&strings(items)).unwrap())
}

fn reading(route: Route) -> Step {
    Step { route, needs_root: false, preflight: Preflight::Nothing }
}

#[test]
fn sync_routes() {
    assert_eq!(step_of(&["-Ss", "x"]), reading(Route::SearchRepos));
    assert_eq!(step_of(&["-Si", "x"]), reading(Route::SyncInfo));
    assert_eq!(
        step_of(&["-Scc"]),
        Step { route: Route::CleanCache(2), needs_root: true, preflight: Preflight::Unlocked }
    );
    assert_eq!(
        step_of(&["-Syu"]),
        Step {
            route: Route::SyncInstall { refresh: true, upgrade: true },
            needs_root: true,
            preflight: Preflight::Full,
        }
    );
    assert_eq!(
        step_of(&["-Sy", "firefox"]),
        Step {
            route: Route::SyncInstall { refresh: true, upgrade: false },
            needs_root: true,
            preflight: Preflight::Full,
        }
    );
    assert_eq!(
        step_of(&["-S", "firefox"]),
        Step { route: Route::InstallPackages, needs_root: true, preflight: Preflight::Full }
    );
    let parsed = parse_args(&strings(&["-S", "firefox"])).unwrap();
    assert_eq!(handle_sync(&parsed), dispatch(&parsed));
}

#[test]
fn query_routes() {
    assert_eq!(step_of(&["-Q"]), reading(Route::ListInstalled));
    assert_eq!(step_of(&["-Q", "bash"]), reading(Route::QueryPackages));
    assert_eq!(step_of(&["-Qi", "bash"]), reading(Route::QueryInfo));
    assert_eq!(step_of(&["-Qs", "bash"]), reading(Route::QuerySearch));
    assert_eq!(step_of(&["-Ql", "bash"]), reading(Route::ListFiles));
    assert_eq!(step_of(&["-Qm"]), reading(Route::ListManual));
    assert_eq!(step_of(&["-Qo", "/bin/sh"]), reading(Route::Owns));
    assert_eq!(step_of(&["-Qe"]), reading(Route::ListExplicit));
    assert_eq!(step_of(&["-Qe", "bash"]), reading(Route::QueryExplicit));
    assert_eq!(step_of(&["-Qr", "glibc"]), reading(Route::ReverseDependencies));
    let parsed = parse_args(&strings(&["-Qe"])).unwrap();
    assert_eq!(handle_query(&parsed), reading(Route::ListExplicit));
}

#[test]
fn other_routes() {
    assert_eq!(
        step_of(&["-R", "x"]),
        Step { route: Route::Remove, needs_root: true, preflight: Preflight::Unlocked }
    );
    assert_eq!(
        step_of(&["-U", "x.pkg.tar.zst"]),
        Step { route: Route::InstallLocal, needs_root: true, preflight: Preflight::Full }
    );
    assert_eq!(step_of(&["doctor"]), reading(Route::Doctor));
    assert_eq!(step_of(&["history", "5"]), reading(Route::History));
    assert_eq!(step_of(&["-h"]), reading(Route::Usage));
    assert_eq!(step_of(&[]), reading(Route::Usage));
}

#[test]
fn changes_are_for_root_only() {
    let change = step_of(&["-S", "x"]);
    assert!(authorize(&change, true).is_ok());
    assert_eq!(
        authorize(&change, false),
        Err("error: you cannot perform this operation unless you are root.".to_string())
    );
    let read = step_of(&["-Qe"]);
    assert!(authorize(&read, false).is_ok());
    assert!(authorize(&read, true).is_ok());
}

#[test]
fn warnings_for_risky_options() {
    let mut g = GlobalFlags::default();
    assert!(safety_warnings(&g).is_empty());
    g.nodeps = 1;
    assert_eq!(safety_warnings(&g), vec![Warning::DependencyChecksDisabled]);
    g.noscriptlet = true;
    g.overwrite = strings(&["/usr/*"]);
    assert_eq!(
        safety_warnings(&g),
        vec![
            Warning::DependencyChecksDisabled,
            Warning::ScriptletsDisabled,
            Warning::OverwriteAllowed,
        ]
    );
    g.nodeps = 0;
    assert_eq!(safety_warnings(&g), vec![Warning::ScriptletsDisabled, Warning::OverwriteAllowed]);
    g.strict = true;
    assert!(safety_warnings(&g).is_empty());
    assert_eq!(
        warning_text(Warning::DependencyChecksDisabled),
        "warning: dependency checks are disabled; this can break package consistency"
    );
    assert_eq!(
        warning_text(Warning::ScriptletsDisabled),
        "warning: scriptlets are disabled; some packages may not configure correctly"
    );
    assert_eq!(
        warning_text(Warning::OverwriteAllowed),
        "warning: --overwrite can replace files owned by other packages; review targets carefully"
    );
}

#[test]
fn locked_database_gets_a_hint() {
    assert!(is_lock_failure("database is locked (found /var/lib/pacman/db.lck)"));
    assert!(is_lock_failure("Unable to Lock Database"));
    assert!(is_lock_failure("failed: /x/DB.LCK exists"));
    assert!(!is_lock_failure("could not find package"));
    assert_eq!(
        runtime_error_lines("unable to lock database"),
        strings(&[
            "error: package database is locked by another process.",
            "hint: wait for the other package manager process to finish.",
            "hint: if no package manager is running, remove the stale lock file manually.",
        ])
    );
    assert_eq!(
        runtime_error_lines("target not found: x"),
        strings(&["error: target not found: x"])
    );
}

#[test]
fn handing_over_to_the_helper() {
    assert_eq!(aur_request(&strings(&["-S", "firefox"])), None);
    assert_eq!(aur_request(&Vec::new()), None);
    assert_eq!(
        aur_request(&strings(&["--aur", "-S", "--paru", "yay", "--aur"])),
        Some(strings(&["-S", "yay"]))
    );
    assert_eq!(aur_request(&strings(&["--paru"])), Some(Vec::new()));
    assert_eq!(aur_request(&strings(&["--aurx"])), None);
}

#[test]
fn database_downloads() {
    let d = download_database("https://mirror.example.com/core/os/x86_64", "core", "/var/lib/sync");
    assert_eq!(d.url, "https://mirror.example.com/core/os/x86_64/core.db");
    assert_eq!(d.dest, "/var/lib/sync/core.db");
    assert_eq!(
        d.message,
        "  Downloading core.db from https://mirror.example.com/core/os/x86_64"
    );
    let d = download_database("s", "r", "dir/");
    assert_eq!(d.dest, "dir/r.db");
}
