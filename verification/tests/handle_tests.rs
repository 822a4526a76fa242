use rustpack::cli::GlobalFlags;
use rustpack::config::{PacmanConfig, Repository};
use rustpack::handle::{
    enforce_strict_config, handle_settings, local_file_siglevel, parse_siglevel, siglevel_is_weak,
    SigLevel, WeakSetting,
};

fn strings(items: &[&str]) -> Vec<String> {
    items.iter().map(|s| s.to_string()).collect()
}

fn level(package: bool, package_optional: bool, database: bool, database_optional: bool) -> SigLevel {
    SigLevel { package, package_optional, database, database_optional, use_default: false }
}

fn default_level() -> SigLevel {
    SigLevel {
        package: false,
        package_optional: false,
        database: false,
        database_optional: false,
        use_default: true,
    }
}

fn parse(s: &str) -> Option<SigLevel> {
    parse_siglevel(Some(&s.to_string()))
}

#[test]
fn signature_levels() {
    assert_eq!(parse_siglevel(None), None);
    assert_eq!(parse(""), None);
    assert_eq!(parse("Required"), Some(level(true, false, false, false)));
    assert_eq!(parse("Required DatabaseOptional"), Some(level(true, false, false, true)));
    assert_eq!(parse("  Optional\tDatabaseRequired  "), Some(level(false, true, true, false)));
    assert_eq!(parse("Never"), Some(level(false, false, false, false)));
    assert_eq!(parse("Required Never"), Some(level(false, false, false, false)));
    assert_eq!(parse("UseDefault"), Some(default_level()));
    assert_eq!(parse("Never UseDefault"), Some(default_level()));
    assert_eq!(parse("DatabaseNever"), Some(level(false, false, false, false)));
    assert_eq!(parse("TrustAll"), None);
    assert_eq!(parse("required"), None);
    assert_eq!(parse("PackageRequired"), None);
}

#[test]
fn local_file_level_falls_back_to_the_default() {
    let mut c = PacmanConfig::default();
    assert_eq!(local_file_siglevel(&c), default_level());
    c.local_file_sig_level = Some("Optional".to_string());
    assert_eq!(local_file_siglevel(&c), level(false, true, false, false));
    c.local_file_sig_level = Some("whatever".to_string());
    assert_eq!(local_file_siglevel(&c), default_level());
}

#[test]
fn weak_levels() {
    assert!(siglevel_is_weak("Never"));
    assert!(siglevel_is_weak("Optional"));
    assert!(siglevel_is_weak(""));
    assert!(siglevel_is_weak("Required DatabaseNever"));
    assert!(!siglevel_is_weak("Required DatabaseOptional"));
    assert!(!siglevel_is_weak("REQUIRED"));
    assert!(!siglevel_is_weak("PackageRequired"));
}

#[test]
fn strict_mode_wants_strong_levels() {
    let mut c = PacmanConfig::default();
    let mut g = GlobalFlags::default();
    c.sig_level = Some("Never".to_string());
    assert!(enforce_strict_config(&c, &g).is_ok());
    g.strict = true;
    let e = enforce_strict_config(&c, &g).unwrap_err();
    assert_eq!(e.setting, WeakSetting::SigLevel);
    assert_eq!(e.message(), "error: --strict requires strong SigLevel; found 'Never'");
    c.sig_level = Some("Required".to_string());
    c.local_file_sig_level = Some("Optional".to_string());
    c.remote_file_sig_level = Some("Optional".to_string());
    let e = enforce_strict_config(&c, &g).unwrap_err();
    assert_eq!(e.message(), "error: --strict requires strong LocalFileSigLevel; found 'Optional'");
    c.local_file_sig_level = None;
    let e = enforce_strict_config(&c, &g).unwrap_err();
    assert_eq!(e.message(), "error: --strict requires strong RemoteFileSigLevel; found 'Optional'");
    c.remote_file_sig_level = Some("Required".to_string());
    c.repositories = vec![
        Repository {
            name: "core".to_string(),
            servers: strings(&["s"]),
            sig_level: "Required".to_string(),
        },
        Repository {
            name: "extra".to_string(),
            servers: strings(&["s"]),
            sig_level: "Optional TrustAll".to_string(),
        },
        Repository { name: "aur".to_string(), servers: strings(&["s"]), sig_level: "Never".to_string() },
    ];
    let e = enforce_strict_config(&c, &g).unwrap_err();
    assert_eq!(e.setting, WeakSetting::Repository);
    assert_eq!(e.repo, "extra");
    assert_eq!(
        e.message(),
        "error: --strict requires strong repository SigLevel; repo 'extra' has 'Optional TrustAll'"
    );
    c.repositories.truncate(1);
    assert!(enforce_strict_config(&c, &g).is_ok());
    assert!(enforce_strict_config(&PacmanConfig::default(), &g).is_ok());
}

#[test]
fn settings_from_defaults() {
    let s = handle_settings(&PacmanConfig::default(), &GlobalFlags::default(), "x86_64");
    assert_eq!(s.cache_dir, "/var/cache/pacman/pkg");
    assert_eq!(s.log_file, "/var/log/pacman.log");
    assert_eq!(s.gpg_dir, "/etc/pacman.d/gnupg");
    assert!(!s.check_space && !s.use_syslog);
    assert_eq!(s.architectures, strings(&["x86_64", "x86_64_v3", "x86_64_v4"]));
    assert_eq!(s.default_siglevel, None);
    assert_eq!(s.hook_dirs, strings(&["/etc/pacman.d/hooks", "/usr/share/libalpm/hooks"]));
    assert!(s.repositories.is_empty() && s.overwrite.is_empty());
    let s = handle_settings(&PacmanConfig::default(), &GlobalFlags::default(), "aarch64");
    assert_eq!(s.architectures, strings(&["aarch64"]));
}

#[test]
fn settings_from_a_full_configuration() {
    let mut c = PacmanConfig::default();
    c.architectures = strings(&["x86_64_v3", "auto", "x86_64", "any"]);
    c.hook_dirs = strings(&["/hooks"]);
    c.log_file = Some("/log".to_string());
    c.gpg_dir = Some("/gpg".to_string());
    c.check_space = true;
    c.sig_level = Some("Required DatabaseOptional".to_string());
    c.remote_file_sig_level = Some("Never".to_string());
    c.repositories = vec![
        Repository {
            name: "core".to_string(),
            servers: strings(&["https://m/$repo/$arch", "https://m/$arch_v3/$arch_v4"]),
            sig_level: "Optional".to_string(),
        },
        Repository { name: "x".to_string(), servers: Vec::new(), sig_level: "junk".to_string() },
    ];
    let mut g = GlobalFlags::default();
    g.cache_dir = Some("/cache".to_string());
    g.overwrite = strings(&["/usr/*", "/etc/*"]);
    let s = handle_settings(&c, &g, "riscv64");
    assert_eq!(s.cache_dir, "/cache");
    assert_eq!(s.log_file, "/log");
    assert_eq!(s.gpg_dir, "/gpg");
    assert!(s.check_space);
    assert_eq!(s.architectures, strings(&["x86_64_v3", "x86_64", "any", "x86_64_v4"]));
    assert_eq!(s.default_siglevel, Some(level(true, false, false, true)));
    assert_eq!(s.local_file_siglevel, None);
    assert_eq!(s.remote_file_siglevel, Some(level(false, false, false, false)));
    assert_eq!(s.hook_dirs, strings(&["/hooks"]));
    assert_eq!(s.overwrite, strings(&["/usr/*", "/etc/*"]));
    assert_eq!(s.repositories.len(), 2);
    assert_eq!(s.repositories[0].name, "core");
    assert_eq!(s.repositories[0].siglevel, level(false, true, false, false));
    assert_eq!(
        s.repositories[0].servers,
        strings(&["https://m/core/x86_64_v3", "https://m/x86_64_v3/x86_64_v4"])
    );
    assert_eq!(s.repositories[1].siglevel, default_level());
    assert!(s.repositories[1].servers.is_empty());
}

#[test]
fn auto_architecture_is_that_of_the_machine() {
    let mut c = PacmanConfig::default();
    c.architectures = strings(&["auto"]);
    c.repositories = vec![Repository {
        name: "core".to_string(),
        servers: strings(&["https://m/$arch"]),
        sig_level: "Required".to_string(),
    }];
    let s = handle_settings(&c, &GlobalFlags::default(), "x86_64_v4");
    assert_eq!(s.architectures, strings(&["x86_64_v4", "x86_64", "x86_64_v3"]));
    assert_eq!(s.repositories[0].servers, strings(&["https://m/x86_64_v4"]));
}
