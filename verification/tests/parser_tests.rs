use rustpack::cli::{GlobalFlags, Operation, ParseErrorKind, ParsedArgs, ValueOption};
use rustpack::parser::{find_global_rejection, find_operation_rejection, parse_args, set_operation};

fn tokens(items: &[&str]) -> Vec<String> {
    items.iter().map(|s| s.to_string()).collect()
}

fn parse(items: &[&str]) -> Result<ParsedArgs, rustpack::cli::ParseError> {
    parse_args(&tokens(items))
}

fn kind_of(items: &[&str]) -> ParseErrorKind {
    parse(items).unwrap_err().kind
}

fn message_of(items: &[&str]) -> String {
    parse(items).unwrap_err().message()
}

#[test]
fn sync_install_with_target() {
    let p = parse(&["-S", "firefox"]).unwrap();
    assert_eq!(p.op, Operation::Sync);
    assert_eq!(p.targets, vec!["firefox".to_string()]);
    assert!(!p.sync.refresh && !p.sync.upgrade && !p.sync.search && !p.sync.info);
    assert_eq!(p.sync.clean_cache, 0);
    assert_eq!(p.global, GlobalFlags::default());
}

#[test]
fn two_different_operations_are_refused() {
    let e = parse(&["-S", "-Q", "x"]).unwrap_err();
    assert_eq!(e.kind, ParseErrorKind::OnlyOneOperation);
    assert_eq!(e.message(), "error: only one operation may be used at a time");
    assert_eq!(kind_of(&["-SR", "x"]), ParseErrorKind::OnlyOneOperation);
    assert_eq!(kind_of(&["-Q", "-U", "x"]), ParseErrorKind::OnlyOneOperation);
    assert_eq!(kind_of(&["-RyS", "x"]), ParseErrorKind::OnlyOneOperation);
    assert_eq!(kind_of(&["doctor", "-S"]), ParseErrorKind::OnlyOneOperation);
    assert_eq!(kind_of(&["--history", "--doctor"]), ParseErrorKind::OnlyOneOperation);
}

#[test]
fn every_pair_of_different_operation_letters_is_refused() {
    let letters = ["S", "Q", "R", "U"];
    for a in letters {
        for b in letters {
            if a != b {
                let cluster = format!("-{}{}", a, b);
                assert_eq!(kind_of(&[cluster.as_str(), "x"]), ParseErrorKind::OnlyOneOperation);
                let first = format!("-{}", a);
                let second = format!("-{}", b);
                assert_eq!(
                    kind_of(&[first.as_str(), second.as_str(), "x"]),
                    ParseErrorKind::OnlyOneOperation
                );
            }
        }
    }
}

#[test]
fn same_operation_twice_is_idempotent() {
    let once = parse(&["-S", "firefox"]).unwrap();
    let twice = parse(&["-SS", "firefox"]).unwrap();
    let apart = parse(&["-S", "-S", "firefox"]).unwrap();
    assert_eq!(once, twice);
    assert_eq!(once, apart);
    let doctor = parse(&["doctor"]).unwrap();
    assert_eq!(doctor, parse(&["doctor", "--doctor"]).unwrap());
}

#[test]
fn set_operation_keeps_first_and_refuses_other() {
    let mut op = None;
    assert!(set_operation(&mut op, Operation::Sync).is_ok());
    assert_eq!(op, Some(Operation::Sync));
    assert!(set_operation(&mut op, Operation::Sync).is_ok());
    assert_eq!(op, Some(Operation::Sync));
    let e = set_operation(&mut op, Operation::Query).unwrap_err();
    assert_eq!(e.kind, ParseErrorKind::OnlyOneOperation);
    assert_eq!(op, Some(Operation::Sync));
}

#[test]
fn no_tokens_ask_for_usage() {
    let p = parse(&[]).unwrap();
    assert_eq!(p.op, Operation::Help);
    assert!(p.targets.is_empty());
}

#[test]
fn help_wins_over_everything_after_it() {
    let p = parse(&["-S", "-h", "--bogus"]).unwrap();
    assert_eq!(p.op, Operation::Help);
    assert!(p.targets.is_empty());
    assert_eq!(p.global, GlobalFlags::default());
    let p = parse(&["--help"]).unwrap();
    assert_eq!(p.op, Operation::Help);
}

#[test]
fn no_operation_is_an_error() {
    assert_eq!(kind_of(&["firefox"]), ParseErrorKind::NoOperation);
    assert_eq!(message_of(&["firefox"]), "error: no operation specified (use -h for help)");
    assert_eq!(kind_of(&["--noconfirm"]), ParseErrorKind::NoOperation);
}

#[test]
fn unknown_long_option_names_the_token() {
    let e = parse(&["-S", "--bogus=1", "x"]).unwrap_err();
    assert_eq!(e.kind, ParseErrorKind::InvalidOption);
    assert_eq!(e.token, "--bogus=1");
    assert_eq!(e.message(), "error: invalid option '--bogus=1'");
}

#[test]
fn unknown_long_option_comes_before_later_operation_clash() {
    assert_eq!(kind_of(&["-S", "--bogus", "-Q"]), ParseErrorKind::InvalidOption);
}

#[test]
fn double_dash_ends_option_parsing() {
    let p = parse(&["-S", "--", "-weirdpkg", "--noconfirm", "-Q"]).unwrap();
    assert_eq!(p.op, Operation::Sync);
    assert_eq!(
        p.targets,
        vec!["-weirdpkg".to_string(), "--noconfirm".to_string(), "-Q".to_string()]
    );
    assert!(!p.global.noconfirm);
}

#[test]
fn single_dash_is_a_target() {
    let p = parse(&["-S", "-"]).unwrap();
    assert_eq!(p.targets, vec!["-".to_string()]);
}

#[test]
fn value_options_take_equals_or_next_token() {
    let p = parse(&["-S", "--root=/mnt", "--dbpath", "/db", "--cachedir=/c=d", "pkg"]).unwrap();
    assert_eq!(p.global.root_dir, Some("/mnt".to_string()));
    assert_eq!(p.global.db_path, Some("/db".to_string()));
    assert_eq!(p.global.cache_dir, Some("/c=d".to_string()));
    assert_eq!(p.targets, vec!["pkg".to_string()]);
    let p = parse(&["-S", "--overwrite", "-x", "--overwrite=/usr/*", "pkg"]).unwrap();
    assert_eq!(p.global.overwrite, vec!["-x".to_string(), "/usr/*".to_string()]);
    let p = parse(&["-S", "--root=", "pkg"]).unwrap();
    assert_eq!(p.global.root_dir, Some(String::new()));
}

#[test]
fn missing_value_names_the_option() {
    let e = parse(&["-S", "pkg", "--root"]).unwrap_err();
    assert_eq!(e.kind, ParseErrorKind::MissingValue(ValueOption::Root));
    assert_eq!(e.message(), "error: --root requires a value");
    assert_eq!(message_of(&["-S", "--overwrite"]), "error: --overwrite requires a value");
    assert_eq!(message_of(&["-S", "--dbpath"]), "error: --dbpath requires a value");
    assert_eq!(message_of(&["-S", "--cachedir"]), "error: --cachedir requires a value");
}

#[test]
fn switches_set_global_options() {
    let p = parse(&[
        "-S",
        "--noconfirm",
        "--needed",
        "--asdeps",
        "--noscriptlet",
        "--nodeps",
        "--nodeps",
        "--verbose",
        "--dry-run",
        "pkg",
    ])
    .unwrap();
    assert!(p.global.noconfirm && p.global.needed && p.global.asdeps && p.global.noscriptlet);
    assert!(p.global.verbose && p.global.test);
    assert!(!p.global.asexplicit && !p.global.strict && !p.global.compact);
    assert_eq!(p.global.nodeps, 2);
    let p = parse(&["-S", "--test", "--compact", "--asexplicit", "--strict", "pkg"]).unwrap();
    assert!(p.global.test && p.global.compact && p.global.asexplicit && p.global.strict);
}

#[test]
fn short_d_raises_the_bypass_level() {
    let p = parse(&["-Sdd", "pkg"]).unwrap();
    assert_eq!(p.global.nodeps, 2);
    let p = parse(&["-Rd", "--nodeps", "pkg"]).unwrap();
    assert_eq!(p.global.nodeps, 2);
    let p = parse(&["-Ud", "file.pkg.tar.zst"]).unwrap();
    assert_eq!(p.global.nodeps, 1);
    assert_eq!(p.op, Operation::Upgrade);
}

#[test]
fn bypass_level_saturates() {
    let mut items: Vec<String> = vec!["-S".to_string()];
    for _ in 0..300 {
        items.push("--nodeps".to_string());
    }
    items.push("pkg".to_string());
    let p = parse_args(&items).unwrap();
    assert_eq!(p.global.nodeps, 255);
    let cluster = format!("-S{}", "c".repeat(300));
    let p = parse(&[cluster.as_str()]).unwrap();
    assert_eq!(p.sync.clean_cache, 255);
}

#[test]
fn sync_sub_flags() {
    let p = parse(&["-Syu"]).unwrap();
    assert!(p.sync.refresh && p.sync.upgrade);
    assert!(p.targets.is_empty());
    let p = parse(&["-Ss", "fire", "fox"]).unwrap();
    assert!(p.sync.search && !p.sync.info);
    assert_eq!(p.targets.len(), 2);
    let p = parse(&["-Si", "firefox"]).unwrap();
    assert!(p.sync.info);
    let p = parse(&["-Sc"]).unwrap();
    assert_eq!(p.sync.clean_cache, 1);
    let p = parse(&["-Scc"]).unwrap();
    assert_eq!(p.sync.clean_cache, 2);
    let p = parse(&["-y", "-S"]).unwrap();
    assert!(p.sync.refresh);
}

#[test]
fn sync_search_and_info_exclude_each_other() {
    assert_eq!(kind_of(&["-Ssi", "x"]), ParseErrorKind::SearchInfoConflict);
    assert_eq!(message_of(&["-Ssi", "x"]), "error: only one of -s or -i can be used with -S");
}

#[test]
fn sync_search_or_info_exclude_refresh_and_upgrade() {
    for cluster in ["-Ssy", "-Ssu", "-Siy", "-Siu", "-Ssyu", "-Syus", "-Suis"] {
        let e = parse(&[cluster, "x"]).unwrap_err();
        assert!(
            e.kind == ParseErrorKind::SearchWithRefresh
                || e.kind == ParseErrorKind::SearchInfoConflict
        );
    }
    assert_eq!(message_of(&["-Ssy", "x"]), "error: -s/-i cannot be combined with -y/-u");
}

#[test]
fn sync_needs_targets_or_a_mode() {
    assert_eq!(kind_of(&["-S"]), ParseErrorKind::NoTargets);
    assert_eq!(kind_of(&["-Ss"]), ParseErrorKind::NoTargets);
    assert_eq!(kind_of(&["-Si"]), ParseErrorKind::NoTargets);
    assert_eq!(message_of(&["-S"]), "error: no targets specified (use -h for help)");
}

#[test]
fn clean_cache_stands_alone() {
    assert_eq!(kind_of(&["-Sc", "x"]), ParseErrorKind::CleanCacheConflict);
    assert_eq!(kind_of(&["-Scy"]), ParseErrorKind::CleanCacheConflict);
    assert_eq!(kind_of(&["-Scu"]), ParseErrorKind::CleanCacheConflict);
    assert_eq!(
        message_of(&["-Sc", "x"]),
        "error: -Sc/-Scc cannot be combined with other -S options"
    );
}

#[test]
fn install_reasons_exclude_each_other() {
    assert_eq!(
        message_of(&["-S", "--asdeps", "--asexplicit", "x"]),
        "error: --asdeps and --asexplicit cannot be used together"
    );
}

#[test]
fn invalid_sub_flag_names_flag_and_operation() {
    let e = parse(&["-Sz", "x"]).unwrap_err();
    assert_eq!(e.kind, ParseErrorKind::InvalidFlag(Operation::Sync, 'z'));
    assert_eq!(e.message(), "error: invalid option '-z' for -S");
    assert_eq!(message_of(&["-Qy", "x"]), "error: invalid option '-y' for -Q");
    assert_eq!(message_of(&["-Ru", "x"]), "error: invalid option '-u' for -R");
    assert_eq!(message_of(&["-Us", "x"]), "error: invalid option '-s' for -U");
    assert_eq!(message_of(&["-Syzq", "x"]), "error: invalid option '-z' for -S");
}

#[test]
fn query_modes() {
    let p = parse(&["-Q"]).unwrap();
    assert_eq!(p.op, Operation::Query);
    assert!(p.targets.is_empty());
    let p = parse(&["-Qe"]).unwrap();
    assert!(p.query.explicit);
    assert!(p.targets.is_empty());
    let p = parse(&["-Qm"]).unwrap();
    assert!(p.query.manual);
    let p = parse(&["-Qo", "/usr/bin/vi"]).unwrap();
    assert!(p.query.owns);
    let p = parse(&["-Ql", "bash"]).unwrap();
    assert!(p.query.list_files);
    let p = parse(&["-Qr", "glibc"]).unwrap();
    assert!(p.query.reverse_deps);
    let p = parse(&["-Qi", "bash"]).unwrap();
    assert!(p.query.info);
    let p = parse(&["-Qs", "bash"]).unwrap();
    assert!(p.query.search);
}

#[test]
fn query_rules() {
    assert_eq!(
        message_of(&["-Qis", "x"]),
        "error: only one of -i, -s, -l, -m, -o, -e, or -r can be used with -Q"
    );
    assert_eq!(kind_of(&["-Qi"]), ParseErrorKind::NoTargets);
    assert_eq!(kind_of(&["-Ql"]), ParseErrorKind::NoTargets);
    assert_eq!(kind_of(&["-Qo"]), ParseErrorKind::NoTargets);
    assert_eq!(kind_of(&["-Qr"]), ParseErrorKind::NoTargets);
    assert_eq!(kind_of(&["-Qs"]), ParseErrorKind::NoTargets);
    assert_eq!(message_of(&["-Qm", "x"]), "error: -Qm does not take targets");
    assert_eq!(
        message_of(&["-Q", "--nodeps", "x"]),
        "error: --nodeps only applies to -S/-R/-U"
    );
    assert_eq!(message_of(&["-Qd", "x"]), "error: invalid option '-d' for -Q");
}

#[test]
fn remove_rules() {
    let p = parse(&["-Rns", "firefox"]).unwrap();
    assert_eq!(p.op, Operation::Remove);
    assert!(p.remove.recursive && p.remove.nosave);
    assert_eq!(kind_of(&["-R"]), ParseErrorKind::NoTargets);
    assert_eq!(message_of(&["-R", "--needed", "x"]), "error: invalid options for -R");
    assert_eq!(message_of(&["-R", "--noscriptlet", "x"]), "error: invalid options for -R");
    assert_eq!(
        message_of(&["-R", "--overwrite=x", "x"]),
        "error: --overwrite only applies to -S"
    );
}

#[test]
fn upgrade_rules() {
    assert_eq!(kind_of(&["-U"]), ParseErrorKind::NoTargets);
    assert_eq!(
        message_of(&["-U", "--asdeps", "x"]),
        "error: --needed/--asdeps/--asexplicit/--noscriptlet only apply to -S"
    );
}

#[test]
fn doctor_and_history_rules() {
    let p = parse(&["doctor"]).unwrap();
    assert_eq!(p.op, Operation::Doctor);
    let p = parse(&["--doctor"]).unwrap();
    assert_eq!(p.op, Operation::Doctor);
    let p = parse(&["history", "show", "17-4"]).unwrap();
    assert_eq!(p.op, Operation::History);
    assert_eq!(p.targets, vec!["show".to_string(), "17-4".to_string()]);
    assert_eq!(
        message_of(&["doctor", "-y"]),
        "error: doctor does not accept short operation flags"
    );
    assert_eq!(message_of(&["doctor", "x"]), "error: doctor does not take targets");
    assert_eq!(
        message_of(&["history", "-y"]),
        "error: history does not accept short operation flags"
    );
    assert_eq!(
        message_of(&["doctor", "--needed"]),
        "error: --needed/--asdeps/--asexplicit/--noscriptlet only apply to -S"
    );
}

#[test]
fn bare_doctor_counts_only_as_first_token() {
    let p = parse(&["-S", "doctor"]).unwrap();
    assert_eq!(p.op, Operation::Sync);
    assert_eq!(p.targets, vec!["doctor".to_string()]);
}

#[test]
fn compact_and_verbose_exclude_each_other() {
    assert_eq!(
        message_of(&["-S", "--compact", "--verbose", "x"]),
        "error: --compact and --verbose cannot be used together"
    );
}

#[test]
fn strict_mode_refuses_risky_options() {
    assert_eq!(
        message_of(&["-S", "--strict", "--nodeps", "x"]),
        "error: --strict disallows --nodeps/-d/-dd"
    );
    assert_eq!(
        message_of(&["-Sd", "--strict", "x"]),
        "error: --strict disallows --nodeps/-d/-dd"
    );
    assert_eq!(
        message_of(&["-Rdd", "x", "--strict"]),
        "error: --strict disallows --nodeps/-d/-dd"
    );
    assert_eq!(
        message_of(&["-S", "--noscriptlet", "--strict", "x"]),
        "error: --strict disallows --noscriptlet"
    );
    assert_eq!(
        message_of(&["-S", "--strict", "--overwrite", "/usr/*", "x"]),
        "error: --strict disallows --overwrite"
    );
    let p = parse(&["-S", "--strict", "x"]).unwrap();
    assert!(p.global.strict);
    assert_eq!(p.global.nodeps, 0);
    assert!(!p.global.noscriptlet);
    assert!(p.global.overwrite.is_empty());
}

#[test]
fn accepted_commands_break_no_rule() {
    for items in [
        vec!["-S", "firefox"],
        vec!["-Syu"],
        vec!["-Syu", "--test"],
        vec!["-Qe"],
        vec!["-Rns", "firefox"],
        vec!["-U", "./pkg.pkg.tar.zst"],
        vec!["doctor"],
        vec!["history"],
    ] {
        let p = parse(&items).unwrap();
        assert_eq!(find_operation_rejection(&p), None);
        assert_eq!(find_global_rejection(&p), None);
    }
}

#[test]
fn rejections_of_a_hand_made_command() {
    let mut p = parse(&["-S", "firefox"]).unwrap();
    p.sync.search = true;
    p.sync.refresh = true;
    assert_eq!(find_operation_rejection(&p), Some(ParseErrorKind::SearchWithRefresh));
    let mut q = parse(&["-S", "firefox"]).unwrap();
    q.global.strict = true;
    q.global.noscriptlet = true;
    assert_eq!(find_global_rejection(&q), Some(ParseErrorKind::StrictNoscriptlet));
}

#[test]
fn syu_with_test_parses_as_dry_run_upgrade() {
    let p = parse(&["-Syu", "--test"]).unwrap();
    assert_eq!(p.op, Operation::Sync);
    assert!(p.sync.refresh && p.sync.upgrade && p.global.test);
    assert!(p.targets.is_empty());
}
