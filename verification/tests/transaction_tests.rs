use rustpack::cli::{GlobalFlags, RemoveFlags};
use rustpack::install::{
    accepts, confirm_prompt, install_local, install_packages, install_reason, notice_text,
    operation_name, plan_for, remove_packages, status_name, summary_text, sync_install,
    transaction_flags, Reason, TransFlags,
};
use rustpack::parser::parse_args;
use rustpack::transaction::{
    exit_code, Action, Event, Exit, Kind, Notice, Pending, Phase, Plan, Preflight, Status,
    TransactionSession,
};

fn plan(kind: Kind) -> Plan {
    Plan {
        kind,
        preflight: Preflight::Nothing,
        refresh: false,
        upgrade: false,
        has_targets: true,
        dry_run: false,
        noconfirm: false,
        compact: false,
        set_reason: false,
    }
}

fn run(plan: Plan, events: &[Event]) -> (TransactionSession, Vec<Action>) {
    let mut s = TransactionSession::new(plan);
    let mut all = Vec::new();
    for e in events {
        all.extend(s.advance(*e));
    }
    (s, all)
}

fn tokens(items: &[&str]) -> Vec<String> {
    items.iter().map(|s| s.to_string()).collect()
}

#[test]
fn install_declined_is_cancelled_without_commit() {
    let parsed = parse_args(&tokens(&["-S", "firefox"])).unwrap();
    let p = plan_for(Kind::Install, &parsed.global, false, false, !parsed.targets.is_empty());
    let (s, actions) = run(
        p,
        &[
            Event::Begin,
            Event::Checked(true),
            Event::Opened(true),
            Event::Populated(true),
            Event::Prepared(true),
            Event::Summarized(3),
            Event::Answered(false),
        ],
    );
    assert_eq!(
        actions,
        vec![
            Action::Preflight(Preflight::Full),
            Action::Init,
            Action::Populate,
            Action::Say(Notice::ResolvingDependencies),
            Action::Say(Notice::LookingForConflicts),
            Action::Prepare,
            Action::Summarize,
            Action::Confirm,
            Action::Release,
            Action::Record(Status::Cancelled),
            Action::Exit(Exit::Success),
        ]
    );
    assert!(!actions.contains(&Action::Commit));
    assert_eq!(s.status, Some(Status::Cancelled));
    assert_eq!(s.phase, Phase::Closed);
    assert_eq!(s.ended, Some(Phase::Cancelled));
    assert!(!s.held);
    assert_eq!(status_name(Status::Cancelled), "cancelled");
    assert_eq!(summary_text(Kind::Install, Status::Cancelled), "user cancelled transaction");
    assert_eq!(exit_code(Exit::Success), 0);
}

#[test]
fn full_upgrade_dry_run_skips_refresh_and_commit() {
    let parsed = parse_args(&tokens(&["-Syu", "--test"])).unwrap();
    let p = plan_for(
        Kind::Sync,
        &parsed.global,
        parsed.sync.refresh,
        parsed.sync.upgrade,
        !parsed.targets.is_empty(),
    );
    assert!(p.dry_run && p.refresh && p.upgrade && !p.has_targets);
    let (s, actions) = run(
        p,
        &[
            Event::Begin,
            Event::Checked(true),
            Event::Opened(true),
            Event::Populated(true),
            Event::Prepared(true),
            Event::Summarized(12),
        ],
    );
    assert_eq!(
        actions,
        vec![
            Action::Preflight(Preflight::Full),
            Action::Say(Notice::Synchronizing),
            Action::Say(Notice::SkippingDatabaseUpdate),
            Action::Init,
            Action::Say(Notice::StartingUpgrade),
            Action::Populate,
            Action::Say(Notice::ResolvingDependencies),
            Action::Say(Notice::LookingForConflicts),
            Action::Prepare,
            Action::Summarize,
            Action::Say(Notice::SkippingCommit),
            Action::Release,
            Action::Record(Status::DryRun),
            Action::Exit(Exit::Success),
        ]
    );
    assert!(!actions.contains(&Action::Refresh));
    assert!(!actions.contains(&Action::Commit));
    assert!(!actions.contains(&Action::Confirm));
    assert_eq!(s.status, Some(Status::DryRun));
    assert_eq!(s.phase, Phase::Closed);
    assert_eq!(notice_text(Notice::SkippingDatabaseUpdate), ":: --test: skipping database update");
    assert_eq!(notice_text(Notice::SkippingCommit), ":: --test: skipping commit");
    assert_eq!(status_name(Status::DryRun), "dry-run");
    assert_eq!(summary_text(Kind::Sync, Status::DryRun), "commit skipped by --test");
    assert_eq!(operation_name(Kind::Sync), "sync");
}

#[test]
fn empty_changeset_is_a_noop() {
    for kind in [Kind::Install, Kind::InstallLocal, Kind::Remove, Kind::Sync] {
        let (s, actions) = run(
            plan(kind),
            &[
                Event::Begin,
                Event::Opened(true),
                Event::Populated(true),
                Event::Prepared(true),
                Event::Summarized(0),
            ],
        );
        let n = actions.len();
        assert_eq!(
            &actions[n - 4..],
            &[
                Action::Release,
                Action::Say(Notice::NothingToDo),
                Action::Record(Status::Noop),
                Action::Exit(Exit::Success),
            ]
        );
        assert!(!actions.contains(&Action::Commit));
        assert!(!actions.contains(&Action::Exit(Exit::Failure)));
        assert_eq!(s.status, Some(Status::Noop));
        assert_eq!(s.phase, Phase::Closed);
    }
    assert_eq!(summary_text(Kind::Install, Status::Noop), "no packages to install");
    assert_eq!(summary_text(Kind::InstallLocal, Status::Noop), "no packages to install");
    assert_eq!(summary_text(Kind::Remove, Status::Noop), "no packages to remove");
    assert_eq!(summary_text(Kind::Sync, Status::Noop), "no package changes");
    assert_eq!(status_name(Status::Noop), "noop");
    assert_eq!(notice_text(Notice::NothingToDo), " there is nothing to do");
}

#[test]
fn confirmed_commit_succeeds_and_releases_once() {
    let mut p = plan(Kind::Install);
    p.set_reason = true;
    let (s, actions) = run(
        p,
        &[
            Event::Begin,
            Event::Opened(true),
            Event::Populated(true),
            Event::Prepared(true),
            Event::Summarized(1),
            Event::Answered(true),
            Event::Committed(true),
        ],
    );
    let n = actions.len();
    assert_eq!(
        &actions[n - 6..],
        &[
            Action::Confirm,
            Action::Commit,
            Action::Release,
            Action::Record(Status::Success),
            Action::ApplyReasons,
            Action::Exit(Exit::Success),
        ]
    );
    assert_eq!(actions.iter().filter(|a| **a == Action::Release).count(), 1);
    assert_eq!(s.status, Some(Status::Success));
    assert_eq!(s.ended, Some(Phase::Committed));
    assert_eq!(s.phase, Phase::Closed);
    assert!(s.commit_requested);
    assert_eq!(summary_text(Kind::Install, Status::Success), "transaction committed");
}

#[test]
fn failed_commit_is_recorded_and_handed_on() {
    let mut p = plan(Kind::Remove);
    p.noconfirm = true;
    p.set_reason = true;
    let (s, actions) = run(
        p,
        &[
            Event::Begin,
            Event::Opened(true),
            Event::Populated(true),
            Event::Prepared(true),
            Event::Summarized(2),
            Event::Committed(false),
        ],
    );
    assert_eq!(
        actions,
        vec![
            Action::Init,
            Action::Populate,
            Action::Say(Notice::CheckingDependencies),
            Action::Say(Notice::LookingForConflicts),
            Action::Prepare,
            Action::Summarize,
            Action::Commit,
            Action::Release,
            Action::Record(Status::Failed),
            Action::Exit(Exit::Failure),
        ]
    );
    assert_eq!(s.status, Some(Status::Failed));
    assert_eq!(s.ended, Some(Phase::Failed));
    assert_eq!(exit_code(Exit::Failure), 1);
    assert_eq!(summary_text(Kind::Remove, Status::Failed), "transaction commit failed");
}

#[test]
fn removal_never_sets_install_reasons() {
    let mut p = plan(Kind::Remove);
    p.noconfirm = true;
    p.set_reason = true;
    let (_, actions) = run(
        p,
        &[
            Event::Begin,
            Event::Opened(true),
            Event::Populated(true),
            Event::Prepared(true),
            Event::Summarized(2),
            Event::Committed(true),
        ],
    );
    assert!(!actions.contains(&Action::ApplyReasons));
}

#[test]
fn failures_before_the_commit_release_and_record_nothing() {
    let (s, actions) = run(plan(Kind::Install), &[Event::Begin, Event::Opened(false)]);
    assert_eq!(actions, vec![Action::Init, Action::Exit(Exit::Failure)]);
    assert_eq!(s.phase, Phase::Closed);
    let (s, actions) =
        run(plan(Kind::Install), &[Event::Begin, Event::Opened(true), Event::Populated(false)]);
    assert_eq!(
        actions,
        vec![Action::Init, Action::Populate, Action::Release, Action::Exit(Exit::Failure)]
    );
    assert_eq!(s.phase, Phase::Closed);
    assert!(!s.held);
    let (s, actions) = run(
        plan(Kind::Install),
        &[Event::Begin, Event::Opened(true), Event::Populated(true), Event::Prepared(false)],
    );
    let n = actions.len();
    assert_eq!(&actions[n - 2..], &[Action::Release, Action::Exit(Exit::Failure)]);
    assert_eq!(s.status, None);
    assert_eq!(s.ended, Some(Phase::Failed));
}

#[test]
fn phases_follow_the_lifecycle() {
    let mut s = TransactionSession::new(plan(Kind::Install));
    assert_eq!(s.phase, Phase::Uninitialized);
    assert_eq!(s.pending, Pending::Begin);
    s.advance(Event::Begin);
    assert_eq!(s.phase, Phase::Uninitialized);
    s.advance(Event::Opened(true));
    assert_eq!(s.phase, Phase::Open);
    assert!(s.held);
    s.advance(Event::Populated(true));
    assert_eq!(s.phase, Phase::Populated);
    s.advance(Event::Prepared(true));
    assert_eq!(s.phase, Phase::Prepared);
    s.advance(Event::Summarized(1));
    assert_eq!(s.pending, Pending::Confirm);
    s.advance(Event::Answered(true));
    assert_eq!(s.pending, Pending::Commit);
    s.advance(Event::Committed(true));
    assert_eq!(s.phase, Phase::Closed);
    assert_eq!(s.pending, Pending::Nothing);
}

#[test]
fn unexpected_events_change_nothing() {
    let mut s = TransactionSession::new(plan(Kind::Install));
    let before = s;
    assert!(s.advance(Event::Committed(true)).is_empty());
    assert!(s.advance(Event::Answered(true)).is_empty());
    assert_eq!(s, before);
    let (mut closed, _) = run(plan(Kind::Install), &[Event::Begin, Event::Opened(false)]);
    let snapshot = closed;
    for e in [
        Event::Begin,
        Event::Opened(true),
        Event::Populated(true),
        Event::Prepared(true),
        Event::Summarized(1),
        Event::Answered(true),
        Event::Committed(true),
    ] {
        assert!(closed.advance(e).is_empty());
    }
    assert_eq!(closed, snapshot);
}

#[test]
fn release_is_idempotent() {
    let mut s = TransactionSession::new(plan(Kind::Install));
    s.advance(Event::Begin);
    s.advance(Event::Opened(true));
    assert!(s.held);
    assert!(s.release());
    assert_eq!(s.phase, Phase::Closed);
    assert!(!s.held);
    let after_first = s;
    assert!(!s.release());
    assert_eq!(s, after_first);
    assert!(!s.release());
    assert_eq!(s, after_first);
    let mut fresh = TransactionSession::new(plan(Kind::Remove));
    assert!(!fresh.release());
    assert_eq!(fresh.phase, Phase::Closed);
}

#[test]
fn sync_with_refresh_updates_databases_first() {
    let mut p = plan(Kind::Sync);
    p.refresh = true;
    p.has_targets = false;
    let (s, actions) = run(p, &[Event::Begin, Event::Refreshed(true)]);
    assert_eq!(
        actions,
        vec![Action::Say(Notice::Synchronizing), Action::Refresh, Action::Exit(Exit::Success)]
    );
    assert_eq!(s.phase, Phase::Closed);
    assert_eq!(s.status, None);
    let (_, actions) = run(p, &[Event::Begin, Event::Refreshed(false)]);
    assert_eq!(
        actions,
        vec![Action::Say(Notice::Synchronizing), Action::Refresh, Action::Exit(Exit::Failure)]
    );
    p.compact = true;
    p.upgrade = true;
    let (_, actions) = run(p, &[Event::Begin, Event::Refreshed(true), Event::Opened(true)]);
    assert_eq!(actions, vec![Action::Refresh, Action::Init, Action::Populate]);
}

#[test]
fn noconfirm_goes_straight_to_commit() {
    let mut p = plan(Kind::InstallLocal);
    p.noconfirm = true;
    p.compact = true;
    let (_, actions) = run(
        p,
        &[
            Event::Begin,
            Event::Opened(true),
            Event::Populated(true),
            Event::Prepared(true),
            Event::Summarized(4),
        ],
    );
    assert_eq!(
        actions,
        vec![Action::Init, Action::Populate, Action::Prepare, Action::Summarize, Action::Commit]
    );
}

#[test]
fn flags_of_each_kind() {
    let none = TransFlags {
        needed: false,
        no_deps: false,
        no_dep_version: false,
        no_scriptlet: false,
        recurse: false,
        unneeded: false,
        no_save: false,
    };
    let mut g = GlobalFlags::default();
    let r = RemoveFlags { recursive: false, nosave: false };
    assert_eq!(transaction_flags(Kind::Install, &g, &r), none);
    g.needed = true;
    g.nodeps = 1;
    g.noscriptlet = true;
    let f = transaction_flags(Kind::Install, &g, &r);
    assert!(f.needed && f.no_deps && !f.no_dep_version && f.no_scriptlet);
    assert_eq!(transaction_flags(Kind::Sync, &g, &r), f);
    let f = transaction_flags(Kind::InstallLocal, &g, &r);
    assert!(!f.needed && f.no_deps && f.no_scriptlet);
    g.nodeps = 2;
    let r = RemoveFlags { recursive: true, nosave: true };
    let f = transaction_flags(Kind::Remove, &g, &r);
    assert_eq!(
        f,
        TransFlags {
            needed: false,
            no_deps: true,
            no_dep_version: true,
            no_scriptlet: false,
            recurse: true,
            unneeded: true,
            no_save: true,
        }
    );
    let f = transaction_flags(Kind::Install, &g, &r);
    assert!(!f.recurse && !f.unneeded && !f.no_save && f.no_dep_version);
}

#[test]
fn answers_to_the_confirmation() {
    for yes in ["", "\n", "  \n", "y", "Y", "yes", "YES", "Yes\n", "  y  ", "\ty\r\n"] {
        assert!(accepts(yes));
    }
    for no in ["n", "no", "N", "nope", "yess", "y e s", "ja", "0", "yes please"] {
        assert!(!accepts(no));
    }
    assert_eq!(confirm_prompt(Kind::Remove), "\n:: Proceed with removal? [Y/n] ");
    assert_eq!(confirm_prompt(Kind::Install), "\n:: Proceed with installation? [Y/n] ");
    assert_eq!(confirm_prompt(Kind::Sync), "\n:: Proceed with installation? [Y/n] ");
}

#[test]
fn words_for_ledger_and_user() {
    assert_eq!(operation_name(Kind::Install), "install");
    assert_eq!(operation_name(Kind::InstallLocal), "install-local");
    assert_eq!(operation_name(Kind::Remove), "remove");
    assert_eq!(status_name(Status::Success), "success");
    assert_eq!(status_name(Status::Failed), "failed");
    assert_eq!(notice_text(Notice::Synchronizing), ":: Synchronizing package databases...");
    assert_eq!(notice_text(Notice::StartingUpgrade), ":: Starting full system upgrade...");
    assert_eq!(notice_text(Notice::ResolvingDependencies), "resolving dependencies...");
    assert_eq!(notice_text(Notice::CheckingDependencies), "checking dependencies...");
    assert_eq!(notice_text(Notice::LookingForConflicts), "looking for conflicting packages...");
}

#[test]
fn install_reason_follows_the_options() {
    let mut g = GlobalFlags::default();
    assert_eq!(install_reason(&g), None);
    g.asexplicit = true;
    assert_eq!(install_reason(&g), Some(Reason::Explicit));
    g.asdeps = true;
    assert_eq!(install_reason(&g), Some(Reason::Depend));
}

#[test]
fn checks_come_before_anything_else() {
    let g = GlobalFlags::default();
    let install = plan_for(Kind::Install, &g, false, false, true);
    assert_eq!(install.preflight, Preflight::Full);
    assert_eq!(plan_for(Kind::Sync, &g, true, true, false).preflight, Preflight::Full);
    assert_eq!(plan_for(Kind::InstallLocal, &g, false, false, true).preflight, Preflight::Full);
    let remove = plan_for(Kind::Remove, &g, false, false, true);
    assert_eq!(remove.preflight, Preflight::Unlocked);
    let (s, actions) = run(remove, &[Event::Begin]);
    assert_eq!(actions, vec![Action::Preflight(Preflight::Unlocked)]);
    assert_eq!(s.pending, Pending::Preflight);
    assert_eq!(s.phase, Phase::Uninitialized);
}

#[test]
fn failed_checks_open_nothing() {
    let g = GlobalFlags::default();
    for kind in [Kind::Install, Kind::InstallLocal, Kind::Remove, Kind::Sync] {
        let p = plan_for(kind, &g, true, true, true);
        let (s, actions) = run(
            p,
            &[Event::Begin, Event::Checked(false), Event::Opened(true), Event::Committed(true)],
        );
        assert_eq!(actions, vec![Action::Preflight(p.preflight), Action::Exit(Exit::Failure)]);
        assert_eq!(s.phase, Phase::Closed);
        assert_eq!(s.status, None);
        assert!(!s.held);
    }
}

#[test]
fn plan_follows_the_options() {
    let mut g = GlobalFlags::default();
    g.test = true;
    g.noconfirm = true;
    g.compact = true;
    g.asdeps = true;
    let p = plan_for(Kind::Install, &g, true, true, false);
    assert!(p.dry_run && p.noconfirm && p.compact && p.set_reason);
    assert!(!p.refresh && !p.upgrade && !p.has_targets);
    let p = plan_for(Kind::Sync, &GlobalFlags::default(), true, false, true);
    assert!(p.refresh && !p.upgrade && p.has_targets);
    assert!(!p.dry_run && !p.noconfirm && !p.compact && !p.set_reason);
}

#[test]
fn sessions_of_the_four_operations() {
    let g = GlobalFlags::default();
    let names = tokens(&["a"]);
    let none: Vec<String> = Vec::new();
    let s = install_packages(&names, &g);
    assert_eq!(s, TransactionSession::new(plan_for(Kind::Install, &g, false, false, true)));
    assert_eq!(s.phase, Phase::Uninitialized);
    assert_eq!(s.pending, Pending::Begin);
    assert!(!s.held && !s.commit_requested);
    assert_eq!(s.status, None);
    let s = install_local(&g, &names);
    assert_eq!(s.plan.kind, Kind::InstallLocal);
    let s = remove_packages(&names, &g);
    assert_eq!(s.plan.kind, Kind::Remove);
    assert_eq!(s.plan.preflight, Preflight::Unlocked);
    let s = sync_install(&g, true, false, &none);
    assert_eq!(s.plan.kind, Kind::Sync);
    assert!(s.plan.refresh && !s.plan.upgrade && !s.plan.has_targets);
}
