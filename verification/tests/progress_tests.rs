use rustpack::progress::{
    download_percent, progress_bar, progress_label, DownloadState, Progress, TransState,
};

#[test]
fn same_percentage_is_not_printed_twice_in_a_row() {
    let mut s = DownloadState::new();
    assert!(s.should_print("core.db", 0));
    assert!(!s.should_print("core.db", 0));
    assert!(s.should_print("core.db", 1));
    assert!(!s.should_print("core.db", 1));
    assert!(!s.should_print("core.db", 1));
    assert!(s.should_print("core.db", 0));
    assert!(s.should_print("core.db", 100));
}

#[test]
fn files_are_tracked_apart() {
    let mut s = DownloadState::new();
    assert!(s.should_print("a", 10));
    assert!(s.should_print("b", 10));
    assert!(!s.should_print("a", 10));
    assert!(s.should_print("b", 11));
    assert!(!s.should_print("a", 10));
    assert!(!s.should_print("b", 11));
}

#[test]
fn unseen_file_counts_as_shown_at_minus_one() {
    let mut s = DownloadState::new();
    assert!(!s.should_print("a", -1));
    assert!(!s.should_print("a", -1));
    assert!(s.should_print("a", 0));
}

#[test]
fn start_forgets_what_was_shown() {
    let mut s = DownloadState::new();
    assert!(s.should_print("a", 50));
    assert!(s.note_complete("a"));
    assert!(s.should_print("b", 50));
    s.note_start("a");
    assert!(s.should_print("a", 50));
    assert!(s.note_complete("a"));
    assert!(!s.should_print("b", 50));
}

#[test]
fn completion_is_shown_once() {
    let mut s = DownloadState::new();
    assert!(s.note_complete("a"));
    assert!(!s.note_complete("a"));
    assert!(s.note_complete("b"));
    assert!(!s.note_complete("a"));
    assert!(!s.note_complete("b"));
    assert!(s.should_print("a", 3));
}

#[test]
fn transaction_updates_are_not_repeated() {
    let mut s = TransState::new();
    assert!(s.should_print(Progress::AddStart, "bash", 10, 1, 3));
    assert!(!s.should_print(Progress::AddStart, "bash", 10, 1, 3));
    assert!(s.should_print(Progress::AddStart, "bash", 11, 1, 3));
    assert!(s.should_print(Progress::AddStart, "vim", 11, 1, 3));
    assert!(s.should_print(Progress::UpgradeStart, "vim", 11, 1, 3));
    assert!(s.should_print(Progress::UpgradeStart, "vim", 11, 2, 3));
    assert!(s.should_print(Progress::UpgradeStart, "vim", 11, 2, 4));
    assert!(!s.should_print(Progress::UpgradeStart, "vim", 11, 2, 4));
    assert!(s.should_print(Progress::AddStart, "bash", 10, 1, 3));
}

#[test]
fn labels_of_the_steps() {
    assert_eq!(progress_label(Progress::AddStart), "Installing");
    assert_eq!(progress_label(Progress::UpgradeStart), "Upgrading");
    assert_eq!(progress_label(Progress::DowngradeStart), "Downgrading");
    assert_eq!(progress_label(Progress::ReinstallStart), "Reinstalling");
    assert_eq!(progress_label(Progress::RemoveStart), "Removing");
    assert_eq!(progress_label(Progress::ConflictsStart), "Checking conflicts");
    assert_eq!(progress_label(Progress::DiskspaceStart), "Checking disk space");
    assert_eq!(progress_label(Progress::IntegrityStart), "Checking integrity");
    assert_eq!(progress_label(Progress::LoadStart), "Loading packages");
    assert_eq!(progress_label(Progress::KeyringStart), "Checking keys");
}

#[test]
fn bars() {
    assert_eq!(progress_bar(0, 10), "[..........]");
    assert_eq!(progress_bar(50, 10), "[#####.....]");
    assert_eq!(progress_bar(100, 10), "[##########]");
    assert_eq!(progress_bar(99, 10), "[#########.]");
    assert_eq!(progress_bar(9, 10), "[..........]");
    assert_eq!(progress_bar(10, 10), "[#.........]");
    assert_eq!(progress_bar(-5, 4), "[....]");
    assert_eq!(progress_bar(250, 4), "[####]");
    assert_eq!(progress_bar(50, 0), "[]");
    assert_eq!(progress_bar(37, 28), "[##########..................]");
}

#[test]
fn percentages_of_downloads() {
    assert_eq!(download_percent(0, 100), Some(0));
    assert_eq!(download_percent(50, 100), Some(50));
    assert_eq!(download_percent(1, 3), Some(33));
    assert_eq!(download_percent(2, 3), Some(66));
    assert_eq!(download_percent(3, 3), Some(100));
    assert_eq!(download_percent(7, 2), Some(350));
    assert_eq!(download_percent(5, 0), None);
    assert_eq!(download_percent(5, -1), None);
    assert_eq!(download_percent(-1, 10), None);
    assert_eq!(download_percent(i64::MAX, i64::MAX), Some(100));
    assert_eq!(download_percent(i64::MAX, 1), None);
}
