use rustpack::cli::GlobalFlags;
use rustpack::history::{
    escape, history_dir, history_file, parse_entry, read_entries, record, show, unescape, Entry,
};

fn strings(items: &[&str]) -> Vec<String> {
    items.iter().map(|s| s.to_string()).collect()
}

fn entry(id: &str, ts: u64, op: &str, status: &str, targets: &str, summary: &str) -> Entry {
    Entry {
        id: id.to_string(),
        ts,
        op: op.to_string(),
        status: status.to_string(),
        targets: targets.to_string(),
        summary: summary.to_string(),
    }
}

#[test]
fn escape_writes_the_three_special_characters() {
    assert_eq!(escape("a|b"), "a\\pb");
    assert_eq!(escape("a\\b"), "a\\\\b");
    assert_eq!(escape("a\nb"), "a\\nb");
    assert_eq!(escape("plain text"), "plain text");
    assert_eq!(escape(""), "");
    assert_eq!(escape("\\p"), "\\\\p");
    assert_eq!(escape("|\\\n"), "\\p\\\\\\n");
}

#[test]
fn unescape_reads_them_back() {
    assert_eq!(unescape("a\\pb"), "a|b");
    assert_eq!(unescape("a\\\\b"), "a\\b");
    assert_eq!(unescape("a\\nb"), "a\nb");
    assert_eq!(unescape("a\\xb"), "a\\xb");
    assert_eq!(unescape("tail\\"), "tail\\");
    assert_eq!(unescape(""), "");
}

#[test]
fn escape_then_unescape_is_identity() {
    for s in [
        "",
        "|",
        "\\",
        "\n",
        "\\p",
        "\\n",
        "\\\\",
        "a|b\\c\nd",
        "||\\\\\n\n",
        "ends with backslash\\",
        "päckage|ünïcode\\✓\n",
        "\\|\\n|p\\p",
    ] {
        assert_eq!(unescape(&escape(s)), s);
        assert!(!escape(s).contains('|'));
        assert!(!escape(s).contains('\n'));
    }
}

#[test]
fn parse_entry_reads_six_fields() {
    let e = parse_entry("17-4|17|install|success|a b|transaction committed").unwrap();
    assert_eq!(e, entry("17-4", 17, "install", "success", "a b", "transaction committed"));
}

#[test]
fn parse_entry_keeps_separators_of_the_last_field() {
    let e = parse_entry("id|5|op|st|-|one|two|three").unwrap();
    assert_eq!(e.summary, "one|two|three");
    assert_eq!(e.targets, "-");
}

#[test]
fn parse_entry_refuses_short_lines_and_bad_time_stamps() {
    assert_eq!(parse_entry(""), None);
    assert_eq!(parse_entry("a|1|b|c|d"), None);
    assert_eq!(parse_entry("a|x|b|c|d|e"), None);
    assert_eq!(parse_entry("a||b|c|d|e"), None);
    assert_eq!(parse_entry("a|-1|b|c|d|e"), None);
    assert_eq!(parse_entry("a|18446744073709551616|b|c|d|e"), None);
    assert!(parse_entry("a|18446744073709551615|b|c|d|e").is_some());
    assert_eq!(parse_entry("a|+7|b|c|d|e").unwrap().ts, 7);
    assert_eq!(parse_entry("|0||||").unwrap(), entry("", 0, "", "", "", ""));
}

#[test]
fn record_writes_one_line() {
    let line = record(1700000000, 4242, "install", "success", &strings(&["firefox", "vlc"]), "ok");
    assert_eq!(line, "1700000000-4242|1700000000|install|success|firefox vlc|ok\n");
    let line = record(0, 0, "sync", "noop", &strings(&[]), "no package changes");
    assert_eq!(line, "0-0|0|sync|noop|-|no package changes\n");
}

#[test]
fn record_then_read_gives_the_fields_back() {
    let operation = "in|stall\\";
    let status = "fai\nled";
    let targets = strings(&["a|b", "c\\d", "e\nf"]);
    let summary = "line one\nline two | with pipe \\ and backslash";
    let line = record(1700000123, 77, operation, status, &targets, summary);
    assert_eq!(line.matches('\n').count(), 1);
    assert!(line.ends_with('\n'));
    let entries = read_entries(&line);
    assert_eq!(entries.len(), 1);
    let e = &entries[0];
    assert_eq!(e.id, "1700000123-77");
    assert_eq!(e.ts, 1700000123);
    assert_eq!(e.op, operation);
    assert_eq!(e.status, status);
    assert_eq!(e.targets, "a|b c\\d e\nf");
    assert_eq!(e.summary, summary);
}

#[test]
fn appending_a_record_adds_one_entry_at_the_end() {
    let mut ledger = String::new();
    ledger.push_str(&record(1, 10, "install", "success", &strings(&["a"]), "first"));
    ledger.push_str(&record(2, 10, "remove", "cancelled", &strings(&["b"]), "se|cond"));
    let before = read_entries(&ledger);
    ledger.push_str(&record(3, 11, "sync", "dry-run", &strings(&[]), "third\nline"));
    let after = read_entries(&ledger);
    assert_eq!(after.len(), before.len() + 1);
    assert_eq!(&after[..2], &before[..]);
    assert_eq!(after[2], entry("3-11", 3, "sync", "dry-run", "-", "third\nline"));
}

#[test]
fn read_entries_skips_damaged_lines() {
    let ledger = "1-1|1|install|success|a|ok\ngarbage\n\n2-1|2|remove|failed|b|bad\r\n3-1|3|sync|noop|-|cut";
    let entries = read_entries(ledger);
    assert_eq!(entries.len(), 3);
    assert_eq!(entries[1].summary, "bad");
    assert_eq!(entries[2].summary, "cut");
    assert!(read_entries("").is_empty());
}

#[test]
fn show_says_when_the_ledger_is_empty() {
    assert_eq!(show(&Vec::new(), &strings(&[])), strings(&["No history entries found."]));
    assert_eq!(
        show(&Vec::new(), &strings(&["show", "x"])),
        strings(&["No history entries found."])
    );
}

#[test]
fn show_lists_recent_entries_newest_first() {
    let entries = vec![
        entry("1-1", 1, "install", "success", "a", "s1"),
        entry("2-1", 2, "remove", "failed", "b", "s2"),
        entry("3-1", 3, "sync", "noop", "-", "s3"),
    ];
    assert_eq!(
        show(&entries, &strings(&[])),
        strings(&[
            "Recent rustpack history:",
            "3-1  ts=3  op=sync  status=noop  targets=-",
            "2-1  ts=2  op=remove  status=failed  targets=b",
            "1-1  ts=1  op=install  status=success  targets=a",
        ])
    );
    assert_eq!(
        show(&entries, &strings(&["2"])),
        strings(&[
            "Recent rustpack history:",
            "3-1  ts=3  op=sync  status=noop  targets=-",
            "2-1  ts=2  op=remove  status=failed  targets=b",
        ])
    );
    assert_eq!(show(&entries, &strings(&["0"])).len(), 2);
    assert_eq!(show(&entries, &strings(&["100"])).len(), 4);
}

#[test]
fn show_lists_twenty_by_default() {
    let mut entries = Vec::new();
    for i in 0..25u64 {
        entries.push(entry(&format!("{}-1", i), i, "install", "success", "a", "s"));
    }
    let lines = show(&entries, &strings(&[]));
    assert_eq!(lines.len(), 21);
    assert_eq!(lines[1], "24-1  ts=24  op=install  status=success  targets=a");
    assert_eq!(lines[20], "5-1  ts=5  op=install  status=success  targets=a");
}

#[test]
fn show_one_entry_by_identifier() {
    let entries = vec![
        entry("1-1", 1, "install", "success", "a", "s1"),
        entry("2-1", 2, "remove", "failed", "b", "s2"),
    ];
    assert_eq!(
        show(&entries, &strings(&["show", "2-1"])),
        strings(&[
            "id      : 2-1",
            "ts      : 2",
            "op      : remove",
            "status  : failed",
            "targets : b",
            "summary : s2",
        ])
    );
    assert_eq!(
        show(&entries, &strings(&["show", "9-9"])),
        strings(&["history entry not found: 9-9"])
    );
    assert_eq!(
        show(&entries, &strings(&["show"])),
        strings(&["usage: rustpack history show <id>"])
    );
}

#[test]
fn show_explains_itself_on_anything_else() {
    let entries = vec![entry("1-1", 1, "install", "success", "a", "s1")];
    assert_eq!(
        show(&entries, &strings(&["bogus"])),
        strings(&[
            "usage:",
            "  rustpack history",
            "  rustpack history <limit>",
            "  rustpack history show <id>",
        ])
    );
}

#[test]
fn ledger_lives_below_the_root() {
    let mut g = GlobalFlags::default();
    assert_eq!(history_dir(&g), "/var/log/rustpack");
    assert_eq!(history_file(&g), "/var/log/rustpack/history.log");
    g.root_dir = Some("/".to_string());
    assert_eq!(history_dir(&g), "/var/log/rustpack");
    g.root_dir = Some("/mnt".to_string());
    assert_eq!(history_dir(&g), "/mnt/var/log/rustpack");
    assert_eq!(history_file(&g), "/mnt/var/log/rustpack/history.log");
    g.root_dir = Some("/mnt/".to_string());
    assert_eq!(history_dir(&g), "/mnt/var/log/rustpack");
    g.root_dir = Some(String::new());
    assert_eq!(history_dir(&g), "var/log/rustpack");
}
