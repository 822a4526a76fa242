//! The history ledger: one line of text per past operation.
//!
//! A record has six fields separated by `|`: identifier, time stamp,
//! operation, status, targets and summary. In the text fields the
//! separator, the escape character and the line feed are written as
//! two-character escapes, so that a record is one line and reads back as it
//! was written.

use vstd::prelude::*;
use vstd::string::*;
use crate::cli::GlobalFlags;
use crate::number::{decimal, decimal_text, number_of, parse_u64};
use crate::text::{
    char_views, chars_of, find_char, index_of_from, is_text, join, joined, lines_of,
    push_chars, push_text, slice_chars, split_lines, string_of, text, views,
};

verus! {

/// How one character is written in a record.
pub open spec fn escape_char(c: char) -> Seq<char> {
    if c == '\\' {
        seq!['\\', '\\']
    } else if c == '|' {
        seq!['\\', 'p']
    } else if c == '\n' {
        seq!['\\', 'n']
    } else {
        seq![c]
    }
}

/// How a text is written in a record: character by character.
pub open spec fn escaped(s: Seq<char>) -> Seq<char>
    decreases s.len(),
{
    if s.len() == 0 {
        Seq::empty()
    } else {
        escape_char(s[0]) + escaped(s.skip(1))
    }
}

/// The text that a field of a record stands for. A backslash before a
/// character that forms no escape with it stands for itself, and so does a
/// backslash at the end.
pub open spec fn unescaped(s: Seq<char>) -> Seq<char>
    decreases s.len(),
{
    if s.len() == 0 {
        Seq::empty()
    } else if s[0] != '\\' {
        seq![s[0]] + unescaped(s.skip(1))
    } else if s.len() == 1 {
        seq!['\\']
    } else if s[1] == '\\' {
        seq!['\\'] + unescaped(s.skip(2))
    } else if s[1] == 'p' {
        seq!['|'] + unescaped(s.skip(2))
    } else if s[1] == 'n' {
        seq!['\n'] + unescaped(s.skip(2))
    } else {
        seq!['\\', s[1]] + unescaped(s.skip(2))
    }
}

/// Appends to `out` the way `s` is written in a record.
pub fn push_escaped(out: &mut Vec<char>, s: &Vec<char>)
    ensures
        final(out)@ == old(out)@ + escaped(s@),
{
    let mut i: usize = 0;
    proof {
        assert(s@.skip(0) =~= s@);
        assert(out@ + escaped(s@.skip(0)) =~= old(out)@ + escaped(s@));
    }
    while i < s.len()
        invariant
            i <= s.len(),
            out@ + escaped(s@.skip(i as int)) == old(out)@ + escaped(s@),
        decreases s.len() - i,
    {
        let ghost before = out@;
        let ghost rest = s@.skip(i as int);
        let c = s[i];
        proof {
            assert(rest[0] == c);
            assert(rest.skip(1) =~= s@.skip(i + 1));
            assert(escaped(rest) == escape_char(c) + escaped(s@.skip(i + 1)));
        }
        if c == '\\' {
            out.push('\\');
            out.push('\\');
        } else if c == '|' {
            out.push('\\');
            out.push('p');
        } else if c == '\n' {
            out.push('\\');
            out.push('n');
        } else {
            out.push(c);
        }
        proof {
            assert(out@ =~= before + escape_char(c));
            assert((before + escape_char(c)) + escaped(s@.skip(i + 1)) =~= before + (escape_char(c)
                + escaped(s@.skip(i + 1))));
        }
        i = i + 1;
    }
    proof {
        assert(escaped(s@.skip(i as int)) =~= Seq::<char>::empty());
        assert(out@ + Seq::<char>::empty() =~= out@);
    }
}

/// The way `input` is written in a record.
pub fn escape(input: &str) -> (r: String)
    ensures
        r@ == escaped(input@),
{
    let mut out: Vec<char> = Vec::new();
    push_escaped(&mut out, &chars_of(input));
    proof {
        assert(Seq::<char>::empty() + escaped(input@) =~= escaped(input@));
    }
    string_of(&out)
}

/// The text that the field `s` of a record stands for.
pub fn unescape_chars(s: &Vec<char>) -> (r: Vec<char>)
    ensures
        r@ == unescaped(s@),
{
    let mut out: Vec<char> = Vec::new();
    let mut i: usize = 0;
    proof {
        assert(s@.skip(0) =~= s@);
        assert(out@ + unescaped(s@.skip(0)) =~= unescaped(s@));
    }
    while i < s.len()
        invariant
            i <= s.len(),
            out@ + unescaped(s@.skip(i as int)) == unescaped(s@),
        decreases s.len() - i,
    {
        let ghost before = out@;
        let ghost rest = s@.skip(i as int);
        let c = s[i];
        proof {
            assert(rest[0] == c);
            assert(rest.len() == s.len() - i);
        }
        if c != '\\' {
            out.push(c);
            proof {
                assert(rest.skip(1) =~= s@.skip(i + 1));
                assert(before.push(c) + unescaped(s@.skip(i + 1)) =~= before + (seq![c]
                    + unescaped(s@.skip(i + 1))));
            }
            i = i + 1;
        } else if i + 1 == s.len() {
            out.push('\\');
            proof {
                assert(s@.skip(i + 1) =~= Seq::<char>::empty());
                assert(before.push('\\') + unescaped(s@.skip(i + 1)) =~= before + seq!['\\']);
            }
            i = i + 1;
        } else {
            let next = s[i + 1];
            proof {
                assert(rest[1] == next);
                assert(rest.skip(2) =~= s@.skip(i + 2));
            }
            if next == '\\' {
                out.push('\\');
                proof {
                    assert(out@ + unescaped(s@.skip(i + 2)) =~= before + (seq!['\\'] + unescaped(
                        s@.skip(i + 2),
                    )));
                }
            } else if next == 'p' {
                out.push('|');
                proof {
                    assert(out@ + unescaped(s@.skip(i + 2)) =~= before + (seq!['|'] + unescaped(
                        s@.skip(i + 2),
                    )));
                }
            } else if next == 'n' {
                out.push('\n');
                proof {
                    assert(out@ + unescaped(s@.skip(i + 2)) =~= before + (seq!['\n'] + unescaped(
                        s@.skip(i + 2),
                    )));
                }
            } else {
                out.push('\\');
                out.push(next);
                proof {
                    assert(out@ + unescaped(s@.skip(i + 2)) =~= before + (seq!['\\', next]
                        + unescaped(s@.skip(i + 2))));
                }
            }
            i = i + 2;
        }
    }
    proof {
        assert(unescaped(s@.skip(i as int)) =~= Seq::<char>::empty());
        assert(out@ + Seq::<char>::empty() =~= out@);
    }
    out
}

/// The text that the field `input` of a record stands for.
pub fn unescape(input: &str) -> (r: String)
    ensures
        r@ == unescaped(input@),
{
    string_of(&unescape_chars(&chars_of(input)))
}

/// One record of the ledger.
#[derive(Debug, Clone, PartialEq, Eq)]
pub struct Entry {
    pub id: String,
    pub ts: u64,
    pub op: String,
    pub status: String,
    pub targets: String,
    pub summary: String,
}

/// The mathematical content of an [`Entry`].
pub struct EntryModel {
    pub id: Seq<char>,
    pub ts: u64,
    pub op: Seq<char>,
    pub status: Seq<char>,
    pub targets: Seq<char>,
    pub summary: Seq<char>,
}

impl View for Entry {
    type V = EntryModel;

    open spec fn view(&self) -> EntryModel {
        EntryModel {
            id: self.id@,
            ts: self.ts,
            op: self.op@,
            status: self.status@,
            targets: self.targets@,
            summary: self.summary@,
        }
    }
}

/// The views of a sequence of entries.
pub open spec fn entry_views(v: Seq<Entry>) -> Seq<EntryModel> {
    Seq::new(v.len(), |i: int| v[i]@)
}

/// The view of an optional entry.
pub open spec fn opt_entry_view(e: Option<Entry>) -> Option<EntryModel> {
    match e {
        Some(v) => Some(v@),
        None => None,
    }
}

/// The entry that a line of the ledger holds: the line is cut at its first
/// five separators, the second field must be a number, and the others are
/// unescaped. A line with fewer separators, or whose time stamp is no
/// number, holds no entry.
pub open spec fn entry_of(line: Seq<char>) -> Option<EntryModel> {
    let n = line.len() as int;
    let e0 = index_of_from(line, '|', 0);
    let e1 = index_of_from(line, '|', e0 + 1);
    let e2 = index_of_from(line, '|', e1 + 1);
    let e3 = index_of_from(line, '|', e2 + 1);
    let e4 = index_of_from(line, '|', e3 + 1);
    if e0 >= n || e1 >= n || e2 >= n || e3 >= n || e4 >= n {
        None
    } else {
        match number_of(line.subrange(e0 + 1, e1)) {
            None => None,
            Some(ts) => Some(
                EntryModel {
                    id: unescaped(line.subrange(0, e0)),
                    ts,
                    op: unescaped(line.subrange(e1 + 1, e2)),
                    status: unescaped(line.subrange(e2 + 1, e3)),
                    targets: unescaped(line.subrange(e3 + 1, e4)),
                    summary: unescaped(line.subrange(e4 + 1, n)),
                },
            ),
        }
    }
}

/// Reads the entry that a line of the ledger holds.
pub fn parse_entry(line: &str) -> (r: Option<Entry>)
    ensures
        opt_entry_view(r) == entry_of(line@),
{
    let l = chars_of(line);
    let n = l.len();
    let e0 = find_char(&l, '|', 0);
    if e0 >= n {
        return None;
    }
    let e1 = find_char(&l, '|', e0 + 1);
    if e1 >= n {
        return None;
    }
    let e2 = find_char(&l, '|', e1 + 1);
    if e2 >= n {
        return None;
    }
    let e3 = find_char(&l, '|', e2 + 1);
    if e3 >= n {
        return None;
    }
    let e4 = find_char(&l, '|', e3 + 1);
    if e4 >= n {
        return None;
    }
    let ts = match parse_u64(&slice_chars(&l, e0 + 1, e1)) {
        None => {
            return None;
        },
        Some(ts) => ts,
    };
    Some(
        Entry {
            id: string_of(&unescape_chars(&slice_chars(&l, 0, e0))),
            ts,
            op: string_of(&unescape_chars(&slice_chars(&l, e1 + 1, e2))),
            status: string_of(&unescape_chars(&slice_chars(&l, e2 + 1, e3))),
            targets: string_of(&unescape_chars(&slice_chars(&l, e3 + 1, e4))),
            summary: string_of(&unescape_chars(&slice_chars(&l, e4 + 1, n))),
        },
    )
}

/// The entries that the lines from index `i` on hold; a line that holds
/// none is passed over.
pub open spec fn entries_from(lines: Seq<Seq<char>>, i: int) -> Seq<EntryModel>
    decreases lines.len() - i,
{
    if i < 0 || i >= lines.len() {
        Seq::empty()
    } else {
        match entry_of(lines[i]) {
            Some(e) => seq![e] + entries_from(lines, i + 1),
            None => entries_from(lines, i + 1),
        }
    }
}

/// The entries of a ledger, in the order of its lines. An empty text is an
/// empty history.
pub open spec fn entries_of(content: Seq<char>) -> Seq<EntryModel> {
    entries_from(lines_of(content), 0)
}

/// Reads the entries of a ledger.
pub fn read_entries(content: &str) -> (r: Vec<Entry>)
    ensures
        entry_views(r@) == entries_of(content@),
{
    let lines = split_lines(&chars_of(content));
    let ghost model = char_views(lines@);
    let mut out: Vec<Entry> = Vec::new();
    let mut i: usize = 0;
    proof {
        assert(entry_views(out@) =~= Seq::<EntryModel>::empty());
    }
    while i < lines.len()
        invariant
            i <= lines.len(),
            model == char_views(lines@),
            entries_from(model, 0) == entry_views(out@) + entries_from(model, i as int),
        decreases lines.len() - i,
    {
        let ghost before = entry_views(out@);
        let line = string_of(&lines[i]);
        proof {
            assert(line@ == model[i as int]);
        }
        match parse_entry(line.as_str()) {
            Some(e) => {
                out.push(e);
                proof {
                    assert(entry_views(out@) =~= before + seq![e@]);
                    assert(before + (seq![e@] + entries_from(model, i + 1)) =~= (before + seq![
                        e@,
                    ]) + entries_from(model, i + 1));
                }
            },
            None => {},
        }
        i = i + 1;
    }
    proof {
        assert(entry_views(out@) + Seq::<EntryModel>::empty() =~= entry_views(out@));
    }
    out
}

/// The identifier of a record written at time `now` by process `pid`.
pub open spec fn entry_id(now: u64, pid: u32) -> Seq<char> {
    decimal_text(now as nat) + "-"@ + decimal_text(pid as nat)
}

/// The targets field of a record: the targets with a space between them, or
/// `-` when there are none.
pub open spec fn target_text(targets: Seq<Seq<char>>) -> Seq<char> {
    if targets.len() == 0 {
        "-"@
    } else {
        joined(targets, " "@)
    }
}

/// The line, without its line feed, of the record with these fields.
pub open spec fn entry_line(
    id: Seq<char>,
    ts: u64,
    op: Seq<char>,
    status: Seq<char>,
    targets: Seq<char>,
    summary: Seq<char>,
) -> Seq<char> {
    escaped(id) + seq!['|'] + decimal_text(ts as nat) + seq!['|'] + escaped(op) + seq!['|']
        + escaped(status) + seq!['|'] + escaped(targets) + seq!['|'] + escaped(summary)
}

/// The text that recording an operation appends to the ledger.
pub open spec fn recorded(
    now: u64,
    pid: u32,
    op: Seq<char>,
    status: Seq<char>,
    targets: Seq<Seq<char>>,
    summary: Seq<char>,
) -> Seq<char> {
    entry_line(entry_id(now, pid), now, op, status, target_text(targets), summary) + seq!['\n']
}

/// The text to append to the ledger for an operation that ended at time
/// `now` (seconds since the epoch) in process `pid`: one record and a line
/// feed.
pub fn record(
    now: u64,
    pid: u32,
    operation: &str,
    status: &str,
    targets: &Vec<String>,
    summary: &str,
) -> (r: String)
    ensures
        r@ == recorded(now, pid, operation@, status@, views(targets@), summary@),
{
    let mut id = decimal(now);
    push_text(&mut id, "-");
    push_chars(&mut id, &decimal(pid as u64));
    let target_text: Vec<char> = if targets.len() == 0 {
        chars_of("-")
    } else {
        join(targets, " ")
    };
    let mut out: Vec<char> = Vec::new();
    push_escaped(&mut out, &id);
    out.push('|');
    push_chars(&mut out, &decimal(now));
    out.push('|');
    push_escaped(&mut out, &chars_of(operation));
    out.push('|');
    push_escaped(&mut out, &chars_of(status));
    out.push('|');
    push_escaped(&mut out, &target_text);
    out.push('|');
    push_escaped(&mut out, &chars_of(summary));
    out.push('\n');
    proof {
        assert(out@ =~= recorded(now, pid, operation@, status@, views(targets@), summary@));
    }
    string_of(&out)
}

/// `rel` below `base`, as paths are joined: a `rel` that starts at the root
/// stands alone, and a separator comes between the two unless `base` is
/// empty or ends with one.
pub open spec fn path_join(base: Seq<char>, rel: Seq<char>) -> Seq<char> {
    if rel.len() > 0 && rel[0] == '/' {
        rel
    } else if base.len() == 0 || base[base.len() - 1] == '/' {
        base + rel
    } else {
        base + seq!['/'] + rel
    }
}

/// `rel` below `base`.
pub fn join_path(base: &Vec<char>, rel: &Vec<char>) -> (r: Vec<char>)
    ensures
        r@ == path_join(base@, rel@),
{
    if rel.len() > 0 && rel[0] == '/' {
        return rel.clone();
    }
    let mut out = base.clone();
    if !(base.len() == 0 || base[base.len() - 1] == '/') {
        out.push('/');
    }
    push_chars(&mut out, rel);
    out
}

/// The directory of the ledger: `var/log/rustpack` below the root in force.
pub open spec fn history_dir_of(root: Option<Seq<char>>) -> Seq<char> {
    match root {
        Some(r) => if r == "/"@ {
            "/var/log/rustpack"@
        } else {
            path_join(r, "var/log/rustpack"@)
        },
        None => "/var/log/rustpack"@,
    }
}

/// The directory of the ledger.
pub fn history_dir(global: &GlobalFlags) -> (r: String)
    ensures
        r@ == history_dir_of(global@.root_dir),
{
    match &global.root_dir {
        Some(root) => {
            let r = chars_of(root.as_str());
            if is_text(&r, "/") {
                text("/var/log/rustpack")
            } else {
                string_of(&join_path(&r, &chars_of("var/log/rustpack")))
            }
        },
        None => text("/var/log/rustpack"),
    }
}

/// The file of the ledger: `history.log` in its directory.
pub fn history_file(global: &GlobalFlags) -> (r: String)
    ensures
        r@ == path_join(history_dir_of(global@.root_dir), "history.log"@),
{
    let dir = history_dir(global);
    string_of(&join_path(&chars_of(dir.as_str()), &chars_of("history.log")))
}

/// The row of an entry in the list of recent entries.
pub open spec fn list_row(e: EntryModel) -> Seq<char> {
    e.id + "  ts="@ + decimal_text(e.ts as nat) + "  op="@ + e.op + "  status="@ + e.status
        + "  targets="@ + e.targets
}

/// The list of the `limit` most recent entries: a heading, then the entries
/// from the newest back.
pub open spec fn listing(entries: Seq<EntryModel>, limit: int) -> Seq<Seq<char>> {
    let count = if limit < entries.len() {
        limit
    } else {
        entries.len() as int
    };
    Seq::new(
        (count + 1) as nat,
        |k: int|
            if k == 0 {
                "Recent rustpack history:"@
            } else {
                list_row(entries[entries.len() - k])
            },
    )
}

/// The lines that show one entry in full.
pub open spec fn detail(e: EntryModel) -> Seq<Seq<char>> {
    seq![
        "id      : "@ + e.id,
        "ts      : "@ + decimal_text(e.ts as nat),
        "op      : "@ + e.op,
        "status  : "@ + e.status,
        "targets : "@ + e.targets,
        "summary : "@ + e.summary,
    ]
}

/// The index of the first entry at or after `i` whose identifier is `id`,
/// or the number of entries when there is none.
pub open spec fn find_entry(entries: Seq<EntryModel>, id: Seq<char>, i: int) -> int
    decreases entries.len() - i,
{
    if i < 0 || i >= entries.len() {
        entries.len() as int
    } else if entries[i].id == id {
        i
    } else {
        find_entry(entries, id, i + 1)
    }
}

/// How many entries the list shows when nothing is asked.
pub open spec fn default_limit() -> int {
    20
}

/// The limit that the text `s` asks for, if it is a number that a `usize`
/// holds: the number itself, and one for zero.
pub open spec fn limit_of(s: Seq<char>) -> Option<int> {
    match number_of(s) {
        Some(n) => if n <= usize::MAX {
            Some(if n < 1 { 1int } else { n as int })
        } else {
            None
        },
        None => None,
    }
}

/// How the history command is used.
pub open spec fn usage() -> Seq<Seq<char>> {
    seq![
        "usage:"@,
        "  rustpack history"@,
        "  rustpack history <limit>"@,
        "  rustpack history show <id>"@,
    ]
}

/// What the history command prints for the selector `args`: the 20 most
/// recent entries when there is none, the entry with the given identifier
/// for `show <id>`, the given number of most recent entries for a number,
/// and how the command is used for anything else. An empty ledger says so
/// whatever is asked.
pub open spec fn shown(entries: Seq<EntryModel>, args: Seq<Seq<char>>) -> Seq<Seq<char>> {
    if entries.len() == 0 {
        seq!["No history entries found."@]
    } else if args.len() == 0 {
        listing(entries, default_limit())
    } else if args[0] == "show"@ {
        if args.len() < 2 {
            seq!["usage: rustpack history show <id>"@]
        } else {
            let k = find_entry(entries, args[1], 0);
            if k < entries.len() {
                detail(entries[k])
            } else {
                seq!["history entry not found: "@ + args[1]]
            }
        }
    } else {
        match limit_of(args[0]) {
            Some(limit) => listing(entries, limit),
            None => usage(),
        }
    }
}

/// A line made of a label and a text.
fn labelled(label: &str, value: &str) -> (r: String)
    ensures
        r@ == label@ + value@,
{
    let mut out = chars_of(label);
    push_text(&mut out, value);
    string_of(&out)
}

/// The row of an entry in the list of recent entries.
fn row_of(e: &Entry) -> (r: String)
    ensures
        r@ == list_row(e@),
{
    let mut out = chars_of(e.id.as_str());
    push_text(&mut out, "  ts=");
    push_chars(&mut out, &decimal(e.ts));
    push_text(&mut out, "  op=");
    push_text(&mut out, e.op.as_str());
    push_text(&mut out, "  status=");
    push_text(&mut out, e.status.as_str());
    push_text(&mut out, "  targets=");
    push_text(&mut out, e.targets.as_str());
    string_of(&out)
}

/// The list of the `limit` most recent entries.
fn list_entries(entries: &Vec<Entry>, limit: usize) -> (r: Vec<String>)
    ensures
        views(r@) == listing(entry_views(entries@), limit as int),
{
    let ghost model = entry_views(entries@);
    let count: usize = if limit < entries.len() {
        limit
    } else {
        entries.len()
    };
    let mut out: Vec<String> = Vec::new();
    out.push(text("Recent rustpack history:"));
    let mut k: usize = 1;
    while k <= count
        invariant
            1 <= k <= count + 1,
            count <= entries.len(),
            count == (if limit < entries.len() {
                limit
            } else {
                entries.len()
            }),
            model == entry_views(entries@),
            out@.len() == k,
            forall|j: int| 0 <= j < k ==> #[trigger] out@[j]@ == listing(model, limit as int)[j],
        decreases count + 1 - k,
    {
        let row = row_of(&entries[entries.len() - k]);
        out.push(row);
        if k == count {
            proof {
                assert(views(out@) =~= listing(model, limit as int));
            }
            return out;
        }
        k = k + 1;
    }
    proof {
        assert(views(out@) =~= listing(model, limit as int));
    }
    out
}

/// The lines that show one entry in full.
fn detail_of(e: &Entry) -> (r: Vec<String>)
    ensures
        views(r@) == detail(e@),
{
    let mut out: Vec<String> = Vec::new();
    out.push(labelled("id      : ", e.id.as_str()));
    out.push(labelled("ts      : ", string_of(&decimal(e.ts)).as_str()));
    out.push(labelled("op      : ", e.op.as_str()));
    out.push(labelled("status  : ", e.status.as_str()));
    out.push(labelled("targets : ", e.targets.as_str()));
    out.push(labelled("summary : ", e.summary.as_str()));
    proof {
        assert(views(out@) =~= detail(e@));
    }
    out
}

/// One line of text, as a list of lines.
fn one_line(line: String) -> (r: Vec<String>)
    ensures
        views(r@) == seq![line@],
{
    let mut out: Vec<String> = Vec::new();
    out.push(line);
    proof {
        assert(views(out@) =~= seq![line@]);
    }
    out
}

/// The limit that the text `s` asks for.
fn parse_limit(s: &Vec<char>) -> (r: Option<usize>)
    ensures
        match limit_of(s@) {
            Some(n) => r == Some(n as usize) && n <= usize::MAX,
            None => r is None,
        },
{
    match parse_u64(s) {
        Some(n) => {
            if n <= usize::MAX as u64 {
                if n < 1 {
                    Some(1)
                } else {
                    Some(n as usize)
                }
            } else {
                None
            }
        },
        None => None,
    }
}

/// The lines that the history command prints for the ledger's entries and
/// the selector `args`.
pub fn show(entries: &Vec<Entry>, args: &Vec<String>) -> (r: Vec<String>)
    ensures
        views(r@) == shown(entry_views(entries@), views(args@)),
{
    let ghost model = entry_views(entries@);
    if entries.len() == 0 {
        return one_line(text("No history entries found."));
    }
    if args.len() == 0 {
        return list_entries(entries, 20);
    }
    let first = chars_of(args[0].as_str());
    if is_text(&first, "show") {
        if args.len() < 2 {
            return one_line(text("usage: rustpack history show <id>"));
        }
        let id = chars_of(args[1].as_str());
        let mut k: usize = 0;
        while k < entries.len()
            invariant
                k <= entries.len(),
                entries.len() > 0,
                args@.len() >= 2,
                args@[0]@ == "show"@,
                model == entry_views(entries@),
                id@ == args@[1]@,
                find_entry(model, id@, 0) == find_entry(model, id@, k as int),
            decreases entries.len() - k,
        {
            if is_text(&id, entries[k].id.as_str()) {
                proof {
                    assert(model[k as int].id == id@);
                }
                return detail_of(&entries[k]);
            }
            proof {
                assert(model[k as int].id != id@);
            }
            k = k + 1;
        }
        return one_line(labelled("history entry not found: ", args[1].as_str()));
    }
    match parse_limit(&first) {
        Some(limit) => list_entries(entries, limit),
        None => {
            let mut out: Vec<String> = Vec::new();
            out.push(text("usage:"));
            out.push(text("  rustpack history"));
            out.push(text("  rustpack history <limit>"));
            out.push(text("  rustpack history show <id>"));
            proof {
                assert(views(out@) =~= usage());
            }
            out
        },
    }
}

} // verus!
