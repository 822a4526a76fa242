//! What holds of every record of the ledger: writing and reading are
//! inverse to each other.

use vstd::prelude::*;
use crate::history::{
    entries_from, entries_of, entry_line, entry_of, escape_char, escaped, unescaped, EntryModel,
};
use crate::number::{decimal_text, is_digit, lemma_decimal_round_trip};
use crate::text::{index_of_from, lines_from, lines_of, without_cr};

verus! {

/// Unescaping what escaping wrote gives the text back, whatever characters
/// it holds.
pub proof fn lemma_unescape_escaped(s: Seq<char>)
    ensures
        unescaped(escaped(s)) == s,
    decreases s.len(),
{
    if s.len() > 0 {
        let c = s[0];
        let e = escape_char(c);
        let r = escaped(s.skip(1));
        lemma_unescape_escaped(s.skip(1));
        assert(escaped(s) == e + r);
        if c == '\\' || c == '|' || c == '\n' {
            assert((e + r).skip(2) =~= r);
            assert((e + r)[0] == '\\');
            assert((e + r)[1] == e[1]);
        } else {
            assert((e + r).skip(1) =~= r);
            assert((e + r)[0] == c);
        }
        assert(seq![c] + s.skip(1) =~= s);
    } else {
        assert(escaped(s) =~= Seq::<char>::empty());
        assert(s =~= Seq::<char>::empty());
    }
}

/// What escaping writes holds neither a separator nor a line feed.
pub proof fn lemma_escaped_is_one_field(s: Seq<char>)
    ensures
        forall|i: int|
            0 <= i < escaped(s).len() ==> #[trigger] escaped(s)[i] != '|' && escaped(s)[i] != '\n',
    decreases s.len(),
{
    if s.len() > 0 {
        let e = escape_char(s[0]);
        let r = escaped(s.skip(1));
        lemma_escaped_is_one_field(s.skip(1));
        assert forall|i: int| 0 <= i < escaped(s).len() implies #[trigger] escaped(s)[i] != '|'
            && escaped(s)[i] != '\n' by {
            if i >= e.len() {
                assert((e + r)[i] == r[i - e.len()]);
            } else {
                assert((e + r)[i] == e[i]);
            }
        }
    }
}

/// Escaping keeps a carriage return out of the end of a text that does not
/// end with one.
pub proof fn lemma_escaped_end(s: Seq<char>)
    requires
        s.len() == 0 || s[s.len() - 1] != '\r',
    ensures
        escaped(s).len() == 0 || escaped(s)[escaped(s).len() - 1] != '\r',
    decreases s.len(),
{
    if s.len() > 0 {
        let e = escape_char(s[0]);
        let r = escaped(s.skip(1));
        assert(escaped(s) == e + r);
        if s.len() == 1 {
            assert(s.skip(1).len() == 0);
            assert(r =~= Seq::<char>::empty());
            assert(e + r =~= e);
        } else {
            assert(s.skip(1)[s.skip(1).len() - 1] == s[s.len() - 1]);
            lemma_escaped_end(s.skip(1));
            lemma_escaped_nonempty(s.skip(1));
            assert((e + r)[(e + r).len() - 1] == r[r.len() - 1]);
        }
    }
}

/// Escaping a text that is not empty writes something.
pub proof fn lemma_escaped_nonempty(s: Seq<char>)
    requires
        s.len() > 0,
    ensures
        escaped(s).len() > 0,
{
}

/// In `p + f + [c] + r`, where `f` holds no `c`, the first `c` at or after
/// the start of `f` is the one that follows `f`.
pub proof fn lemma_field_end(p: Seq<char>, f: Seq<char>, c: char, r: Seq<char>, k: int)
    requires
        forall|i: int| 0 <= i < f.len() ==> f[i] != c,
        p.len() <= k <= p.len() + f.len(),
    ensures
        index_of_from(p + f + seq![c] + r, c, k) == p.len() + f.len(),
    decreases p.len() + f.len() - k,
{
    let s = p + f + seq![c] + r;
    if k < p.len() + f.len() {
        assert(s[k] == f[k - p.len()]);
        lemma_field_end(p, f, c, r, k + 1);
    } else {
        assert(s[k] == c);
    }
}

/// The numeral of a number holds no separator and no line feed.
pub proof fn lemma_decimal_is_one_field(n: nat)
    ensures
        forall|i: int|
            0 <= i < decimal_text(n).len() ==> #[trigger] decimal_text(n)[i] != '|'
                && decimal_text(n)[i] != '\n',
{
    lemma_decimal_round_trip(n);
    assert forall|i: int| 0 <= i < decimal_text(n).len() implies #[trigger] decimal_text(n)[i]
        != '|' && decimal_text(n)[i] != '\n' by {
        assert(is_digit(decimal_text(n)[i]));
    }
}

/// A record reads back as it was written: the line of a record holds the
/// entry with exactly the fields that went into it, whatever separators,
/// backslashes and line feeds those fields hold.
pub proof fn lemma_record_round_trip(
    id: Seq<char>,
    ts: u64,
    op: Seq<char>,
    status: Seq<char>,
    targets: Seq<char>,
    summary: Seq<char>,
)
    ensures
        entry_of(entry_line(id, ts, op, status, targets, summary)) == Some(
            EntryModel { id, ts, op, status, targets, summary },
        ),
{
    let line = entry_line(id, ts, op, status, targets, summary);
    let bar = seq!['|'];
    let f0 = escaped(id);
    let f1 = decimal_text(ts as nat);
    let f2 = escaped(op);
    let f3 = escaped(status);
    let f4 = escaped(targets);
    let f5 = escaped(summary);
    lemma_escaped_is_one_field(id);
    lemma_escaped_is_one_field(op);
    lemma_escaped_is_one_field(status);
    lemma_escaped_is_one_field(targets);
    lemma_decimal_is_one_field(ts as nat);
    lemma_decimal_round_trip(ts as nat);
    lemma_unescape_escaped(id);
    lemma_unescape_escaped(op);
    lemma_unescape_escaped(status);
    lemma_unescape_escaped(targets);
    lemma_unescape_escaped(summary);
    let head0 = Seq::<char>::empty();
    let rest0 = f1 + bar + f2 + bar + f3 + bar + f4 + bar + f5;
    assert(line =~= head0 + f0 + bar + rest0);
    lemma_field_end(head0, f0, '|', rest0, 0);
    let e0 = f0.len() as int;
    let head1 = f0 + bar;
    let rest1 = f2 + bar + f3 + bar + f4 + bar + f5;
    assert(line =~= head1 + f1 + bar + rest1);
    lemma_field_end(head1, f1, '|', rest1, e0 + 1);
    let e1 = e0 + 1 + f1.len();
    let head2 = head1 + f1 + bar;
    let rest2 = f3 + bar + f4 + bar + f5;
    assert(line =~= head2 + f2 + bar + rest2);
    lemma_field_end(head2, f2, '|', rest2, e1 + 1);
    let e2 = e1 + 1 + f2.len();
    let head3 = head2 + f2 + bar;
    let rest3 = f4 + bar + f5;
    assert(line =~= head3 + f3 + bar + rest3);
    lemma_field_end(head3, f3, '|', rest3, e2 + 1);
    let e3 = e2 + 1 + f3.len();
    let head4 = head3 + f3 + bar;
    let rest4 = f5;
    assert(line =~= head4 + f4 + bar + rest4);
    lemma_field_end(head4, f4, '|', rest4, e3 + 1);
    let e4 = e3 + 1 + f4.len();
    assert(line.subrange(0, e0) =~= f0);
    assert(line.subrange(e0 + 1, e1) =~= f1);
    assert(line.subrange(e1 + 1, e2) =~= f2);
    assert(line.subrange(e2 + 1, e3) =~= f3);
    assert(line.subrange(e3 + 1, e4) =~= f4);
    assert(line.subrange(e4 + 1, line.len() as int) =~= f5);
}

/// The line of a record holds no line feed, and ends with a carriage return
/// only if its summary does.
pub proof fn lemma_record_is_one_line(
    id: Seq<char>,
    ts: u64,
    op: Seq<char>,
    status: Seq<char>,
    targets: Seq<char>,
    summary: Seq<char>,
)
    ensures
        forall|i: int|
            0 <= i < entry_line(id, ts, op, status, targets, summary).len()
                ==> #[trigger] entry_line(id, ts, op, status, targets, summary)[i] != '\n',
        (summary.len() == 0 || summary[summary.len() - 1] != '\r') ==> without_cr(
            entry_line(id, ts, op, status, targets, summary),
        ) == entry_line(id, ts, op, status, targets, summary),
{
    let line = entry_line(id, ts, op, status, targets, summary);
    lemma_escaped_is_one_field(id);
    lemma_escaped_is_one_field(op);
    lemma_escaped_is_one_field(status);
    lemma_escaped_is_one_field(targets);
    lemma_escaped_is_one_field(summary);
    lemma_decimal_is_one_field(ts as nat);
    let bar = seq!['|'];
    let a0 = escaped(id);
    let a1 = a0 + bar;
    let a2 = a1 + decimal_text(ts as nat);
    let a3 = a2 + bar;
    let a4 = a3 + escaped(op);
    let a5 = a4 + bar;
    let a6 = a5 + escaped(status);
    let a7 = a6 + bar;
    let a8 = a7 + escaped(targets);
    let a9 = a8 + bar;
    assert(line == a9 + escaped(summary));
    assert forall|i: int| 0 <= i < line.len() implies #[trigger] line[i] != '\n' by {
        if i < a0.len() {
            assert(line[i] == a0[i]);
        } else if i < a1.len() {
            assert(line[i] == '|');
        } else if i < a2.len() {
            assert(line[i] == decimal_text(ts as nat)[i - a1.len()]);
        } else if i < a3.len() {
            assert(line[i] == '|');
        } else if i < a4.len() {
            assert(line[i] == escaped(op)[i - a3.len()]);
        } else if i < a5.len() {
            assert(line[i] == '|');
        } else if i < a6.len() {
            assert(line[i] == escaped(status)[i - a5.len()]);
        } else if i < a7.len() {
            assert(line[i] == '|');
        } else if i < a8.len() {
            assert(line[i] == escaped(targets)[i - a7.len()]);
        } else if i < a9.len() {
            assert(line[i] == '|');
        } else {
            assert(line[i] == escaped(summary)[i - a9.len()]);
        }
    }
    if summary.len() == 0 || summary[summary.len() - 1] != '\r' {
        lemma_escaped_end(summary);
        let f5 = escaped(summary);
        if f5.len() == 0 {
            assert(line[line.len() - 1] == '|');
        } else {
            assert(line[line.len() - 1] == f5[f5.len() - 1]);
        }
    }
}

/// Appending text to `a` does not move the first `c` at or after `i` when
/// `a` holds one there.
pub proof fn lemma_index_in_prefix(a: Seq<char>, t: Seq<char>, c: char, i: int, j: int)
    requires
        0 <= i <= j < a.len(),
        a[j] == c,
    ensures
        index_of_from(a + t, c, i) == index_of_from(a, c, i),
        i <= index_of_from(a, c, i) <= j,
    decreases j - i,
{
    assert((a + t)[i] == a[i]);
    if a[i] != c {
        lemma_index_in_prefix(a, t, c, i + 1, j);
    }
}

/// Appending one line and a line feed to a text that is empty or ends with
/// a line feed adds that line, less a carriage return at its end, to the
/// lines of the text.
pub proof fn lemma_lines_appended(a: Seq<char>, l: Seq<char>, i: int)
    requires
        a.len() == 0 || a[a.len() - 1] == '\n',
        forall|k: int| 0 <= k < l.len() ==> l[k] != '\n',
        0 <= i <= a.len(),
    ensures
        lines_from(a + l + seq!['\n'], i) == lines_from(a, i) + seq![without_cr(l)],
    decreases a.len() - i,
{
    let t = l + seq!['\n'];
    let s = a + l + seq!['\n'];
    assert(s =~= a + t);
    if i == a.len() {
        lemma_field_end(a, l, '\n', Seq::<char>::empty(), i);
        assert(s =~= a + l + seq!['\n'] + Seq::<char>::empty());
        let e: int = (a.len() + l.len()) as int;
        assert(index_of_from(s, '\n', i) == e);
        assert(s.subrange(i, e) =~= l);
        assert(lines_from(s, e + 1) =~= Seq::<Seq<char>>::empty());
        assert(lines_from(a, i) =~= Seq::<Seq<char>>::empty());
        assert(lines_from(s, i) =~= seq![without_cr(l)]);
        assert(lines_from(a, i) + seq![without_cr(l)] =~= seq![without_cr(l)]);
    } else {
        lemma_index_in_prefix(a, t, '\n', i, a.len() - 1);
        let e = index_of_from(a, '\n', i);
        assert(index_of_from(s, '\n', i) == e);
        assert(s.subrange(i, e) =~= a.subrange(i, e));
        lemma_lines_appended(a, l, e + 1);
        assert(lines_from(a, i) == seq![without_cr(a.subrange(i, e))] + lines_from(a, e + 1));
        assert(lines_from(s, i) == seq![without_cr(s.subrange(i, e))] + lines_from(s, e + 1));
        assert(seq![without_cr(a.subrange(i, e))] + (lines_from(a, e + 1) + seq![without_cr(l)])
            =~= (seq![without_cr(a.subrange(i, e))] + lines_from(a, e + 1)) + seq![
            without_cr(l),
        ]);
    }
}

/// One more line at the end adds its entry, if it holds one, at the end.
pub proof fn lemma_entries_appended(lines: Seq<Seq<char>>, x: Seq<char>, i: int)
    requires
        0 <= i <= lines.len(),
    ensures
        entries_from(lines + seq![x], i) == entries_from(lines, i) + (match entry_of(x) {
            Some(e) => seq![e],
            None => Seq::empty(),
        }),
    decreases lines.len() - i,
{
    let more = lines + seq![x];
    let tail = match entry_of(x) {
        Some(e) => seq![e],
        None => Seq::<EntryModel>::empty(),
    };
    if i == lines.len() {
        assert(more[i] == x);
        assert(entries_from(more, i + 1) =~= Seq::<EntryModel>::empty());
        assert(entries_from(lines, i) =~= Seq::<EntryModel>::empty());
        assert(entries_from(more, i) =~= tail);
        assert(entries_from(lines, i) + tail =~= tail);
    } else {
        assert(more[i] == lines[i]);
        lemma_entries_appended(lines, x, i + 1);
        match entry_of(lines[i]) {
            Some(e) => {
                assert(seq![e] + (entries_from(lines, i + 1) + tail) =~= (seq![e] + entries_from(
                    lines,
                    i + 1,
                )) + tail);
            },
            None => {},
        }
    }
}

/// Recording then reading: when the record of an operation is appended to a
/// ledger that is empty or ends with a line feed, reading the ledger gives
/// the entries it held before and then the new one, with exactly the fields
/// that were recorded. The summary must not end with a carriage return: one
/// that stands just before the line feed is taken for part of the line
/// ending.
pub proof fn lemma_append_then_read(
    ledger: Seq<char>,
    id: Seq<char>,
    ts: u64,
    op: Seq<char>,
    status: Seq<char>,
    targets: Seq<char>,
    summary: Seq<char>,
)
    requires
        ledger.len() == 0 || ledger[ledger.len() - 1] == '\n',
        summary.len() == 0 || summary[summary.len() - 1] != '\r',
    ensures
        entries_of(ledger + entry_line(id, ts, op, status, targets, summary) + seq!['\n'])
            == entries_of(ledger).push(EntryModel { id, ts, op, status, targets, summary }),
{
    let line = entry_line(id, ts, op, status, targets, summary);
    let e = EntryModel { id, ts, op, status, targets, summary };
    lemma_record_is_one_line(id, ts, op, status, targets, summary);
    lemma_record_round_trip(id, ts, op, status, targets, summary);
    lemma_lines_appended(ledger, line, 0);
    lemma_entries_appended(lines_of(ledger), line, 0);
    assert(entries_of(ledger) + seq![e] =~= entries_of(ledger).push(e));
}

} // verus!
