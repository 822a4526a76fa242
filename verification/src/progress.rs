//! Progress reports without repetition: what was shown last is remembered,
//! and an update that would show the same again is dropped.

use vstd::prelude::*;
use vstd::string::*;
use crate::text::{chars_of, is_text, string_of, text};

verus! {

/// What a table holds for `key`: the value of the first entry with that
/// key, if there is one.
pub open spec fn lookup<V>(entries: Seq<(String, V)>, key: Seq<char>) -> Option<V>
    decreases entries.len(),
{
    if entries.len() == 0 {
        None
    } else {
        match lookup(entries.drop_last(), key) {
            Some(v) => Some(v),
            None => if entries.last().0@ == key {
                Some(entries.last().1)
            } else {
                None
            },
        }
    }
}

/// Where no entry before index `i` has the key, the table holds for it what
/// the entries from `i` on hold; in particular the value at `i` when that
/// entry has the key.
pub proof fn lemma_lookup_first<V>(entries: Seq<(String, V)>, key: Seq<char>, i: int)
    requires
        0 <= i <= entries.len(),
        forall|j: int| 0 <= j < i ==> (#[trigger] entries[j]).0@ != key,
    ensures
        i < entries.len() && entries[i].0@ == key ==> lookup(entries, key) == Some(entries[i].1),
        i == entries.len() ==> lookup(entries, key) is None,
    decreases entries.len(),
{
    if entries.len() > 0 {
        let front = entries.drop_last();
        if i < entries.len() {
            assert forall|j: int| 0 <= j < i && j < front.len() implies (#[trigger] front[j]).0@
                != key by {
                assert(front[j] == entries[j]);
            }
            if i < front.len() {
                assert(front[i] == entries[i]);
                lemma_lookup_first(front, key, i);
            } else {
                lemma_lookup_first(front, key, front.len() as int);
            }
        } else {
            assert forall|j: int| 0 <= j < front.len() implies (#[trigger] front[j]).0@ != key by {
                assert(front[j] == entries[j]);
            }
            lemma_lookup_first(front, key, front.len() as int);
        }
    }
}

/// The value that the table holds for `key`, if any.
fn find<V: Copy>(entries: &Vec<(String, V)>, key: &Vec<char>) -> (r: Option<V>)
    ensures
        r == lookup(entries@, key@),
{
    let mut i: usize = 0;
    while i < entries.len()
        invariant
            i <= entries.len(),
            forall|j: int| 0 <= j < i ==> (#[trigger] entries@[j]).0@ != key@,
        decreases entries.len() - i,
    {
        if is_text(key, entries[i].0.as_str()) {
            proof {
                lemma_lookup_first(entries@, key@, i as int);
            }
            return Some(entries[i].1);
        }
        i = i + 1;
    }
    proof {
        lemma_lookup_first(entries@, key@, i as int);
    }
    None
}

/// The table without the entries for `key`.
fn without<V: Copy>(entries: &Vec<(String, V)>, key: &Vec<char>) -> (r: Vec<(String, V)>)
    ensures
        forall|k: Seq<char>|
            #[trigger] lookup(r@, k) == (if k == key@ {
                None
            } else {
                lookup(entries@, k)
            }),
{
    let mut out: Vec<(String, V)> = Vec::new();
    let mut i: usize = 0;
    proof {
        assert(entries@.take(0) =~= Seq::<(String, V)>::empty());
    }
    while i < entries.len()
        invariant
            i <= entries.len(),
            forall|k: Seq<char>|
                #[trigger] lookup(out@, k) == (if k == key@ {
                    None
                } else {
                    lookup(entries@.take(i as int), k)
                }),
        decreases entries.len() - i,
    {
        let ghost before = out@;
        let ghost seen = entries@.take(i as int);
        proof {
            assert(entries@.take(i + 1).drop_last() =~= seen);
            assert(entries@.take(i + 1).last() == entries@[i as int]);
        }
        if !is_text(key, entries[i].0.as_str()) {
            let item = (entries[i].0.clone(), entries[i].1);
            out.push(item);
            proof {
                assert(out@.drop_last() =~= before);
                assert(out@.last() == item);
                assert forall|k: Seq<char>| #[trigger]
                    lookup(out@, k) == (if k == key@ {
                        None
                    } else {
                        lookup(entries@.take(i + 1), k)
                    }) by {
                    assert(lookup(before, k) == (if k == key@ {
                        None
                    } else {
                        lookup(seen, k)
                    }));
                }
            }
        } else {
            proof {
                assert forall|k: Seq<char>| #[trigger]
                    lookup(out@, k) == (if k == key@ {
                        None
                    } else {
                        lookup(entries@.take(i + 1), k)
                    }) by {
                    assert(lookup(before, k) == (if k == key@ {
                        None
                    } else {
                        lookup(seen, k)
                    }));
                }
            }
        }
        i = i + 1;
    }
    proof {
        assert(entries@.take(i as int) =~= entries@);
    }
    out
}

/// What is remembered of the downloads: for each file the percentage that
/// was shown last, and whether its completion was shown.
pub struct DownloadState {
    last_percent: Vec<(String, i32)>,
    completed: Vec<(String, bool)>,
}

impl DownloadState {
    /// The percentage that was shown last for `file`, if any was.
    pub closed spec fn shown_percent(&self, file: Seq<char>) -> Option<i32> {
        lookup(self.last_percent@, file)
    }

    /// Whether the completion of `file` was shown.
    pub closed spec fn shown_complete(&self, file: Seq<char>) -> bool {
        lookup(self.completed@, file) == Some(true)
    }

    /// Nothing was shown yet.
    pub fn new() -> (r: DownloadState)
        ensures
            forall|f: Seq<char>| #[trigger] r.shown_percent(f) is None,
            forall|f: Seq<char>| !#[trigger] r.shown_complete(f),
    {
        DownloadState { last_percent: Vec::new(), completed: Vec::new() }
    }

    /// A download of `filename` starts: what was shown of an earlier one is
    /// forgotten.
    pub fn note_start(&mut self, filename: &str)
        ensures
            forall|f: Seq<char>|
                #[trigger] final(self).shown_percent(f) == (if f == filename@ {
                    None
                } else {
                    old(self).shown_percent(f)
                }),
            forall|f: Seq<char>|
                #[trigger] final(self).shown_complete(f) == (f != filename@ && old(
                    self,
                ).shown_complete(f)),
    {
        let key = chars_of(filename);
        self.last_percent = without(&self.last_percent, &key);
        self.completed = without(&self.completed, &key);
        proof {
            assert forall|f: Seq<char>| #[trigger]
                final(self).shown_complete(f) == (f != filename@ && old(self).shown_complete(
                    f,
                )) by {
                assert(lookup(self.completed@, f) == (if f == key@ {
                    None
                } else {
                    lookup(old(self).completed@, f)
                }));
            }
        }
    }

    /// Whether the percentage `percent` of `filename` is to be shown: it is
    /// unless it was shown last. A file of which nothing was shown counts
    /// as shown at -1. Either way `percent` is what was shown last from now
    /// on.
    pub fn should_print(&mut self, filename: &str, percent: i32) -> (r: bool)
        ensures
            r == (percent != (match old(self).shown_percent(filename@) {
                Some(p) => p,
                None => -1i32,
            })),
            forall|f: Seq<char>|
                #[trigger] final(self).shown_percent(f) == (if f == filename@ {
                    Some(percent)
                } else {
                    old(self).shown_percent(f)
                }),
            forall|f: Seq<char>|
                #[trigger] final(self).shown_complete(f) == old(self).shown_complete(f),
    {
        let key = chars_of(filename);
        let last = match find(&self.last_percent, &key) {
            Some(p) => p,
            None => -1,
        };
        let mut rest = without(&self.last_percent, &key);
        let ghost before = rest@;
        let item = (text(filename), percent);
        rest.push(item);
        proof {
            assert(rest@.drop_last() =~= before);
            assert(rest@.last() == item);
            assert forall|f: Seq<char>| #[trigger]
                lookup(rest@, f) == (if f == filename@ {
                    Some(percent)
                } else {
                    lookup(old(self).last_percent@, f)
                }) by {
                assert(lookup(before, f) == (if f == key@ {
                    None
                } else {
                    lookup(old(self).last_percent@, f)
                }));
            }
        }
        self.last_percent = rest;
        last != percent
    }

    /// Whether the completion of `filename` is to be shown: it is unless it
    /// was shown already. Either way it counts as shown from now on.
    pub fn note_complete(&mut self, filename: &str) -> (r: bool)
        ensures
            r == !old(self).shown_complete(filename@),
            forall|f: Seq<char>|
                #[trigger] final(self).shown_complete(f) == (f == filename@ || old(
                    self,
                ).shown_complete(f)),
            forall|f: Seq<char>|
                #[trigger] final(self).shown_percent(f) == old(self).shown_percent(f),
    {
        let key = chars_of(filename);
        let was = match find(&self.completed, &key) {
            Some(b) => b,
            None => false,
        };
        let mut rest = without(&self.completed, &key);
        let ghost before = rest@;
        let item = (text(filename), true);
        rest.push(item);
        proof {
            assert(rest@.drop_last() =~= before);
            assert(rest@.last() == item);
            assert forall|f: Seq<char>| #[trigger]
                lookup(rest@, f) == (if f == filename@ {
                    Some(true)
                } else {
                    lookup(old(self).completed@, f)
                }) by {
                assert(lookup(before, f) == (if f == key@ {
                    None
                } else {
                    lookup(old(self).completed@, f)
                }));
            }
            assert forall|f: Seq<char>| #[trigger]
                lookup(rest@, f) == Some(true) <==> (f == filename@ || lookup(
                    old(self).completed@,
                    f,
                ) == Some(true)) by {
                assert(lookup(rest@, f) == (if f == filename@ {
                    Some(true)
                } else {
                    lookup(old(self).completed@, f)
                }));
            }
        }
        self.completed = rest;
        !was
    }
}

/// A step of a transaction that reports progress.
#[derive(Clone, Copy, Debug, PartialEq, Eq, Structural)]
pub enum Progress {
    AddStart,
    UpgradeStart,
    DowngradeStart,
    ReinstallStart,
    RemoveStart,
    ConflictsStart,
    DiskspaceStart,
    IntegrityStart,
    LoadStart,
    KeyringStart,
}

/// The word for a step in a progress line.
pub open spec fn progress_label_of(progress: Progress) -> Seq<char> {
    match progress {
        Progress::AddStart => "Installing"@,
        Progress::UpgradeStart => "Upgrading"@,
        Progress::DowngradeStart => "Downgrading"@,
        Progress::ReinstallStart => "Reinstalling"@,
        Progress::RemoveStart => "Removing"@,
        Progress::ConflictsStart => "Checking conflicts"@,
        Progress::DiskspaceStart => "Checking disk space"@,
        Progress::IntegrityStart => "Checking integrity"@,
        Progress::LoadStart => "Loading packages"@,
        Progress::KeyringStart => "Checking keys"@,
    }
}

/// The word for a step in a progress line.
pub fn progress_label(progress: Progress) -> (r: &'static str)
    ensures
        r@ == progress_label_of(progress),
{
    match progress {
        Progress::AddStart => "Installing",
        Progress::UpgradeStart => "Upgrading",
        Progress::DowngradeStart => "Downgrading",
        Progress::ReinstallStart => "Reinstalling",
        Progress::RemoveStart => "Removing",
        Progress::ConflictsStart => "Checking conflicts",
        Progress::DiskspaceStart => "Checking disk space",
        Progress::IntegrityStart => "Checking integrity",
        Progress::LoadStart => "Loading packages",
        Progress::KeyringStart => "Checking keys",
    }
}

/// What a progress update of a transaction says.
pub struct TransKey {
    pub progress: Progress,
    pub pkgname: String,
    pub percent: i32,
    pub current: usize,
    pub howmany: usize,
}

/// What is remembered of the progress of a transaction: the update that
/// was shown last.
pub struct TransState {
    last_key: Option<TransKey>,
}

/// Whether an update says exactly what `key` says.
pub open spec fn same_update(
    key: TransKey,
    progress: Progress,
    pkgname: Seq<char>,
    percent: i32,
    current: usize,
    howmany: usize,
) -> bool {
    key.progress == progress && key.pkgname@ == pkgname && key.percent == percent && key.current
        == current && key.howmany == howmany
}

impl TransState {
    /// The update that was shown last, if any was.
    pub closed spec fn last(&self) -> Option<TransKey> {
        self.last_key
    }

    /// Nothing was shown yet.
    pub fn new() -> (r: TransState)
        ensures
            r.last() is None,
    {
        TransState { last_key: None }
    }

    /// Whether an update is to be shown: it is unless it says exactly what
    /// the update that was shown last said. Either way it is the update
    /// that was shown last from now on.
    pub fn should_print(
        &mut self,
        progress: Progress,
        pkgname: &str,
        percent: i32,
        current: usize,
        howmany: usize,
    ) -> (r: bool)
        ensures
            r == !(old(self).last() matches Some(k) && same_update(
                k,
                progress,
                pkgname@,
                percent,
                current,
                howmany,
            )),
            final(self).last() matches Some(k) && same_update(
                k,
                progress,
                pkgname@,
                percent,
                current,
                howmany,
            ),
    {
        let same = match &self.last_key {
            Some(k) => k.progress == progress && is_text(&chars_of(pkgname), k.pkgname.as_str())
                && k.percent == percent && k.current == current && k.howmany == howmany,
            None => false,
        };
        if same {
            false
        } else {
            self.last_key = Some(
                TransKey { progress, pkgname: text(pkgname), percent, current, howmany },
            );
            true
        }
    }
}

/// `percent` kept within 0 and 100.
pub open spec fn clamped(percent: i32) -> int {
    if percent < 0 {
        0
    } else if percent > 100 {
        100
    } else {
        percent as int
    }
}

/// A bar of `width` cells between brackets, of which the share `percent`
/// of a hundred, rounded down, is filled.
pub open spec fn bar(percent: i32, width: int) -> Seq<char> {
    let filled = clamped(percent) * width / 100;
    seq!['['] + Seq::new(filled as nat, |i: int| '#') + Seq::new(
        (width - filled) as nat,
        |i: int| '.',
    ) + seq![']']
}

/// A progress bar of `width` cells.
pub fn progress_bar(percent: i32, width: usize) -> (r: String)
    requires
        width <= usize::MAX / 100,
    ensures
        r@ == bar(percent, width as int),
{
    let pct: usize = if percent < 0 {
        0
    } else if percent > 100 {
        100
    } else {
        percent as usize
    };
    proof {
        assert(pct * width <= 100 * width) by (nonlinear_arith)
            requires
                pct <= 100,
        ;
    }
    let filled: usize = pct * width / 100;
    proof {
        assert(filled <= width) by (nonlinear_arith)
            requires
                pct <= 100,
                filled == pct * width / 100,
        ;
    }
    let mut out: Vec<char> = Vec::new();
    out.push('[');
    let mut i: usize = 0;
    while i < filled
        invariant
            i <= filled,
            out@ == seq!['['] + Seq::new(i as nat, |k: int| '#'),
        decreases filled - i,
    {
        out.push('#');
        i = i + 1;
        proof {
            assert(out@ =~= seq!['['] + Seq::new(i as nat, |k: int| '#'));
        }
    }
    let mut j: usize = filled;
    while j < width
        invariant
            filled <= j <= width,
            out@ == seq!['['] + Seq::new(filled as nat, |k: int| '#') + Seq::new(
                (j - filled) as nat,
                |k: int| '.',
            ),
        decreases width - j,
    {
        out.push('.');
        j = j + 1;
        proof {
            assert(out@ =~= seq!['['] + Seq::new(filled as nat, |k: int| '#') + Seq::new(
                (j - filled) as nat,
                |k: int| '.',
            ));
        }
    }
    out.push(']');
    proof {
        assert(out@ =~= bar(percent, width as int));
    }
    string_of(&out)
}

/// The percentage of a download of which `downloaded` of `total` bytes are
/// there, rounded down; none where the total is not positive, where the
/// count is negative, or where the percentage does not fit the number type
/// of the reports.
pub open spec fn download_percent_of(downloaded: i64, total: i64) -> Option<i32> {
    if total > 0 && downloaded >= 0 && downloaded * 100 / (total as int) <= i32::MAX {
        Some((downloaded * 100 / (total as int)) as i32)
    } else {
        None
    }
}

/// The percentage of a download to report, if any.
pub fn download_percent(downloaded: i64, total: i64) -> (r: Option<i32>)
    ensures
        r == download_percent_of(downloaded, total),
{
    if total <= 0 || downloaded < 0 {
        return None;
    }
    let p: i128 = (downloaded as i128) * 100 / (total as i128);
    if p <= i32::MAX as i128 {
        Some(p as i32)
    } else {
        None
    }
}

} // verus!
