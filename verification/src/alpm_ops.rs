//! What has to hold before a transaction is opened: the package database
//! is not locked, and the keyring and the keyring packages are in place.

use vstd::prelude::*;
use vstd::string::*;
use crate::config::{ConfigModel, PacmanConfig};
use crate::history::{join_path, path_join};
use crate::text::{
    chars_of, contains_text, has_infix, has_prefix, is_text, lowered, push_chars, push_text,
    slice_chars, starts_with, string_of, to_ascii_lowercase, views,
};

verus! {

/// The index of the first character at or after `from` that is not `c`, or
/// the length of `s` when there is none.
pub open spec fn skip_char(s: Seq<char>, c: char, from: int) -> int
    decreases s.len() - from,
{
    if from < 0 || from >= s.len() {
        s.len() as int
    } else if s[from] != c {
        from
    } else {
        skip_char(s, c, from + 1)
    }
}

/// The length of `s[..upto]` once every `c` at its end is cut off.
pub open spec fn cut_char(s: Seq<char>, c: char, upto: int) -> int
    decreases upto,
{
    if upto <= 0 || upto > s.len() {
        0
    } else if s[upto - 1] != c {
        upto
    } else {
        cut_char(s, c, upto - 1)
    }
}

/// The path `rel` below the root `root`: the slashes at the start of `rel`
/// and at the end of `root` are dropped and one slash is put between.
pub open spec fn root_joined(root: Seq<char>, rel: Seq<char>) -> Seq<char> {
    let tail = rel.subrange(skip_char(rel, '/', 0), rel.len() as int);
    if root == "/"@ {
        "/"@ + tail
    } else {
        root.subrange(0, cut_char(root, '/', root.len() as int)) + "/"@ + tail
    }
}

/// The path `rel` below the root `root`.
pub fn root_join(root: &str, rel: &str) -> (r: String)
    ensures
        r@ == root_joined(root@, rel@),
{
    let rt = chars_of(root);
    let rl = chars_of(rel);
    let mut start: usize = 0;
    while start < rl.len() && rl[start] == '/'
        invariant
            start <= rl.len(),
            skip_char(rl@, '/', 0) == skip_char(rl@, '/', start as int),
        decreases rl.len() - start,
    {
        start = start + 1;
    }
    let tail = slice_chars(&rl, start, rl.len());
    let mut out: Vec<char> = if is_text(&rt, "/") {
        chars_of("/")
    } else {
        let mut end: usize = rt.len();
        while end > 0 && rt[end - 1] == '/'
            invariant
                end <= rt.len(),
                cut_char(rt@, '/', rt@.len() as int) == cut_char(rt@, '/', end as int),
            decreases end,
        {
            end = end - 1;
        }
        let mut head = slice_chars(&rt, 0, end);
        push_text(&mut head, "/");
        head
    };
    push_chars(&mut out, &tail);
    string_of(&out)
}

/// The distribution that a system says it is.
#[derive(Clone, Copy, Debug, PartialEq, Eq, Structural)]
pub enum Distro {
    Arch,
    CachyOS,
    Other,
}

/// The distribution whose keyring a transaction needs, from the text of the
/// system's `os-release` file, or from `None` when that file cannot be
/// read: CachyOS where the text names it as its identifier, Arch where the
/// text names Arch as its identifier or as its like, another otherwise.
/// Capitals count as small letters.
pub open spec fn keyring_distro_of(os_release: Option<Seq<char>>) -> Distro {
    match os_release {
        None => Distro::Other,
        Some(t) => {
            let l = lowered(t);
            if has_infix(l, "id=cachyos"@) {
                Distro::CachyOS
            } else if has_infix(l, "id=arch"@) || has_infix(l, "id_like=arch"@) {
                Distro::Arch
            } else {
                Distro::Other
            }
        },
    }
}

/// The distribution whose keyring a transaction needs.
pub fn detect_distro(os_release: Option<&str>) -> (r: Distro)
    ensures
        r == keyring_distro_of(
            match os_release {
                Some(t) => Some(t@),
                None => None,
            },
        ),
{
    match os_release {
        None => Distro::Other,
        Some(t) => {
            let l = to_ascii_lowercase(&chars_of(t));
            if contains_text(&l, "id=cachyos") {
                Distro::CachyOS
            } else if contains_text(&l, "id=arch") || contains_text(&l, "id_like=arch") {
                Distro::Arch
            } else {
                Distro::Other
            }
        },
    }
}

/// Whether one of the names begins with `prefix`.
pub open spec fn any_with_prefix(names: Seq<Seq<char>>, prefix: Seq<char>) -> bool {
    exists|i: int| 0 <= i < names.len() && has_prefix(#[trigger] names[i], prefix)
}

/// Whether the local package database, whose entries are `entries`, holds a
/// package whose directory name begins with `prefix`.
pub fn has_local_pkg_dir(entries: &Vec<String>, prefix: &str) -> (r: bool)
    ensures
        r == any_with_prefix(views(entries@), prefix@),
{
    let ghost model = views(entries@);
    let p = chars_of(prefix);
    let mut i: usize = 0;
    while i < entries.len()
        invariant
            i <= entries.len(),
            model == views(entries@),
            p@ == prefix@,
            forall|j: int| 0 <= j < i ==> !has_prefix(#[trigger] model[j], prefix@),
        decreases entries.len() - i,
    {
        if starts_with(&chars_of(entries[i].as_str()), &p) {
            proof {
                assert(has_prefix(model[i as int], prefix@));
            }
            return true;
        }
        i = i + 1;
    }
    false
}

/// The places that the checks before a transaction look at.
#[derive(Clone, Debug, PartialEq, Eq)]
pub struct PreflightPaths {
    /// The lock file of the package database.
    pub lock: String,
    /// The directory of the keyring.
    pub gpg_dir: String,
    pub pubring_kbx: String,
    pub pubring_gpg: String,
    pub trustdb: String,
    /// The file in which the system says which distribution it is.
    pub os_release: String,
    /// The directory of the local package database.
    pub local_db: String,
}

/// The keyring directory in force, before it is put below the root.
pub open spec fn gpg_dir_of(c: ConfigModel) -> Seq<char> {
    match c.gpg_dir {
        Some(d) => d,
        None => "/etc/pacman.d/gnupg"@,
    }
}

/// The lock file of the package database.
pub open spec fn lock_path_of(c: ConfigModel) -> Seq<char> {
    path_join(c.db_path, "db.lck"@)
}

/// The keyring directory below the root.
pub open spec fn gpg_path_of(c: ConfigModel) -> Seq<char> {
    root_joined(c.root_dir, gpg_dir_of(c))
}

/// The lock file of the package database.
pub fn lock_path(config: &PacmanConfig) -> (r: String)
    ensures
        r@ == lock_path_of(config@),
{
    string_of(&join_path(&chars_of(config.db_path.as_str()), &chars_of("db.lck")))
}

/// `name` in the directory `dir`.
fn file_in(dir: &str, name: &str) -> (r: String)
    ensures
        r@ == path_join(dir@, name@),
{
    string_of(&join_path(&chars_of(dir), &chars_of(name)))
}

/// The places that the checks before a transaction look at.
pub fn preflight_paths(config: &PacmanConfig) -> (r: PreflightPaths)
    ensures
        r.lock@ == lock_path_of(config@),
        r.gpg_dir@ == gpg_path_of(config@),
        r.pubring_kbx@ == path_join(gpg_path_of(config@), "pubring.kbx"@),
        r.pubring_gpg@ == path_join(gpg_path_of(config@), "pubring.gpg"@),
        r.trustdb@ == path_join(gpg_path_of(config@), "trustdb.gpg"@),
        r.os_release@ == root_joined(config@.root_dir, "/etc/os-release"@),
        r.local_db@ == path_join(config@.db_path, "local"@),
{
    let gpg_dir = match &config.gpg_dir {
        Some(d) => root_join(config.root_dir.as_str(), d.as_str()),
        None => root_join(config.root_dir.as_str(), "/etc/pacman.d/gnupg"),
    };
    PreflightPaths {
        lock: lock_path(config),
        pubring_kbx: file_in(gpg_dir.as_str(), "pubring.kbx"),
        pubring_gpg: file_in(gpg_dir.as_str(), "pubring.gpg"),
        trustdb: file_in(gpg_dir.as_str(), "trustdb.gpg"),
        gpg_dir,
        os_release: root_join(config.root_dir.as_str(), "/etc/os-release"),
        local_db: file_in(config.db_path.as_str(), "local"),
    }
}

/// What was found at the places that the checks look at.
#[derive(Clone, Debug, PartialEq, Eq)]
pub struct PreflightFacts {
    pub lock_exists: bool,
    pub gpg_dir_exists: bool,
    pub pubring_kbx_exists: bool,
    pub pubring_gpg_exists: bool,
    pub trustdb_exists: bool,
    /// The text of the `os-release` file, if it could be read.
    pub os_release: Option<String>,
    /// The names of the entries of the local package database, none when
    /// its directory could not be read.
    pub local_entries: Vec<String>,
}

/// Why a transaction must not be opened.
#[derive(Clone, Copy, Debug, PartialEq, Eq, Structural)]
pub enum PreflightErrorKind {
    /// The package database is locked.
    DatabaseLocked,
    /// The keyring directory is missing.
    KeyringDirMissing,
    /// The keyring holds no public keyring file.
    NoPublicKeyring,
    /// The keyring holds no trust database.
    TrustDbMissing,
    /// The keyring package of Arch is not installed.
    ArchKeyringMissing,
    /// The keyring package of CachyOS is not installed.
    CachyKeyringMissing,
}

/// A failed check, with the path that it is about (empty where it is about
/// none).
#[derive(Clone, Debug, PartialEq, Eq)]
pub struct PreflightError {
    pub kind: PreflightErrorKind,
    pub path: String,
}

/// The message of a failed check.
pub open spec fn preflight_message(kind: PreflightErrorKind, path: Seq<char>) -> Seq<char> {
    match kind {
        PreflightErrorKind::DatabaseLocked => "database is locked (found "@ + path + ")"@,
        PreflightErrorKind::KeyringDirMissing => "keyring directory missing at "@ + path
            + " (run pacman-key --init and repopulate keyrings)"@,
        PreflightErrorKind::NoPublicKeyring => "no keyring public keyring file in "@ + path
            + " (expected pubring.kbx or pubring.gpg)"@,
        PreflightErrorKind::TrustDbMissing => "keyring trustdb missing at "@ + path,
        PreflightErrorKind::ArchKeyringMissing => "archlinux-keyring is not installed in the local package database"@,
        PreflightErrorKind::CachyKeyringMissing => "cachyos-keyring is not installed in the local package database"@,
    }
}

impl PreflightError {
    /// The message that reports this failure to the user.
    pub fn message(&self) -> (r: String)
        ensures
            r@ == preflight_message(self.kind, self.path@),
    {
        let mut out: Vec<char> = Vec::new();
        match self.kind {
            PreflightErrorKind::DatabaseLocked => {
                push_text(&mut out, "database is locked (found ");
                push_text(&mut out, self.path.as_str());
                push_text(&mut out, ")");
            },
            PreflightErrorKind::KeyringDirMissing => {
                push_text(&mut out, "keyring directory missing at ");
                push_text(&mut out, self.path.as_str());
                push_text(&mut out, " (run pacman-key --init and repopulate keyrings)");
            },
            PreflightErrorKind::NoPublicKeyring => {
                push_text(&mut out, "no keyring public keyring file in ");
                push_text(&mut out, self.path.as_str());
                push_text(&mut out, " (expected pubring.kbx or pubring.gpg)");
            },
            PreflightErrorKind::TrustDbMissing => {
                push_text(&mut out, "keyring trustdb missing at ");
                push_text(&mut out, self.path.as_str());
            },
            PreflightErrorKind::ArchKeyringMissing => {
                push_text(
                    &mut out,
                    "archlinux-keyring is not installed in the local package database",
                );
            },
            PreflightErrorKind::CachyKeyringMissing => {
                push_text(
                    &mut out,
                    "cachyos-keyring is not installed in the local package database",
                );
            },
        }
        proof {
            assert(out@ =~= preflight_message(self.kind, self.path@));
        }
        string_of(&out)
    }
}

/// The view of an optional string.
pub open spec fn text_view(s: Option<String>) -> Option<Seq<char>> {
    match s {
        Some(v) => Some(v@),
        None => None,
    }
}

/// The first check that fails, with the path it is about, if any does: the
/// lock of the database, the keyring directory, a public keyring file in
/// it, its trust database, the keyring package of Arch, and on CachyOS its
/// own keyring package.
pub open spec fn preflight_failure(c: ConfigModel, f: PreflightFacts) -> Option<
    (PreflightErrorKind, Seq<char>),
> {
    let gpg = gpg_path_of(c);
    let entries = views(f.local_entries@);
    if f.lock_exists {
        Some((PreflightErrorKind::DatabaseLocked, lock_path_of(c)))
    } else if !f.gpg_dir_exists {
        Some((PreflightErrorKind::KeyringDirMissing, gpg))
    } else if !f.pubring_kbx_exists && !f.pubring_gpg_exists {
        Some((PreflightErrorKind::NoPublicKeyring, gpg))
    } else if !f.trustdb_exists {
        Some((PreflightErrorKind::TrustDbMissing, path_join(gpg, "trustdb.gpg"@)))
    } else if !any_with_prefix(entries, "archlinux-keyring-"@) {
        Some((PreflightErrorKind::ArchKeyringMissing, Seq::empty()))
    } else if keyring_distro_of(text_view(f.os_release)) == Distro::CachyOS && !any_with_prefix(
        entries,
        "cachyos-keyring-"@,
    ) {
        Some((PreflightErrorKind::CachyKeyringMissing, Seq::empty()))
    } else {
        None
    }
}

/// Refuses to go on when the package database is locked. The lock is never
/// removed here.
pub fn ensure_db_unlocked(config: &PacmanConfig, lock_exists: bool) -> (r: Result<
    (),
    PreflightError,
>)
    ensures
        r is Err <==> lock_exists,
        r matches Err(e) ==> e.kind == PreflightErrorKind::DatabaseLocked && e.path@
            == lock_path_of(config@),
{
    if lock_exists {
        Err(PreflightError { kind: PreflightErrorKind::DatabaseLocked, path: lock_path(config) })
    } else {
        Ok(())
    }
}

/// The checks before a transaction that installs: the package database
/// must not be locked, and the keyring and the keyring packages must be
/// there.
pub fn preflight_transaction(config: &PacmanConfig, facts: &PreflightFacts) -> (r: Result<
    (),
    PreflightError,
>)
    ensures
        match preflight_failure(config@, *facts) {
            None => r is Ok,
            Some((kind, path)) => r matches Err(e) && e.kind == kind && e.path@ == path,
        },
{
    match ensure_db_unlocked(config, facts.lock_exists) {
        Err(e) => {
            return Err(e);
        },
        Ok(()) => {},
    }
    let paths = preflight_paths(config);
    if !facts.gpg_dir_exists {
        return Err(
            PreflightError { kind: PreflightErrorKind::KeyringDirMissing, path: paths.gpg_dir },
        );
    }
    if !facts.pubring_kbx_exists && !facts.pubring_gpg_exists {
        return Err(PreflightError { kind: PreflightErrorKind::NoPublicKeyring, path: paths.gpg_dir });
    }
    if !facts.trustdb_exists {
        return Err(PreflightError { kind: PreflightErrorKind::TrustDbMissing, path: paths.trustdb });
    }
    let distro = match &facts.os_release {
        Some(t) => detect_distro(Some(t.as_str())),
        None => detect_distro(None),
    };
    if !has_local_pkg_dir(&facts.local_entries, "archlinux-keyring-") {
        return Err(
            PreflightError { kind: PreflightErrorKind::ArchKeyringMissing, path: String::new() },
        );
    }
    let is_cachy = match distro {
        Distro::CachyOS => true,
        _ => false,
    };
    if is_cachy && !has_local_pkg_dir(&facts.local_entries, "cachyos-keyring-") {
        return Err(
            PreflightError { kind: PreflightErrorKind::CachyKeyringMissing, path: String::new() },
        );
    }
    Ok(())
}

} // verus!
