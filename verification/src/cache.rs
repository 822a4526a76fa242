//! Cleaning the package cache: which cached package files are stale.

use vstd::prelude::*;
use vstd::string::*;
use crate::number::{decimal, decimal_text};
use crate::text::{
    chars_of, contains_text, find_from, find_last, find_text, has_infix, is_text, last_index_of,
    push_chars, push_text, slice_chars, string_of, text, views,
};

verus! {

/// The part of the name of a package file that stands before `.pkg.tar`.
pub open spec fn stem(file_name: Seq<char>) -> Seq<char> {
    file_name.subrange(0, find_from(file_name, ".pkg.tar"@, 0))
}

/// The package name and the version that the name of a package file
/// gives. The part before `.pkg.tar` is cut at its last three hyphens into
/// name, version, release and architecture; the version of the package is
/// version and release with a hyphen between them. A name with fewer
/// hyphens, or with an empty part, gives nothing.
pub open spec fn package_of_file(file_name: Seq<char>) -> Option<(Seq<char>, Seq<char>)> {
    let base = stem(file_name);
    let d3 = last_index_of(base, '-', base.len() as int);
    let d2 = last_index_of(base, '-', d3);
    let d1 = last_index_of(base, '-', d2);
    if d3 < 0 || d2 < 0 || d1 < 0 {
        None
    } else {
        let arch = base.subrange(d3 + 1, base.len() as int);
        let rel = base.subrange(d2 + 1, d3);
        let ver = base.subrange(d1 + 1, d2);
        let name = base.subrange(0, d1);
        if arch.len() == 0 || rel.len() == 0 || ver.len() == 0 || name.len() == 0 {
            None
        } else {
            Some((name, ver + "-"@ + rel))
        }
    }
}

/// The view of an optional pair of strings.
pub open spec fn pair_view(p: Option<(String, String)>) -> Option<(Seq<char>, Seq<char>)> {
    match p {
        Some((a, b)) => Some((a@, b@)),
        None => None,
    }
}

/// The package name and the version that the name of a package file gives.
pub fn parse_pkg_filename(file_name: &str) -> (r: Option<(String, String)>)
    ensures
        pair_view(r) == package_of_file(file_name@),
{
    let f = chars_of(file_name);
    let end = find_text(&f, &chars_of(".pkg.tar"));
    let base = slice_chars(&f, 0, end);
    let d3 = match find_last(&base, '-', base.len()) {
        Some(k) => k,
        None => {
            return None;
        },
    };
    let d2 = match find_last(&base, '-', d3) {
        Some(k) => k,
        None => {
            return None;
        },
    };
    let d1 = match find_last(&base, '-', d2) {
        Some(k) => k,
        None => {
            return None;
        },
    };
    let arch = slice_chars(&base, d3 + 1, base.len());
    let rel = slice_chars(&base, d2 + 1, d3);
    let ver = slice_chars(&base, d1 + 1, d2);
    let name = slice_chars(&base, 0, d1);
    if arch.len() == 0 || rel.len() == 0 || ver.len() == 0 || name.len() == 0 {
        return None;
    }
    let mut version = ver;
    push_text(&mut version, "-");
    push_chars(&mut version, &rel);
    Some((string_of(&name), string_of(&version)))
}

/// An installed package: its name and its version.
#[derive(Clone, Debug, PartialEq, Eq)]
pub struct InstalledVersion {
    pub name: String,
    pub version: String,
}

/// The version of the first package at or after index `i` that is named
/// `name`, if there is one.
pub open spec fn installed_version(installed: Seq<InstalledVersion>, name: Seq<char>, i: int) -> Option<
    Seq<char>,
>
    decreases installed.len() - i,
{
    if i < 0 || i >= installed.len() {
        None
    } else if installed[i].name@ == name {
        Some(installed[i].version@)
    } else {
        installed_version(installed, name, i + 1)
    }
}

/// Whether a file of the cache is to be removed. Only package files are:
/// all of them at level 2 and above; below that, those of a package that is
/// not installed or is installed in another version. A package file whose
/// name gives no package and version is kept.
pub open spec fn stale(level: u8, file_name: Seq<char>, installed: Seq<InstalledVersion>) -> bool {
    has_infix(file_name, ".pkg.tar"@) && (level >= 2 || (match package_of_file(file_name) {
        Some((name, version)) => installed_version(installed, name, 0) != Some(version),
        None => false,
    }))
}

/// The stale files among those from index `i` on.
pub open spec fn stale_from(
    level: u8,
    files: Seq<Seq<char>>,
    installed: Seq<InstalledVersion>,
    i: int,
) -> Seq<Seq<char>>
    decreases files.len() - i,
{
    if i < 0 || i >= files.len() {
        Seq::empty()
    } else if stale(level, files[i], installed) {
        seq![files[i]] + stale_from(level, files, installed, i + 1)
    } else {
        stale_from(level, files, installed, i + 1)
    }
}

/// What is said once the cache is cleaned.
pub open spec fn cleaning_message(removed: nat) -> Seq<char> {
    if removed > 0 {
        ":: Cache cleaned: "@ + decimal_text(removed) + " files removed"@
    } else {
        ":: Cache is clean"@
    }
}

/// The outcome of cleaning the cache: the files to remove and what to say.
#[derive(Clone, Debug, PartialEq, Eq)]
pub struct CacheCleaning {
    pub stale: Vec<String>,
    pub message: String,
}

/// Whether the installed packages hold `name` in a version other than
/// `version`, or not at all.
fn differs(installed: &Vec<InstalledVersion>, name: &Vec<char>, version: &Vec<char>) -> (r: bool)
    ensures
        r == (installed_version(installed@, name@, 0) != Some(version@)),
{
    let mut i: usize = 0;
    while i < installed.len()
        invariant
            i <= installed.len(),
            installed_version(installed@, name@, 0) == installed_version(
                installed@,
                name@,
                i as int,
            ),
        decreases installed.len() - i,
    {
        if is_text(name, installed[i].name.as_str()) {
            return !is_text(version, installed[i].version.as_str());
        }
        i = i + 1;
    }
    true
}

/// Whether a file of the cache is to be removed.
pub fn is_stale(level: u8, file_name: &str, installed: &Vec<InstalledVersion>) -> (r: bool)
    ensures
        r == stale(level, file_name@, installed@),
{
    if !contains_text(&chars_of(file_name), ".pkg.tar") {
        return false;
    }
    if level >= 2 {
        return true;
    }
    match parse_pkg_filename(file_name) {
        Some((name, version)) => differs(
            installed,
            &chars_of(name.as_str()),
            &chars_of(version.as_str()),
        ),
        None => false,
    }
}

/// Cleans the cache: of the regular files `files` of the cache directory,
/// says which are to be removed, given the installed packages, and what to
/// tell the user.
pub fn clean_cache(level: u8, files: &Vec<String>, installed: &Vec<InstalledVersion>) -> (r:
    CacheCleaning)
    ensures
        views(r.stale@) == stale_from(level, views(files@), installed@, 0),
        r.message@ == cleaning_message(r.stale@.len()),
{
    let ghost model = views(files@);
    let mut out: Vec<String> = Vec::new();
    let mut i: usize = 0;
    proof {
        assert(views(out@) =~= Seq::<Seq<char>>::empty());
    }
    while i < files.len()
        invariant
            i <= files.len(),
            model == views(files@),
            stale_from(level, model, installed@, 0) == views(out@) + stale_from(
                level,
                model,
                installed@,
                i as int,
            ),
        decreases files.len() - i,
    {
        let ghost before = views(out@);
        proof {
            assert(model[i as int] == files@[i as int]@);
        }
        if is_stale(level, files[i].as_str(), installed) {
            let item = files[i].clone();
            out.push(item);
            proof {
                assert(views(out@) =~= before + seq![model[i as int]]);
                assert(before + (seq![model[i as int]] + stale_from(
                    level,
                    model,
                    installed@,
                    i + 1,
                )) =~= (before + seq![model[i as int]]) + stale_from(
                    level,
                    model,
                    installed@,
                    i + 1,
                ));
            }
        }
        i = i + 1;
    }
    proof {
        assert(views(out@) + Seq::<Seq<char>>::empty() =~= views(out@));
    }
    let message = if out.len() > 0 {
        let mut l = chars_of(":: Cache cleaned: ");
        push_chars(&mut l, &decimal(out.len() as u64));
        push_text(&mut l, " files removed");
        string_of(&l)
    } else {
        text(":: Cache is clean")
    };
    CacheCleaning { stale: out, message }
}

} // verus!
