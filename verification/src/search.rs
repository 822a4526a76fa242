//! The reports of the operations that only read: what is listed, in which
//! order, and with how much detail.
//!
//! The packages themselves come from the package database; here they are
//! plain values, and a report is the list of the lines to print.

use vstd::prelude::*;
use vstd::string::*;
use crate::cli::GlobalFlags;
use crate::number::{decimal, decimal_text, signed_decimal, signed_decimal_text};
use crate::text::{
    chars_of, contains_string, join, joined, push_chars, push_text, slice_chars, string_of, text,
    views,
};

verus! {

/// A package as the reports need it.
#[derive(Clone, Debug, PartialEq, Eq)]
pub struct Package {
    /// The repository that the package comes from, if it is known.
    pub repo: Option<String>,
    pub name: String,
    pub version: String,
    pub desc: Option<String>,
    pub arch: Option<String>,
    pub url: Option<String>,
    pub licenses: Vec<String>,
    pub groups: Vec<String>,
    pub depends: Vec<String>,
    pub optdepends: Vec<String>,
    /// Whether the package was installed on request, not as a dependency.
    pub explicit: bool,
    pub install_date: Option<i64>,
    pub installed_size: i64,
    pub download_size: i64,
    /// The installed packages that need this one.
    pub required_by: Vec<String>,
    /// The files that the package owns, without the leading slash.
    pub files: Vec<String>,
}

/// A name that was asked for and the installed package of that name, if
/// there is one.
#[derive(Clone, Debug, PartialEq, Eq)]
pub struct Lookup {
    pub name: String,
    pub package: Option<Package>,
}

/// The text of an optional string, or `fallback` when there is none.
pub open spec fn text_or(s: Option<String>, fallback: Seq<char>) -> Seq<char> {
    match s {
        Some(v) => v@,
        None => fallback,
    }
}

/// A list of words as one text: `None` when it is empty, else the words
/// with two spaces between them.
pub open spec fn list_text(items: Seq<Seq<char>>) -> Seq<char> {
    if items.len() == 0 {
        "None"@
    } else {
        joined(items, "  "@)
    }
}

/// A list of words as one text.
pub fn format_list(items: &Vec<String>) -> (r: String)
    ensures
        r@ == list_text(views(items@)),
{
    if items.len() == 0 {
        text("None")
    } else {
        string_of(&join(items, "  "))
    }
}

/// Which packages a list shows, and how.
#[derive(Clone, Copy, Debug, PartialEq, Eq, Structural)]
pub enum Listing {
    /// What a search of the repositories found: with repository and
    /// description.
    Repositories,
    /// What a search of the installed packages found: with description.
    Found,
    /// Every installed package.
    Installed,
    /// The installed packages that were installed on request.
    Explicit,
    /// The installed packages that no repository holds.
    Foreign,
}

/// Whether one of the repositories, given by the names of their packages,
/// holds a package named `name`.
pub open spec fn in_repositories(repos: Seq<Vec<String>>, name: Seq<char>) -> bool {
    exists|i: int| 0 <= i < repos.len() && views(#[trigger] repos[i]@).contains(name)
}

/// Whether a list shows the package `p`.
pub open spec fn selects(mode: Listing, p: Package, repos: Seq<Vec<String>>) -> bool {
    match mode {
        Listing::Explicit => p.explicit,
        Listing::Foreign => !in_repositories(repos, p.name@),
        _ => true,
    }
}

/// Whether a list shows descriptions: a search always does unless the
/// report is compact, any other list only in a verbose report.
pub open spec fn shows_description(mode: Listing, compact: bool, verbose: bool) -> bool {
    !compact && (mode == Listing::Repositories || mode == Listing::Found || verbose)
}

/// The first line of a row: the name and the version, after the repository
/// and a slash where the list shows repositories.
pub open spec fn row_head(mode: Listing, p: Package) -> Seq<char> {
    match (mode, p.repo) {
        (Listing::Repositories, Some(r)) => r@ + "/"@ + p.name@ + " "@ + p.version@,
        _ => p.name@ + " "@ + p.version@,
    }
}

/// The line of a row that a verbose report adds: architecture and size.
pub open spec fn row_detail(p: Package) -> Seq<char> {
    "    arch: "@ + text_or(p.arch, "unknown"@) + "  size: "@ + signed_decimal_text(
        p.installed_size as int,
    )
}

/// The lines of the row of one package.
pub open spec fn row_lines(mode: Listing, compact: bool, verbose: bool, p: Package) -> Seq<
    Seq<char>,
> {
    seq![row_head(mode, p)] + (match p.desc {
        Some(d) => if shows_description(mode, compact, verbose) {
            seq!["    "@ + d@]
        } else {
            Seq::<Seq<char>>::empty()
        },
        None => Seq::<Seq<char>>::empty(),
    }) + (if verbose {
        seq![row_detail(p)]
    } else {
        Seq::<Seq<char>>::empty()
    })
}

/// The rows of the packages from index `i` on that the list shows.
pub open spec fn rows_from(
    mode: Listing,
    compact: bool,
    verbose: bool,
    pkgs: Seq<Package>,
    repos: Seq<Vec<String>>,
    i: int,
) -> Seq<Seq<char>>
    decreases pkgs.len() - i,
{
    if i < 0 || i >= pkgs.len() {
        Seq::empty()
    } else if selects(mode, pkgs[i], repos) {
        row_lines(mode, compact, verbose, pkgs[i]) + rows_from(
            mode,
            compact,
            verbose,
            pkgs,
            repos,
            i + 1,
        )
    } else {
        rows_from(mode, compact, verbose, pkgs, repos, i + 1)
    }
}

/// How many of the first `upto` packages the list shows.
pub open spec fn shown_count(mode: Listing, pkgs: Seq<Package>, repos: Seq<Vec<String>>, upto: int) -> int
    decreases upto,
{
    if upto <= 0 || upto > pkgs.len() {
        0
    } else {
        shown_count(mode, pkgs, repos, upto - 1) + if selects(mode, pkgs[upto - 1], repos) {
            1int
        } else {
            0int
        }
    }
}

/// The heading of a report: none in a compact report, else the title and,
/// after a space, the detail if there is one.
pub open spec fn heading(compact: bool, title: Seq<char>, detail: Option<Seq<char>>) -> Seq<
    Seq<char>,
> {
    if compact {
        Seq::empty()
    } else {
        match detail {
            Some(d) => seq![title + " "@ + d],
            None => seq![title],
        }
    }
}

/// The closing lines that give the number of matches: none in a compact
/// report, else an empty line and the count.
pub open spec fn match_count(compact: bool, count: int) -> Seq<Seq<char>> {
    if compact {
        Seq::empty()
    } else {
        seq![""@, "Matches: "@ + decimal_text(count as nat)]
    }
}

/// The line that says that nothing was found.
pub open spec fn no_results() -> Seq<Seq<char>> {
    seq!["No results found"@]
}

/// Whether `mode` is the search of the repositories.
fn is_repositories(mode: Listing) -> (r: bool)
    ensures
        r == (mode == Listing::Repositories),
{
    mode == Listing::Repositories
}

/// Whether `mode` is a search.
fn is_search(mode: Listing) -> (r: bool)
    ensures
        r == (mode == Listing::Repositories || mode == Listing::Found),
{
    mode == Listing::Repositories || mode == Listing::Found
}

/// Appends the lines of `more` to `out`.
fn push_lines(out: &mut Vec<String>, more: Vec<String>)
    ensures
        views(final(out)@) == views(old(out)@) + views(more@),
{
    let mut i: usize = 0;
    proof {
        assert(views(out@) =~= views(old(out)@) + views(more@.subrange(0, 0)));
    }
    while i < more.len()
        invariant
            i <= more.len(),
            views(out@) == views(old(out)@) + views(more@.subrange(0, i as int)),
        decreases more.len() - i,
    {
        let ghost before = views(out@);
        let item = more[i].clone();
        out.push(item);
        i = i + 1;
        proof {
            assert(views(more@.subrange(0, i as int)) =~= views(more@.subrange(0, i - 1)).push(
                more@[i - 1]@,
            ));
            assert(views(out@) =~= before.push(item@));
            assert(views(out@) =~= views(old(out)@) + views(more@.subrange(0, i as int)));
        }
    }
    proof {
        assert(more@.subrange(0, i as int) =~= more@);
    }
}

/// Appends one line to `out`.
fn push_line(out: &mut Vec<String>, line: String)
    ensures
        views(final(out)@) == views(old(out)@) + seq![line@],
{
    out.push(line);
    proof {
        assert(views(out@) =~= views(old(out)@) + seq![line@]);
    }
}

/// The lines of the row of one package.
fn row_of(mode: Listing, compact: bool, verbose: bool, p: &Package) -> (r: Vec<String>)
    ensures
        views(r@) == row_lines(mode, compact, verbose, *p),
{
    let mut out: Vec<String> = Vec::new();
    let mut head: Vec<char> = Vec::new();
    if is_repositories(mode) {
        match &p.repo {
            Some(r) => {
                push_text(&mut head, r.as_str());
                push_text(&mut head, "/");
            },
            None => {},
        }
    }
    push_text(&mut head, p.name.as_str());
    push_text(&mut head, " ");
    push_text(&mut head, p.version.as_str());
    proof {
        assert(head@ =~= row_head(mode, *p));
    }
    out.push(string_of(&head));
    match &p.desc {
        Some(d) => {
            if !compact && (is_search(mode) || verbose) {
                let mut l = chars_of("    ");
                push_text(&mut l, d.as_str());
                out.push(string_of(&l));
            }
        },
        None => {},
    }
    if verbose {
        let mut l = chars_of("    arch: ");
        match &p.arch {
            Some(a) => push_text(&mut l, a.as_str()),
            None => push_text(&mut l, "unknown"),
        }
        push_text(&mut l, "  size: ");
        push_chars(&mut l, &signed_decimal(p.installed_size));
        out.push(string_of(&l));
    }
    proof {
        assert(views(out@) =~= row_lines(mode, compact, verbose, *p));
    }
    out
}

/// Whether one of the repositories holds a package named `name`.
fn held_by_repositories(repos: &Vec<Vec<String>>, name: &Vec<char>) -> (r: bool)
    ensures
        r == in_repositories(repos@, name@),
{
    let mut i: usize = 0;
    while i < repos.len()
        invariant
            i <= repos.len(),
            forall|j: int| 0 <= j < i ==> !views(#[trigger] repos@[j]@).contains(name@),
        decreases repos.len() - i,
    {
        if contains_string(&repos[i], name) {
            return true;
        }
        i = i + 1;
    }
    false
}

/// Whether a list shows the package `p`.
fn is_selected(mode: Listing, p: &Package, repos: &Vec<Vec<String>>) -> (r: bool)
    ensures
        r == selects(mode, *p, repos@),
{
    match mode {
        Listing::Explicit => p.explicit,
        Listing::Foreign => !held_by_repositories(repos, &chars_of(p.name.as_str())),
        _ => true,
    }
}

/// Appends the rows of the packages that the list shows, and tells how
/// many these are.
fn push_rows(
    out: &mut Vec<String>,
    mode: Listing,
    compact: bool,
    verbose: bool,
    pkgs: &Vec<Package>,
    repos: &Vec<Vec<String>>,
) -> (count: usize)
    ensures
        views(final(out)@) == views(old(out)@) + rows_from(mode, compact, verbose, pkgs@, repos@, 0),
        count == shown_count(mode, pkgs@, repos@, pkgs@.len() as int),
{
    let mut count: usize = 0;
    let mut i: usize = 0;
    while i < pkgs.len()
        invariant
            i <= pkgs.len(),
            0 <= count <= i,
            count == shown_count(mode, pkgs@, repos@, i as int),
            views(old(out)@) + rows_from(mode, compact, verbose, pkgs@, repos@, 0) == views(out@)
                + rows_from(mode, compact, verbose, pkgs@, repos@, i as int),
        decreases pkgs.len() - i,
    {
        let ghost before = views(out@);
        if is_selected(mode, &pkgs[i], repos) {
            let row = row_of(mode, compact, verbose, &pkgs[i]);
            push_lines(out, row);
            count = count + 1;
            proof {
                assert(before + (views(row@) + rows_from(
                    mode,
                    compact,
                    verbose,
                    pkgs@,
                    repos@,
                    i + 1,
                )) =~= (before + views(row@)) + rows_from(
                    mode,
                    compact,
                    verbose,
                    pkgs@,
                    repos@,
                    i + 1,
                ));
            }
        }
        i = i + 1;
    }
    proof {
        assert(views(out@) + Seq::<Seq<char>>::empty() =~= views(out@));
    }
    count
}

/// Appends the heading of a report.
fn push_heading(out: &mut Vec<String>, compact: bool, title: &str, detail: Option<&Vec<char>>)
    ensures
        views(final(out)@) == views(old(out)@) + heading(
            compact,
            title@,
            match detail {
                Some(d) => Some(d@),
                None => None,
            },
        ),
{
    if compact {
        proof {
            assert(views(out@) + Seq::<Seq<char>>::empty() =~= views(out@));
        }
        return ;
    }
    let mut l = chars_of(title);
    match detail {
        Some(d) => {
            push_text(&mut l, " ");
            push_chars(&mut l, d);
        },
        None => {},
    }
    push_line(out, string_of(&l));
}

/// Appends the closing lines of a report that found something.
fn push_match_count(out: &mut Vec<String>, compact: bool, count: usize)
    ensures
        views(final(out)@) == views(old(out)@) + match_count(compact, count as int),
{
    if compact {
        proof {
            assert(views(out@) + Seq::<Seq<char>>::empty() =~= views(out@));
        }
        return ;
    }
    let ghost before = views(out@);
    push_line(out, text(""));
    let mut l = chars_of("Matches: ");
    push_chars(&mut l, &decimal(count as u64));
    push_line(out, string_of(&l));
    proof {
        assert(views(out@) =~= before + match_count(compact, count as int));
    }
}

/// The closing lines of a list of `count` matches: the count, or the word
/// that nothing was found.
pub open spec fn closing(compact: bool, count: int) -> Seq<Seq<char>> {
    if count == 0 {
        no_results()
    } else {
        match_count(compact, count)
    }
}

/// Appends the closing lines of a list.
fn push_closing(out: &mut Vec<String>, compact: bool, count: usize)
    ensures
        views(final(out)@) == views(old(out)@) + closing(compact, count as int),
{
    if count == 0 {
        push_line(out, text("No results found"));
    } else {
        push_match_count(out, compact, count);
    }
}

/// What a search of the repositories prints: a heading with the search
/// terms, a row for each package found, repository first, and the number
/// of matches, or the word that nothing was found.
pub open spec fn repository_search_report(
    compact: bool,
    verbose: bool,
    queries: Seq<Seq<char>>,
    found: Seq<Package>,
) -> Seq<Seq<char>> {
    heading(compact, "Searching repositories for:"@, Some(joined(queries, " "@))) + rows_from(
        Listing::Repositories,
        compact,
        verbose,
        found,
        Seq::empty(),
        0,
    ) + closing(compact, found.len() as int)
}

/// Every package is shown by a list that selects all.
pub proof fn lemma_all_shown(mode: Listing, pkgs: Seq<Package>, repos: Seq<Vec<String>>, upto: int)
    requires
        mode != Listing::Explicit,
        mode != Listing::Foreign,
        0 <= upto <= pkgs.len(),
    ensures
        shown_count(mode, pkgs, repos, upto) == upto,
    decreases upto,
{
    if upto > 0 {
        lemma_all_shown(mode, pkgs, repos, upto - 1);
    }
}

/// The report of a search of the repositories for `queries`, which found
/// the packages `found`, in the order of the repositories.
pub fn search_repos(global: &GlobalFlags, queries: &Vec<String>, found: &Vec<Package>) -> (r: Vec<
    String,
>)
    ensures
        views(r@) == repository_search_report(
            global.compact,
            global.verbose,
            views(queries@),
            found@,
        ),
{
    let mut out: Vec<String> = Vec::new();
    let none: Vec<Vec<String>> = Vec::new();
    let q = join(queries, " ");
    push_heading(&mut out, global.compact, "Searching repositories for:", Some(&q));
    let count = push_rows(
        &mut out,
        Listing::Repositories,
        global.compact,
        global.verbose,
        found,
        &none,
    );
    proof {
        lemma_all_shown(Listing::Repositories, found@, none@, found@.len() as int);
        assert(none@ =~= Seq::<Vec<String>>::empty());
    }
    push_closing(&mut out, global.compact, count);
    proof {
        assert(views(out@) =~= repository_search_report(
            global.compact,
            global.verbose,
            views(queries@),
            found@,
        ));
    }
    out
}

/// What the list of the installed packages prints: a heading, a row for
/// each package, and their number.
pub open spec fn installed_report(compact: bool, verbose: bool, pkgs: Seq<Package>) -> Seq<
    Seq<char>,
> {
    heading(compact, "Installed packages"@, None) + rows_from(
        Listing::Installed,
        compact,
        verbose,
        pkgs,
        Seq::empty(),
        0,
    ) + match_count(compact, pkgs.len() as int)
}

/// The list of the installed packages.
pub fn list_installed(global: &GlobalFlags, pkgs: &Vec<Package>) -> (r: Vec<String>)
    ensures
        views(r@) == installed_report(global.compact, global.verbose, pkgs@),
{
    let mut out: Vec<String> = Vec::new();
    let none: Vec<Vec<String>> = Vec::new();
    push_heading(&mut out, global.compact, "Installed packages", None);
    let count = push_rows(
        &mut out,
        Listing::Installed,
        global.compact,
        global.verbose,
        pkgs,
        &none,
    );
    proof {
        lemma_all_shown(Listing::Installed, pkgs@, none@, pkgs@.len() as int);
        assert(none@ =~= Seq::<Vec<String>>::empty());
    }
    push_match_count(&mut out, global.compact, count);
    proof {
        assert(views(out@) =~= installed_report(global.compact, global.verbose, pkgs@));
    }
    out
}

/// What a search of the installed packages prints: the word that nothing
/// was found and nothing else, or a heading with the search terms, a row
/// for each package found and their number.
pub open spec fn installed_search_report(
    compact: bool,
    verbose: bool,
    queries: Seq<Seq<char>>,
    found: Seq<Package>,
) -> Seq<Seq<char>> {
    if found.len() == 0 {
        no_results()
    } else {
        heading(compact, "Searching installed packages for:"@, Some(joined(queries, " "@)))
            + rows_from(Listing::Found, compact, verbose, found, Seq::empty(), 0) + match_count(
            compact,
            found.len() as int,
        )
    }
}

/// The report of a search of the installed packages for `queries`, which
/// found the packages `found`.
pub fn search_installed(global: &GlobalFlags, queries: &Vec<String>, found: &Vec<Package>) -> (r:
    Vec<String>)
    ensures
        views(r@) == installed_search_report(
            global.compact,
            global.verbose,
            views(queries@),
            found@,
        ),
{
    let mut out: Vec<String> = Vec::new();
    if found.len() == 0 {
        push_line(&mut out, text("No results found"));
        proof {
            assert(views(out@) =~= no_results());
        }
        return out;
    }
    let none: Vec<Vec<String>> = Vec::new();
    let q = join(queries, " ");
    push_heading(&mut out, global.compact, "Searching installed packages for:", Some(&q));
    let count = push_rows(&mut out, Listing::Found, global.compact, global.verbose, found, &none);
    proof {
        lemma_all_shown(Listing::Found, found@, none@, found@.len() as int);
        assert(none@ =~= Seq::<Vec<String>>::empty());
    }
    push_match_count(&mut out, global.compact, count);
    proof {
        assert(views(out@) =~= installed_search_report(
            global.compact,
            global.verbose,
            views(queries@),
            found@,
        ));
    }
    out
}

/// What the list of the foreign packages prints: a heading, a row for each
/// installed package that none of the repositories holds, and their
/// number, or the word that nothing was found.
pub open spec fn foreign_report(
    compact: bool,
    verbose: bool,
    pkgs: Seq<Package>,
    repos: Seq<Vec<String>>,
) -> Seq<Seq<char>> {
    heading(compact, "Foreign packages"@, None) + rows_from(
        Listing::Foreign,
        compact,
        verbose,
        pkgs,
        repos,
        0,
    ) + closing(compact, shown_count(Listing::Foreign, pkgs, repos, pkgs.len() as int))
}

/// The list of the installed packages that no repository holds. `repos`
/// gives, for each repository, the names of its packages.
pub fn list_manual_packages(global: &GlobalFlags, pkgs: &Vec<Package>, repos: &Vec<Vec<String>>) -> (r:
    Vec<String>)
    ensures
        views(r@) == foreign_report(global.compact, global.verbose, pkgs@, repos@),
{
    let mut out: Vec<String> = Vec::new();
    push_heading(&mut out, global.compact, "Foreign packages", None);
    let count = push_rows(&mut out, Listing::Foreign, global.compact, global.verbose, pkgs, repos);
    push_closing(&mut out, global.compact, count);
    proof {
        assert(views(out@) =~= foreign_report(global.compact, global.verbose, pkgs@, repos@));
    }
    out
}

/// What the list of the explicitly installed packages prints: a heading, a
/// row for each installed package that was installed on request and for no
/// other, and their number, or the word that nothing was found.
pub open spec fn explicit_report(compact: bool, verbose: bool, pkgs: Seq<Package>) -> Seq<
    Seq<char>,
> {
    heading(compact, "Explicitly installed packages"@, None) + rows_from(
        Listing::Explicit,
        compact,
        verbose,
        pkgs,
        Seq::empty(),
        0,
    ) + closing(compact, shown_count(Listing::Explicit, pkgs, Seq::empty(), pkgs.len() as int))
}

/// The list of the installed packages that were installed on request.
pub fn list_explicit_packages(global: &GlobalFlags, pkgs: &Vec<Package>) -> (r: Vec<String>)
    ensures
        views(r@) == explicit_report(global.compact, global.verbose, pkgs@),
{
    let mut out: Vec<String> = Vec::new();
    let none: Vec<Vec<String>> = Vec::new();
    proof {
        assert(none@ =~= Seq::<Vec<String>>::empty());
    }
    push_heading(&mut out, global.compact, "Explicitly installed packages", None);
    let count = push_rows(&mut out, Listing::Explicit, global.compact, global.verbose, pkgs, &none);
    push_closing(&mut out, global.compact, count);
    proof {
        assert(views(out@) =~= explicit_report(global.compact, global.verbose, pkgs@));
    }
    out
}

/// The install reason as the details name it.
pub open spec fn reason_text(explicit: bool) -> Seq<char> {
    if explicit {
        "Explicit"@
    } else {
        "Depend"@
    }
}

/// The details of a package: what it is, what it needs, and, for an
/// installed package, why and when it was installed, for one of a
/// repository, where it comes from and how much is to download.
pub open spec fn info_lines(p: Package, is_local: bool) -> Seq<Seq<char>> {
    seq![
        "Name            : "@ + p.name@,
        "Version         : "@ + p.version@,
        "Description     : "@ + text_or(p.desc, "None"@),
        "Architecture    : "@ + text_or(p.arch, "unknown"@),
        "URL             : "@ + text_or(p.url, "None"@),
        "Licenses        : "@ + list_text(views(p.licenses@)),
        "Groups          : "@ + list_text(views(p.groups@)),
        "Depends On      : "@ + list_text(views(p.depends@)),
        "Optional Deps   : "@ + list_text(views(p.optdepends@)),
    ] + (if is_local {
        seq![
            "Install Reason  : "@ + reason_text(p.explicit),
            "Install Date    : "@ + signed_decimal_text(
                match p.install_date {
                    Some(d) => d as int,
                    None => 0,
                },
            ),
            "Installed Size  : "@ + signed_decimal_text(p.installed_size as int),
        ]
    } else {
        seq![
            "Repository      : "@ + text_or(p.repo, "unknown"@),
            "Download Size   : "@ + signed_decimal_text(p.download_size as int),
            "Installed Size  : "@ + signed_decimal_text(p.installed_size as int),
        ]
    })
}

/// A line made of a label and a text.
fn labelled(label: &str, value: &str) -> (r: String)
    ensures
        r@ == label@ + value@,
{
    let mut out = chars_of(label);
    push_text(&mut out, value);
    string_of(&out)
}

/// A line made of a label and an optional text.
fn labelled_or(label: &str, value: &Option<String>, fallback: &str) -> (r: String)
    ensures
        r@ == label@ + text_or(*value, fallback@),
{
    match value {
        Some(v) => labelled(label, v.as_str()),
        None => labelled(label, fallback),
    }
}

/// A line made of a label and a number.
fn labelled_number(label: &str, n: i64) -> (r: String)
    ensures
        r@ == label@ + signed_decimal_text(n as int),
{
    let mut out = chars_of(label);
    push_chars(&mut out, &signed_decimal(n));
    string_of(&out)
}

/// The details of a package.
fn info_of(p: &Package, is_local: bool) -> (r: Vec<String>)
    ensures
        views(r@) == info_lines(*p, is_local),
{
    let mut out: Vec<String> = Vec::new();
    out.push(labelled("Name            : ", p.name.as_str()));
    out.push(labelled("Version         : ", p.version.as_str()));
    out.push(labelled_or("Description     : ", &p.desc, "None"));
    out.push(labelled_or("Architecture    : ", &p.arch, "unknown"));
    out.push(labelled_or("URL             : ", &p.url, "None"));
    out.push(labelled("Licenses        : ", format_list(&p.licenses).as_str()));
    out.push(labelled("Groups          : ", format_list(&p.groups).as_str()));
    out.push(labelled("Depends On      : ", format_list(&p.depends).as_str()));
    out.push(labelled("Optional Deps   : ", format_list(&p.optdepends).as_str()));
    if is_local {
        if p.explicit {
            out.push(labelled("Install Reason  : ", "Explicit"));
        } else {
            out.push(labelled("Install Reason  : ", "Depend"));
        }
        let date: i64 = match p.install_date {
            Some(d) => d,
            None => 0,
        };
        out.push(labelled_number("Install Date    : ", date));
        out.push(labelled_number("Installed Size  : ", p.installed_size));
    } else {
        out.push(labelled_or("Repository      : ", &p.repo, "unknown"));
        out.push(labelled_number("Download Size   : ", p.download_size));
        out.push(labelled_number("Installed Size  : ", p.installed_size));
    }
    proof {
        assert(views(out@) =~= info_lines(*p, is_local));
    }
    out
}

/// The message for a package that was asked for and is not there.
pub open spec fn not_found_text(name: Seq<char>) -> Seq<char> {
    "error: package '"@ + name + "' was not found"@
}

/// The message for a package that was asked for and is not there.
pub fn not_found_message(name: &str) -> (r: String)
    ensures
        r@ == not_found_text(name@),
{
    let mut out = chars_of("error: package '");
    push_text(&mut out, name);
    push_text(&mut out, "' was not found");
    string_of(&out)
}

/// The details of the installed package named `package_name`, which is
/// `pkg` if it is installed; an error that names it if it is not.
pub fn show_package_info(package_name: &str, pkg: Option<&Package>) -> (r: Result<
    Vec<String>,
    String,
>)
    ensures
        match pkg {
            Some(p) => r matches Ok(lines) && views(lines@) == info_lines(*p, true),
            None => r matches Err(e) && e@ == not_found_text(package_name@),
        },
{
    match pkg {
        Some(p) => Ok(info_of(p, true)),
        None => Err(not_found_message(package_name)),
    }
}

/// The details of the repository package named `package_name`, which is
/// `pkg` if a repository holds it; an error that names it if none does.
pub fn show_sync_package_info(package_name: &str, pkg: Option<&Package>) -> (r: Result<
    Vec<String>,
    String,
>)
    ensures
        match pkg {
            Some(p) => r matches Ok(lines) && views(lines@) == info_lines(*p, false),
            None => r matches Err(e) && e@ == not_found_text(package_name@),
        },
{
    match pkg {
        Some(p) => Ok(info_of(p, false)),
        None => Err(not_found_message(package_name)),
    }
}

/// A report about named packages: the lines to print and, if one of the
/// names is not installed, the first such name. The lines are those of the
/// names before it; the report ends there.
#[derive(Clone, Debug, PartialEq, Eq)]
pub struct Report {
    pub lines: Vec<String>,
    pub missing: Option<String>,
}

/// The index of the first name at or after `i` that is not installed, or
/// the number of names when all are.
pub open spec fn first_missing(lookups: Seq<Lookup>, i: int) -> int
    decreases lookups.len() - i,
{
    if i < 0 || i >= lookups.len() {
        lookups.len() as int
    } else if lookups[i].package is None {
        i
    } else {
        first_missing(lookups, i + 1)
    }
}

/// The first name that is not installed, if there is one.
pub open spec fn missing_name(lookups: Seq<Lookup>) -> Option<Seq<char>> {
    let k = first_missing(lookups, 0);
    if k < lookups.len() {
        Some(lookups[k].name@)
    } else {
        None
    }
}

/// The view of an optional string.
pub open spec fn name_view(s: Option<String>) -> Option<Seq<char>> {
    match s {
        Some(v) => Some(v@),
        None => None,
    }
}

/// The names that were asked for.
pub open spec fn lookup_names(lookups: Seq<Lookup>) -> Seq<Seq<char>> {
    Seq::new(lookups.len(), |i: int| lookups[i].name@)
}

/// The rows of the packages from index `i` on, up to the first name that
/// is not installed, that the list shows.
pub open spec fn lookup_rows_from(
    mode: Listing,
    compact: bool,
    verbose: bool,
    lookups: Seq<Lookup>,
    i: int,
) -> Seq<Seq<char>>
    decreases lookups.len() - i,
{
    if i < 0 || i >= lookups.len() {
        Seq::empty()
    } else {
        match lookups[i].package {
            None => Seq::empty(),
            Some(p) => (if selects(mode, p, Seq::empty()) {
                row_lines(mode, compact, verbose, p)
            } else {
                Seq::<Seq<char>>::empty()
            }) + lookup_rows_from(mode, compact, verbose, lookups, i + 1),
        }
    }
}

/// How many packages from index `i` on, up to the first name that is not
/// installed, the list shows.
pub open spec fn lookup_count_from(mode: Listing, lookups: Seq<Lookup>, i: int) -> int
    decreases lookups.len() - i,
{
    if i < 0 || i >= lookups.len() {
        0
    } else {
        match lookups[i].package {
            None => 0,
            Some(p) => (if selects(mode, p, Seq::empty()) {
                1int
            } else {
                0int
            }) + lookup_count_from(mode, lookups, i + 1),
        }
    }
}

/// The names that were asked for, as one text.
fn names_of(lookups: &Vec<Lookup>) -> (r: Vec<char>)
    ensures
        r@ == joined(lookup_names(lookups@), " "@),
{
    let mut names: Vec<String> = Vec::new();
    let mut i: usize = 0;
    while i < lookups.len()
        invariant
            i <= lookups.len(),
            names@.len() == i,
            forall|j: int| 0 <= j < i ==> #[trigger] names@[j]@ == lookups@[j].name@,
        decreases lookups.len() - i,
    {
        names.push(lookups[i].name.clone());
        i = i + 1;
    }
    proof {
        assert(views(names@) =~= lookup_names(lookups@));
    }
    join(&names, " ")
}

/// Appends the rows of the named packages up to the first that is not
/// installed; tells how many rows these are and which name is missing.
fn push_lookup_rows(
    out: &mut Vec<String>,
    mode: Listing,
    compact: bool,
    verbose: bool,
    lookups: &Vec<Lookup>,
) -> (r: (usize, Option<String>))
    ensures
        views(final(out)@) == views(old(out)@) + lookup_rows_from(
            mode,
            compact,
            verbose,
            lookups@,
            0,
        ),
        r.0 == lookup_count_from(mode, lookups@, 0),
        name_view(r.1) == missing_name(lookups@),
{
    let none: Vec<Vec<String>> = Vec::new();
    let mut count: usize = 0;
    let mut i: usize = 0;
    proof {
        assert(none@ =~= Seq::<Vec<String>>::empty());
    }
    while i < lookups.len()
        invariant
            i <= lookups.len(),
            none@ == Seq::<Vec<String>>::empty(),
            0 <= count <= i,
            lookup_count_from(mode, lookups@, 0) == count + lookup_count_from(
                mode,
                lookups@,
                i as int,
            ),
            first_missing(lookups@, 0) == first_missing(lookups@, i as int),
            views(old(out)@) + lookup_rows_from(mode, compact, verbose, lookups@, 0) == views(out@)
                + lookup_rows_from(mode, compact, verbose, lookups@, i as int),
        decreases lookups.len() - i,
    {
        let ghost before = views(out@);
        match &lookups[i].package {
            None => {
                proof {
                    assert(views(out@) + Seq::<Seq<char>>::empty() =~= views(out@));
                }
                return (count, Some(lookups[i].name.clone()));
            },
            Some(p) => {
                if is_selected(mode, p, &none) {
                    let row = row_of(mode, compact, verbose, p);
                    push_lines(out, row);
                    count = count + 1;
                    proof {
                        assert(before + (views(row@) + lookup_rows_from(
                            mode,
                            compact,
                            verbose,
                            lookups@,
                            i + 1,
                        )) =~= (before + views(row@)) + lookup_rows_from(
                            mode,
                            compact,
                            verbose,
                            lookups@,
                            i + 1,
                        ));
                    }
                } else {
                    proof {
                        assert(Seq::<Seq<char>>::empty() + lookup_rows_from(
                            mode,
                            compact,
                            verbose,
                            lookups@,
                            i + 1,
                        ) =~= lookup_rows_from(mode, compact, verbose, lookups@, i + 1));
                    }
                }
            },
        }
        i = i + 1;
    }
    proof {
        assert(views(out@) + Seq::<Seq<char>>::empty() =~= views(out@));
    }
    (count, None)
}

/// What a query of named packages prints: a heading with the names, then a
/// row for each name in turn as long as it is installed.
pub open spec fn query_report(compact: bool, verbose: bool, lookups: Seq<Lookup>) -> Seq<
    Seq<char>,
> {
    heading(compact, "Package query"@, Some(joined(lookup_names(lookups), " "@)))
        + lookup_rows_from(Listing::Installed, compact, verbose, lookups, 0)
}

/// The report of a query of named packages.
pub fn query_packages(global: &GlobalFlags, lookups: &Vec<Lookup>) -> (r: Report)
    ensures
        views(r.lines@) == query_report(global.compact, global.verbose, lookups@),
        name_view(r.missing) == missing_name(lookups@),
{
    let mut out: Vec<String> = Vec::new();
    let names = names_of(lookups);
    push_heading(&mut out, global.compact, "Package query", Some(&names));
    let (_, missing) = push_lookup_rows(
        &mut out,
        Listing::Installed,
        global.compact,
        global.verbose,
        lookups,
    );
    proof {
        assert(views(out@) =~= query_report(global.compact, global.verbose, lookups@));
    }
    Report { lines: out, missing }
}

/// What a query of named packages for those installed on request prints: a
/// heading with the names, a row for each name in turn that is installed
/// on request, as long as the names are installed, and, when all are, the
/// number of rows or the word that nothing was found.
pub open spec fn explicit_query_report(compact: bool, verbose: bool, lookups: Seq<Lookup>) -> Seq<
    Seq<char>,
> {
    heading(compact, "Explicit package query"@, Some(joined(lookup_names(lookups), " "@)))
        + lookup_rows_from(Listing::Explicit, compact, verbose, lookups, 0) + (if missing_name(
        lookups,
    ) is None {
        closing(compact, lookup_count_from(Listing::Explicit, lookups, 0))
    } else {
        Seq::<Seq<char>>::empty()
    })
}

/// The report of a query of named packages for those installed on request.
pub fn query_explicit_packages(global: &GlobalFlags, lookups: &Vec<Lookup>) -> (r: Report)
    ensures
        views(r.lines@) == explicit_query_report(global.compact, global.verbose, lookups@),
        name_view(r.missing) == missing_name(lookups@),
{
    let mut out: Vec<String> = Vec::new();
    let names = names_of(lookups);
    push_heading(&mut out, global.compact, "Explicit package query", Some(&names));
    let (count, missing) = push_lookup_rows(
        &mut out,
        Listing::Explicit,
        global.compact,
        global.verbose,
        lookups,
    );
    match &missing {
        None => {
            push_closing(&mut out, global.compact, count);
        },
        Some(_) => {
            proof {
                assert(views(out@) + Seq::<Seq<char>>::empty() =~= views(out@));
            }
        },
    }
    proof {
        assert(views(out@) =~= explicit_query_report(global.compact, global.verbose, lookups@));
    }
    Report { lines: out, missing }
}

/// The line of one file in the list of the files of a package.
pub open spec fn file_line(compact: bool, p: Package, file: Seq<char>) -> Seq<char> {
    if compact {
        p.name@ + " "@ + file
    } else {
        "  "@ + file
    }
}

/// The lines that list the files of one package: unless the report is
/// compact, an empty line and a heading before them and their number after
/// them.
pub open spec fn files_block(compact: bool, p: Package) -> Seq<Seq<char>> {
    let files = views(p.files@);
    (if compact {
        Seq::<Seq<char>>::empty()
    } else {
        seq![""@, "Files for "@ + p.name@]
    }) + Seq::new(files.len(), |j: int| file_line(compact, p, files[j])) + (if compact {
        Seq::<Seq<char>>::empty()
    } else {
        seq!["File count: "@ + decimal_text(files.len())]
    })
}

/// The file lists of the packages from index `i` on, up to the first name
/// that is not installed.
pub open spec fn files_report_from(compact: bool, lookups: Seq<Lookup>, i: int) -> Seq<Seq<char>>
    decreases lookups.len() - i,
{
    if i < 0 || i >= lookups.len() {
        Seq::empty()
    } else {
        match lookups[i].package {
            None => Seq::empty(),
            Some(p) => files_block(compact, p) + files_report_from(compact, lookups, i + 1),
        }
    }
}

/// The lines that list the files of one package.
fn files_of(compact: bool, p: &Package) -> (r: Vec<String>)
    ensures
        views(r@) == files_block(compact, *p),
{
    let ghost files = views(p.files@);
    let ghost lead: int = if compact {
        0
    } else {
        2
    };
    let mut out: Vec<String> = Vec::new();
    if !compact {
        out.push(text(""));
        out.push(labelled("Files for ", p.name.as_str()));
    }
    let mut j: usize = 0;
    while j < p.files.len()
        invariant
            j <= p.files.len(),
            files == views(p.files@),
            lead == (if compact {
                0int
            } else {
                2int
            }),
            out@.len() == lead + j,
            forall|k: int| 0 <= k < lead + j ==> #[trigger] out@[k]@ == files_block(compact, *p)[k],
        decreases p.files.len() - j,
    {
        let ghost prev = out@;
        let mut l: Vec<char> = Vec::new();
        if compact {
            push_text(&mut l, p.name.as_str());
            push_text(&mut l, " ");
        } else {
            push_text(&mut l, "  ");
        }
        push_text(&mut l, p.files[j].as_str());
        let line = string_of(&l);
        proof {
            assert(line@ =~= file_line(compact, *p, files[j as int]));
        }
        out.push(line);
        proof {
            assert forall|k: int| 0 <= k < lead + j + 1 implies #[trigger] out@[k]@ == files_block(
                compact,
                *p,
            )[k] by {
                if k < lead + j {
                    assert(out@[k] == prev[k]);
                }
            }
        }
        j = j + 1;
    }
    if !compact {
        let ghost prev = out@;
        let mut l = chars_of("File count: ");
        push_chars(&mut l, &decimal(p.files.len() as u64));
        out.push(string_of(&l));
        proof {
            assert forall|k: int| 0 <= k < out@.len() implies #[trigger] out@[k]@ == files_block(
                compact,
                *p,
            )[k] by {
                if k < prev.len() {
                    assert(out@[k] == prev[k]);
                }
            }
        }
    }
    proof {
        assert(views(out@) =~= files_block(compact, *p));
    }
    out
}

/// The report of the files that named packages own.
pub fn list_package_files(global: &GlobalFlags, lookups: &Vec<Lookup>) -> (r: Report)
    ensures
        views(r.lines@) == files_report_from(global.compact, lookups@, 0),
        name_view(r.missing) == missing_name(lookups@),
{
    let compact = global.compact;
    let mut out: Vec<String> = Vec::new();
    let mut i: usize = 0;
    proof {
        assert(views(out@) =~= Seq::<Seq<char>>::empty());
    }
    while i < lookups.len()
        invariant
            i <= lookups.len(),
            compact == global.compact,
            first_missing(lookups@, 0) == first_missing(lookups@, i as int),
            files_report_from(compact, lookups@, 0) == views(out@) + files_report_from(
                compact,
                lookups@,
                i as int,
            ),
        decreases lookups.len() - i,
    {
        let ghost before = views(out@);
        match &lookups[i].package {
            None => {
                proof {
                    assert(views(out@) + Seq::<Seq<char>>::empty() =~= views(out@));
                }
                return Report { lines: out, missing: Some(lookups[i].name.clone()) };
            },
            Some(p) => {
                let block = files_of(compact, p);
                push_lines(&mut out, block);
                proof {
                    assert(before + (views(block@) + files_report_from(compact, lookups@, i + 1))
                        =~= (before + views(block@)) + files_report_from(compact, lookups@, i + 1));
                }
            },
        }
        i = i + 1;
    }
    proof {
        assert(views(out@) + Seq::<Seq<char>>::empty() =~= views(out@));
    }
    Report { lines: out, missing: None }
}

/// The lines that say what needs one package.
pub open spec fn dependents_block(p: Package) -> Seq<Seq<char>> {
    let deps = views(p.required_by@);
    if deps.len() == 0 {
        seq![p.name@ + " has no reverse dependencies"@]
    } else {
        seq![p.name@ + " is required by:"@] + Seq::new(deps.len(), |j: int| "  "@ + deps[j])
    }
}

/// What is said of the dependents of the packages from index `i` on, up to
/// the first name that is not installed.
pub open spec fn dependents_report_from(lookups: Seq<Lookup>, i: int) -> Seq<Seq<char>>
    decreases lookups.len() - i,
{
    if i < 0 || i >= lookups.len() {
        Seq::empty()
    } else {
        match lookups[i].package {
            None => Seq::empty(),
            Some(p) => dependents_block(p) + dependents_report_from(lookups, i + 1),
        }
    }
}

/// The lines that say what needs one package.
fn dependents_of(p: &Package) -> (r: Vec<String>)
    ensures
        views(r@) == dependents_block(*p),
{
    let ghost deps = views(p.required_by@);
    let mut out: Vec<String> = Vec::new();
    if p.required_by.len() == 0 {
        out.push(labelled(p.name.as_str(), " has no reverse dependencies"));
        proof {
            assert(views(out@) =~= dependents_block(*p));
        }
        return out;
    }
    out.push(labelled(p.name.as_str(), " is required by:"));
    let mut j: usize = 0;
    while j < p.required_by.len()
        invariant
            j <= p.required_by.len(),
            p.required_by.len() > 0,
            deps == views(p.required_by@),
            out@.len() == 1 + j,
            forall|k: int| 0 <= k < 1 + j ==> #[trigger] out@[k]@ == dependents_block(*p)[k],
        decreases p.required_by.len() - j,
    {
        let ghost prev = out@;
        let line = labelled("  ", p.required_by[j].as_str());
        proof {
            assert(line@ == "  "@ + deps[j as int]);
        }
        out.push(line);
        proof {
            assert forall|k: int| 0 <= k < 2 + j implies #[trigger] out@[k]@ == dependents_block(
                *p,
            )[k] by {
                if k < 1 + j {
                    assert(out@[k] == prev[k]);
                }
            }
        }
        j = j + 1;
    }
    proof {
        assert(views(out@) =~= dependents_block(*p));
    }
    out
}

/// The report of what needs named packages.
pub fn query_reverse_dependencies(lookups: &Vec<Lookup>) -> (r: Report)
    ensures
        views(r.lines@) == dependents_report_from(lookups@, 0),
        name_view(r.missing) == missing_name(lookups@),
{
    let mut out: Vec<String> = Vec::new();
    let mut i: usize = 0;
    proof {
        assert(views(out@) =~= Seq::<Seq<char>>::empty());
    }
    while i < lookups.len()
        invariant
            i <= lookups.len(),
            first_missing(lookups@, 0) == first_missing(lookups@, i as int),
            dependents_report_from(lookups@, 0) == views(out@) + dependents_report_from(
                lookups@,
                i as int,
            ),
        decreases lookups.len() - i,
    {
        let ghost before = views(out@);
        match &lookups[i].package {
            None => {
                proof {
                    assert(views(out@) + Seq::<Seq<char>>::empty() =~= views(out@));
                }
                return Report { lines: out, missing: Some(lookups[i].name.clone()) };
            },
            Some(p) => {
                let block = dependents_of(p);
                push_lines(&mut out, block);
                proof {
                    assert(before + (views(block@) + dependents_report_from(lookups@, i + 1)) =~= (
                    before + views(block@)) + dependents_report_from(lookups@, i + 1));
                }
            },
        }
        i = i + 1;
    }
    proof {
        assert(views(out@) + Seq::<Seq<char>>::empty() =~= views(out@));
    }
    Report { lines: out, missing: None }
}

/// A path as the package database spells it: without one slash at its
/// start.
pub open spec fn normalized_path(path: Seq<char>) -> Seq<char> {
    if path.len() > 0 && path[0] == '/' {
        path.subrange(1, path.len() as int)
    } else {
        path
    }
}

/// A path as the package database spells it.
pub fn normalize_query_path(path: &str) -> (r: String)
    ensures
        r@ == normalized_path(path@),
{
    let p = chars_of(path);
    if p.len() > 0 && p[0] == '/' {
        string_of(&slice_chars(&p, 1, p.len()))
    } else {
        string_of(&p)
    }
}

/// The index of the first package at or after `i` that owns the file
/// `file`, or the number of packages when none does.
pub open spec fn owner_from(pkgs: Seq<Package>, file: Seq<char>, i: int) -> int
    decreases pkgs.len() - i,
{
    if i < 0 || i >= pkgs.len() {
        pkgs.len() as int
    } else if views(pkgs[i].files@).contains(file) {
        i
    } else {
        owner_from(pkgs, file, i + 1)
    }
}

/// What is said of one path: a line for the user, or an error.
#[derive(Clone, Debug, PartialEq, Eq)]
pub struct OwnerLine {
    /// Whether no package owns the path.
    pub error: bool,
    pub text: String,
}

/// Whether `l` says of the path `input` what the packages give: the first
/// package that owns it, or that none does.
pub open spec fn says_owner(l: OwnerLine, input: Seq<char>, pkgs: Seq<Package>) -> bool {
    let k = owner_from(pkgs, normalized_path(input), 0);
    if k < pkgs.len() {
        !l.error && l.text@ == input + " is owned by "@ + pkgs[k].name@
    } else {
        l.error && l.text@ == "error: No package owns "@ + input
    }
}

/// What is said of one path.
fn owner_of(input: &str, pkgs: &Vec<Package>) -> (r: OwnerLine)
    ensures
        says_owner(r, input@, pkgs@),
{
    let query = chars_of(normalize_query_path(input).as_str());
    let mut i: usize = 0;
    while i < pkgs.len()
        invariant
            i <= pkgs.len(),
            query@ == normalized_path(input@),
            owner_from(pkgs@, query@, 0) == owner_from(pkgs@, query@, i as int),
        decreases pkgs.len() - i,
    {
        if contains_string(&pkgs[i].files, &query) {
            let mut l = chars_of(input);
            push_text(&mut l, " is owned by ");
            push_text(&mut l, pkgs[i].name.as_str());
            return OwnerLine { error: false, text: string_of(&l) };
        }
        i = i + 1;
    }
    OwnerLine { error: true, text: labelled("error: No package owns ", input) }
}

/// For each path in turn, the installed package that owns it: the first in
/// the order of the database.
pub fn query_owns(paths: &Vec<String>, pkgs: &Vec<Package>) -> (r: Vec<OwnerLine>)
    ensures
        r@.len() == paths@.len(),
        forall|i: int| 0 <= i < paths@.len() ==> says_owner(#[trigger] r@[i], paths@[i]@, pkgs@),
{
    let mut out: Vec<OwnerLine> = Vec::new();
    let mut i: usize = 0;
    while i < paths.len()
        invariant
            i <= paths.len(),
            out@.len() == i,
            forall|k: int| 0 <= k < i ==> says_owner(#[trigger] out@[k], paths@[k]@, pkgs@),
        decreases paths.len() - i,
    {
        out.push(owner_of(paths[i].as_str(), pkgs));
        i = i + 1;
    }
    out
}

/// The index of the first repository at or after `i` that holds a package
/// named `name`, or the number of repositories when none does.
pub open spec fn first_holder(repos: Seq<Vec<String>>, name: Seq<char>, i: int) -> int
    decreases repos.len() - i,
{
    if i < 0 || i >= repos.len() {
        repos.len() as int
    } else if views(repos[i]@).contains(name) {
        i
    } else {
        first_holder(repos, name, i + 1)
    }
}

/// The message for a target that no repository holds.
pub open spec fn target_not_found_text(name: Seq<char>) -> Seq<char> {
    "error: target not found: "@ + name
}

/// The repository that a sync target comes from: the first one, in the
/// order in which the repositories were registered, that holds a package of
/// that name. `repos` gives, for each repository, the names of its
/// packages.
pub fn find_sync_pkg(repos: &Vec<Vec<String>>, name: &str) -> (r: Result<usize, String>)
    ensures
        match r {
            Ok(k) => k < repos@.len() && k == first_holder(repos@, name@, 0),
            Err(e) => first_holder(repos@, name@, 0) == repos@.len() && e@
                == target_not_found_text(name@),
        },
{
    let key = chars_of(name);
    let mut i: usize = 0;
    while i < repos.len()
        invariant
            i <= repos.len(),
            key@ == name@,
            first_holder(repos@, name@, 0) == first_holder(repos@, name@, i as int),
        decreases repos.len() - i,
    {
        if contains_string(&repos[i], &key) {
            return Ok(i);
        }
        i = i + 1;
    }
    Err(labelled("error: target not found: ", name))
}

/// Whether a package named `name` is installed, given the names of the
/// installed packages.
pub fn find_local_pkg(installed: &Vec<String>, name: &str) -> (r: bool)
    ensures
        r == views(installed@).contains(name@),
{
    contains_string(installed, &chars_of(name))
}

/// The index of the first target at or after `i` that no repository
/// holds, or the number of targets when all are held.
pub open spec fn first_unresolved(repos: Seq<Vec<String>>, targets: Seq<Seq<char>>, i: int) -> int
    decreases targets.len() - i,
{
    if i < 0 || i >= targets.len() {
        targets.len() as int
    } else if first_holder(repos, targets[i], 0) >= repos.len() {
        i
    } else {
        first_unresolved(repos, targets, i + 1)
    }
}

/// Resolves every sync target or none: for each target, in order, the
/// repository that it comes from, when every target is held by some
/// repository; else the error that names the first target that is not.
pub fn resolve_sync_targets(repos: &Vec<Vec<String>>, targets: &Vec<String>) -> (r: Result<
    Vec<usize>,
    String,
>)
    ensures
        match r {
            Ok(found) => {
                &&& first_unresolved(repos@, views(targets@), 0) == targets@.len()
                &&& found@.len() == targets@.len()
                &&& forall|i: int|
                    0 <= i < targets@.len() ==> #[trigger] found@[i] == first_holder(
                        repos@,
                        targets@[i]@,
                        0,
                    ) && found@[i] < repos@.len()
            },
            Err(e) => {
                let k = first_unresolved(repos@, views(targets@), 0);
                k < targets@.len() && e@ == target_not_found_text(targets@[k]@)
            },
        },
{
    let ghost model = views(targets@);
    let mut found: Vec<usize> = Vec::new();
    let mut i: usize = 0;
    while i < targets.len()
        invariant
            i <= targets.len(),
            model == views(targets@),
            first_unresolved(repos@, model, 0) == first_unresolved(repos@, model, i as int),
            found@.len() == i,
            forall|j: int|
                0 <= j < i ==> #[trigger] found@[j] == first_holder(repos@, targets@[j]@, 0)
                    && found@[j] < repos@.len(),
        decreases targets.len() - i,
    {
        proof {
            assert(model[i as int] == targets@[i as int]@);
        }
        match find_sync_pkg(repos, targets[i].as_str()) {
            Ok(k) => {
                found.push(k);
            },
            Err(e) => {
                return Err(e);
            },
        }
        i = i + 1;
    }
    Ok(found)
}

/// The index of the first target at or after `i` that is not installed, or
/// the number of targets when all are.
pub open spec fn first_not_installed(installed: Seq<Seq<char>>, targets: Seq<Seq<char>>, i: int) -> int
    decreases targets.len() - i,
{
    if i < 0 || i >= targets.len() {
        targets.len() as int
    } else if !installed.contains(targets[i]) {
        i
    } else {
        first_not_installed(installed, targets, i + 1)
    }
}

/// Checks that every removal target is installed: the first one that is
/// not, if there is one.
pub fn resolve_local_targets(installed: &Vec<String>, targets: &Vec<String>) -> (r: Option<String>)
    ensures
        match r {
            None => first_not_installed(views(installed@), views(targets@), 0) == targets@.len(),
            Some(name) => {
                let k = first_not_installed(views(installed@), views(targets@), 0);
                k < targets@.len() && name@ == targets@[k]@
            },
        },
{
    let ghost model = views(targets@);
    let mut i: usize = 0;
    while i < targets.len()
        invariant
            i <= targets.len(),
            model == views(targets@),
            first_not_installed(views(installed@), model, 0) == first_not_installed(
                views(installed@),
                model,
                i as int,
            ),
        decreases targets.len() - i,
    {
        proof {
            assert(model[i as int] == targets@[i as int]@);
        }
        if !find_local_pkg(installed, targets[i].as_str()) {
            return Some(targets[i].clone());
        }
        i = i + 1;
    }
    None
}

} // verus!
