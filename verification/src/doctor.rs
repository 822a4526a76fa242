//! The health checks of the `doctor` command: from what was found on the
//! system to the list of findings and the verdict.

use vstd::prelude::*;
use vstd::string::*;
use crate::alpm_ops::{skip_char, text_view, Distro};
use crate::config::{ConfigModel, PacmanConfig, Repository, RepositoryModel};
use crate::history::{join_path, path_join};
use crate::number::{decimal, decimal_text};
use crate::text::{
    chars_of, contains_text, has_infix, has_prefix, is_text, lowered, push_chars, push_text,
    slice_chars, starts_with_text, string_of, text, to_ascii_lowercase, views,
};

verus! {

/// How a check ended.
#[derive(Clone, Copy, Debug, PartialEq, Eq, Structural)]
pub enum Level {
    Pass,
    Warn,
    Fail,
}

/// The result of one check.
#[derive(Clone, Debug, PartialEq, Eq)]
pub struct Finding {
    pub level: Level,
    pub label: String,
}

/// The mathematical content of a [`Finding`].
pub struct FindingModel {
    pub level: Level,
    pub label: Seq<char>,
}

impl View for Finding {
    type V = FindingModel;

    open spec fn view(&self) -> FindingModel {
        FindingModel { level: self.level, label: self.label@ }
    }
}

/// The views of a sequence of findings.
pub open spec fn finding_views(v: Seq<Finding>) -> Seq<FindingModel> {
    Seq::new(v.len(), |i: int| v[i]@)
}

/// How many of the first `upto` findings are of level `level`.
pub open spec fn level_count(f: Seq<FindingModel>, level: Level, upto: int) -> int
    decreases upto,
{
    if upto <= 0 || upto > f.len() {
        0
    } else {
        level_count(f, level, upto - 1) + if f[upto - 1].level == level {
            1int
        } else {
            0int
        }
    }
}

/// The findings of a run of the checks, with their counts by level.
#[derive(Clone, Debug, PartialEq, Eq)]
pub struct Report {
    pub ok: usize,
    pub warn: usize,
    pub fail: usize,
    pub findings: Vec<Finding>,
}

impl Report {
    /// The counts are those of the findings.
    pub open spec fn well_formed(&self) -> bool {
        let f = finding_views(self.findings@);
        &&& self.ok == level_count(f, Level::Pass, f.len() as int)
        &&& self.warn == level_count(f, Level::Warn, f.len() as int)
        &&& self.fail == level_count(f, Level::Fail, f.len() as int)
    }

    /// The findings as a sequence of models.
    pub open spec fn list(&self) -> Seq<FindingModel> {
        finding_views(self.findings@)
    }

    /// A report without findings.
    pub fn new() -> (r: Report)
        ensures
            r.well_formed(),
            r.list() == Seq::<FindingModel>::empty(),
    {
        let r = Report { ok: 0, warn: 0, fail: 0, findings: Vec::new() };
        proof {
            assert(r.list() =~= Seq::<FindingModel>::empty());
        }
        r
    }

    /// Adds a finding of level `level`.
    fn add(&mut self, level: Level, label: String)
        requires
            old(self).well_formed(),
        ensures
            final(self).well_formed(),
            final(self).list() == old(self).list().push(FindingModel { level, label: label@ }),
    {
        let ghost before = self.list();
        proof {
            lemma_level_count_bound(before, Level::Pass, before.len() as int);
            lemma_level_count_bound(before, Level::Warn, before.len() as int);
            lemma_level_count_bound(before, Level::Fail, before.len() as int);
        }
        self.findings.push(Finding { level, label });
        let total = self.findings.len();
        proof {
            assert(total == before.len() + 1);
            let after = self.list();
            assert(after =~= before.push(FindingModel { level, label: label@ }));
            lemma_level_count_prefix(before, after, Level::Pass, before.len() as int);
            lemma_level_count_prefix(before, after, Level::Warn, before.len() as int);
            lemma_level_count_prefix(before, after, Level::Fail, before.len() as int);
        }
        match level {
            Level::Pass => {
                self.ok = self.ok + 1;
            },
            Level::Warn => {
                self.warn = self.warn + 1;
            },
            Level::Fail => {
                self.fail = self.fail + 1;
            },
        }
    }

    /// Adds a check that passed.
    pub fn ok(&mut self, label: &str)
        requires
            old(self).well_formed(),
        ensures
            final(self).well_formed(),
            final(self).list() == old(self).list().push(
                FindingModel { level: Level::Pass, label: label@ },
            ),
    {
        self.add(Level::Pass, text(label));
    }

    /// Adds a check that gives a warning.
    pub fn warn(&mut self, label: &str)
        requires
            old(self).well_formed(),
        ensures
            final(self).well_formed(),
            final(self).list() == old(self).list().push(
                FindingModel { level: Level::Warn, label: label@ },
            ),
    {
        self.add(Level::Warn, text(label));
    }

    /// Adds a check that failed.
    pub fn fail(&mut self, label: &str)
        requires
            old(self).well_formed(),
        ensures
            final(self).well_formed(),
            final(self).list() == old(self).list().push(
                FindingModel { level: Level::Fail, label: label@ },
            ),
    {
        self.add(Level::Fail, text(label));
    }

    /// Whether a check failed: the command then ends with an error.
    pub fn failed(&self) -> (r: bool)
        ensures
            r == (self.fail > 0),
    {
        self.fail > 0
    }
}

/// A count of findings is at most their number.
pub proof fn lemma_level_count_bound(f: Seq<FindingModel>, level: Level, upto: int)
    requires
        0 <= upto <= f.len(),
    ensures
        0 <= level_count(f, level, upto) <= upto,
    decreases upto,
{
    if upto > 0 {
        lemma_level_count_bound(f, level, upto - 1);
    }
}

/// A count over the first findings depends on those findings only.
pub proof fn lemma_level_count_prefix(
    a: Seq<FindingModel>,
    b: Seq<FindingModel>,
    level: Level,
    upto: int,
)
    requires
        0 <= upto <= a.len(),
        upto <= b.len(),
        forall|i: int| 0 <= i < upto ==> a[i] == b[i],
    ensures
        level_count(a, level, upto) == level_count(b, level, upto),
    decreases upto,
{
    if upto > 0 {
        lemma_level_count_prefix(a, b, level, upto - 1);
    }
}

/// The distribution for the health checks, from the text of the system's
/// `os-release` file, or from `None` when that file cannot be read: CachyOS
/// where the text names it as its identifier or as its like, Arch where the
/// text names Arch so, another otherwise. Capitals count as small letters.
pub open spec fn distro_of(os_release: Option<Seq<char>>) -> Distro {
    match os_release {
        None => Distro::Other,
        Some(t) => {
            let l = lowered(t);
            if has_infix(l, "id=cachyos"@) || has_infix(l, "id_like=\"cachyos"@) {
                Distro::CachyOS
            } else if has_infix(l, "id=arch"@) || has_infix(l, "id_like=arch"@) {
                Distro::Arch
            } else {
                Distro::Other
            }
        },
    }
}

/// The distribution for the health checks.
pub fn detect_distro(os_release: Option<&str>) -> (r: Distro)
    ensures
        r == distro_of(
            match os_release {
                Some(t) => Some(t@),
                None => None,
            },
        ),
{
    match os_release {
        None => Distro::Other,
        Some(t) => {
            let l = to_ascii_lowercase(&chars_of(t));
            if contains_text(&l, "id=cachyos") || contains_text(&l, "id_like=\"cachyos") {
                Distro::CachyOS
            } else if contains_text(&l, "id=arch") || contains_text(&l, "id_like=arch") {
                Distro::Arch
            } else {
                Distro::Other
            }
        },
    }
}

/// The name of a distribution as the report shows it.
pub open spec fn distro_name_of(d: Distro) -> Seq<char> {
    match d {
        Distro::Arch => "Arch Linux"@,
        Distro::CachyOS => "CachyOS"@,
        Distro::Other => "Unknown/Other"@,
    }
}

/// The name of a distribution as the report shows it.
pub fn distro_name(d: Distro) -> (r: &'static str)
    ensures
        r@ == distro_name_of(d),
{
    match d {
        Distro::Arch => "Arch Linux",
        Distro::CachyOS => "CachyOS",
        Distro::Other => "Unknown/Other",
    }
}

/// The path `rel`, less the slashes at its start, in the directory `root`.
pub open spec fn doctor_joined(root: Seq<char>, rel: Seq<char>) -> Seq<char> {
    path_join(root, rel.subrange(skip_char(rel, '/', 0), rel.len() as int))
}

/// The path `rel`, less the slashes at its start, in the directory `root`.
pub fn root_join(root: &str, rel: &str) -> (r: String)
    ensures
        r@ == doctor_joined(root@, rel@),
{
    let rl = chars_of(rel);
    let mut start: usize = 0;
    while start < rl.len() && rl[start] == '/'
        invariant
            start <= rl.len(),
            skip_char(rl@, '/', 0) == skip_char(rl@, '/', start as int),
        decreases rl.len() - start,
    {
        start = start + 1;
    }
    let tail = slice_chars(&rl, start, rl.len());
    string_of(&join_path(&chars_of(root), &tail))
}

/// What was found on the system.
#[derive(Clone, Debug, PartialEq, Eq)]
pub struct DoctorFacts {
    /// The text of the `os-release` file, if it could be read.
    pub os_release: Option<String>,
    pub root_exists: bool,
    pub db_path_exists: bool,
    pub local_db_exists: bool,
    pub lock_exists: bool,
    pub cache_exists: bool,
    pub gpg_dir_exists: bool,
    pub pubring_kbx_exists: bool,
    pub pubring_gpg_exists: bool,
    pub trustdb_exists: bool,
}

/// A finding.
pub open spec fn finding(level: Level, label: Seq<char>) -> FindingModel {
    FindingModel { level, label }
}

/// One of two findings, by a condition.
pub open spec fn either(
    cond: bool,
    level: Level,
    label: Seq<char>,
    else_level: Level,
    else_label: Seq<char>,
) -> FindingModel {
    if cond {
        finding(level, label)
    } else {
        finding(else_level, else_label)
    }
}

/// The findings about the paths of the system: the root, the package
/// database, its local part, its lock, the cache, and the keyring.
pub open spec fn path_findings(f: DoctorFacts) -> Seq<FindingModel> {
    seq![
        either(
            f.root_exists,
            Level::Pass,
            "Root directory exists"@,
            Level::Fail,
            "Root directory does not exist"@,
        ),
        either(
            f.db_path_exists,
            Level::Pass,
            "Package database path exists"@,
            Level::Fail,
            "Package database path does not exist"@,
        ),
        either(
            f.local_db_exists,
            Level::Pass,
            "Local package database exists"@,
            Level::Fail,
            "Local package database is missing"@,
        ),
        either(
            f.lock_exists,
            Level::Warn,
            "Database lock file exists (possible active package manager or stale lock)"@,
            Level::Pass,
            "No active database lock file"@,
        ),
        either(
            f.cache_exists,
            Level::Pass,
            "Package cache path exists"@,
            Level::Warn,
            "Package cache path is missing"@,
        ),
        either(
            f.gpg_dir_exists,
            Level::Pass,
            "GPG directory exists"@,
            Level::Fail,
            "GPG directory is missing"@,
        ),
        either(
            f.pubring_kbx_exists || f.pubring_gpg_exists,
            Level::Pass,
            "Keyring public keyring file exists"@,
            Level::Fail,
            "No keyring public keyring file found (pubring.kbx/pubring.gpg)"@,
        ),
        either(
            f.trustdb_exists,
            Level::Pass,
            "Keyring trustdb exists"@,
            Level::Warn,
            "Keyring trustdb.gpg not found"@,
        ),
    ]
}

/// How many of the first `upto` mirrors are reached over HTTPS.
pub open spec fn https_count(servers: Seq<Seq<char>>, upto: int) -> int
    decreases upto,
{
    if upto <= 0 || upto > servers.len() {
        0
    } else {
        https_count(servers, upto - 1) + if has_prefix(servers[upto - 1], "https://"@) {
            1int
        } else {
            0int
        }
    }
}

/// The findings about one repository: a failure when it has no mirror, a
/// warning when some of its mirrors are not reached over HTTPS.
pub open spec fn repository_findings(r: RepositoryModel) -> Seq<FindingModel> {
    let n = r.servers.len() as int;
    let secure = https_count(r.servers, n);
    if n == 0 {
        seq![finding(Level::Fail, "Repository '"@ + r.name + "' has no servers"@)]
    } else if secure < n {
        seq![
            finding(
                Level::Warn,
                "Repository '"@ + r.name + "' has non-HTTPS mirrors ("@ + decimal_text(
                    (n - secure) as nat,
                ) + " of "@ + decimal_text(n as nat) + ")"@,
            ),
        ]
    } else {
        Seq::empty()
    }
}

/// Whether a repository has mirrors and none of them is reached over
/// HTTPS.
pub open spec fn insecure(r: RepositoryModel) -> bool {
    r.servers.len() > 0 && https_count(r.servers, r.servers.len() as int) == 0
}

/// The findings about the repositories from index `i` on.
pub open spec fn repositories_findings_from(repos: Seq<RepositoryModel>, i: int) -> Seq<
    FindingModel,
>
    decreases repos.len() - i,
{
    if i < 0 || i >= repos.len() {
        Seq::empty()
    } else {
        repository_findings(repos[i]) + repositories_findings_from(repos, i + 1)
    }
}

/// Whether one of the repositories from index `i` on is insecure.
pub open spec fn any_insecure_from(repos: Seq<RepositoryModel>, i: int) -> bool
    decreases repos.len() - i,
{
    if i < 0 || i >= repos.len() {
        false
    } else {
        insecure(repos[i]) || any_insecure_from(repos, i + 1)
    }
}

/// Whether one of the repositories from index `i` on has the name `name`,
/// capitals counting as small letters.
pub open spec fn has_repository_from(repos: Seq<RepositoryModel>, name: Seq<char>, i: int) -> bool
    decreases repos.len() - i,
{
    if i < 0 || i >= repos.len() {
        false
    } else {
        lowered(repos[i].name) == name || has_repository_from(repos, name, i + 1)
    }
}

/// Whether the name of one of the repositories from index `i` on holds
/// `part`, capitals counting as small letters.
pub open spec fn has_repository_like_from(repos: Seq<RepositoryModel>, part: Seq<char>, i: int) -> bool
    decreases repos.len() - i,
{
    if i < 0 || i >= repos.len() {
        false
    } else {
        has_infix(lowered(repos[i].name), part) || has_repository_like_from(repos, part, i + 1)
    }
}

/// Whether a mirror address is one for an optimised architecture level.
pub open spec fn optimised(server: Seq<char>) -> bool {
    has_infix(server, "$arch_v3"@) || has_infix(server, "$arch_v4"@) || has_infix(
        server,
        "x86_64_v3"@,
    ) || has_infix(server, "x86_64_v4"@)
}

/// Whether one of the mirrors from index `j` on is for an optimised
/// architecture level.
pub open spec fn any_optimised_from(servers: Seq<Seq<char>>, j: int) -> bool
    decreases servers.len() - j,
{
    if j < 0 || j >= servers.len() {
        false
    } else {
        optimised(servers[j]) || any_optimised_from(servers, j + 1)
    }
}

/// Whether a mirror of one of the repositories from index `i` on is for an
/// optimised architecture level.
pub open spec fn any_repository_optimised_from(repos: Seq<RepositoryModel>, i: int) -> bool
    decreases repos.len() - i,
{
    if i < 0 || i >= repos.len() {
        false
    } else {
        any_optimised_from(repos[i].servers, 0) || any_repository_optimised_from(repos, i + 1)
    }
}

/// The findings that depend on the distribution.
pub open spec fn distro_findings(d: Distro, repos: Seq<RepositoryModel>) -> Seq<FindingModel> {
    match d {
        Distro::Arch => seq![
            either(
                has_repository_from(repos, "core"@, 0) && has_repository_from(repos, "extra"@, 0),
                Level::Pass,
                "Arch baseline repositories present (core, extra)"@,
                Level::Warn,
                "Arch baseline repositories missing one of: core, extra"@,
            ),
        ],
        Distro::CachyOS => seq![
            either(
                has_repository_like_from(repos, "cachyos"@, 0),
                Level::Pass,
                "CachyOS repositories detected"@,
                Level::Warn,
                "No CachyOS repositories detected (expected for optimized CachyOS setups)"@,
            ),
            either(
                any_repository_optimised_from(repos, 0),
                Level::Pass,
                "Architecture-optimized mirror patterns detected (v3/v4)"@,
                Level::Warn,
                "No architecture-optimized mirror patterns detected (v3/v4)"@,
            ),
        ],
        Distro::Other => seq![
            finding(
                Level::Warn,
                "Distro is not recognized as Arch/CachyOS; only generic checks were applied"@,
            ),
        ],
    }
}

/// All the findings of the health checks, in order: the paths, whether
/// repositories are configured, each repository, whether all of them have
/// an HTTPS mirror, and what depends on the distribution.
pub open spec fn findings_of(c: ConfigModel, f: DoctorFacts) -> Seq<FindingModel> {
    path_findings(f) + seq![
        either(
            c.repositories.len() == 0,
            Level::Fail,
            "No repositories configured"@,
            Level::Pass,
            "Repositories configured"@,
        ),
    ] + repositories_findings_from(c.repositories, 0) + (if !any_insecure_from(c.repositories, 0)
        && c.repositories.len() > 0 {
        seq![finding(Level::Pass, "All repositories include HTTPS mirrors"@)]
    } else {
        Seq::<FindingModel>::empty()
    }) + distro_findings(distro_of(text_view(f.os_release)), c.repositories)
}

/// Adds one of two findings, by a condition.
fn check(
    report: &mut Report,
    cond: bool,
    level: Level,
    label: &str,
    else_level: Level,
    else_label: &str,
)
    requires
        old(report).well_formed(),
    ensures
        final(report).well_formed(),
        final(report).list() == old(report).list().push(
            either(cond, level, label@, else_level, else_label@),
        ),
{
    if cond {
        report.add(level, text(label));
    } else {
        report.add(else_level, text(else_label));
    }
}

/// How many of the mirrors are reached over HTTPS.
fn count_https(servers: &Vec<String>) -> (n: usize)
    ensures
        n == https_count(views(servers@), servers@.len() as int),
        n <= servers@.len(),
{
    let ghost model = views(servers@);
    let mut n: usize = 0;
    let mut i: usize = 0;
    while i < servers.len()
        invariant
            i <= servers.len(),
            model == views(servers@),
            n <= i,
            n == https_count(model, i as int),
        decreases servers.len() - i,
    {
        if starts_with_text(&chars_of(servers[i].as_str()), "https://") {
            n = n + 1;
        }
        i = i + 1;
    }
    n
}

/// Adds the findings about one repository; tells whether it is insecure.
fn check_repository(report: &mut Report, repo: &Repository) -> (bad: bool)
    requires
        old(report).well_formed(),
    ensures
        final(report).well_formed(),
        final(report).list() == old(report).list() + repository_findings(repo@),
        bad == insecure(repo@),
{
    let n = repo.servers.len();
    if n == 0 {
        let mut l = chars_of("Repository '");
        push_text(&mut l, repo.name.as_str());
        push_text(&mut l, "' has no servers");
        report.add(Level::Fail, string_of(&l));
        proof {
            assert(report.list() =~= old(report).list() + repository_findings(repo@));
        }
        return false;
    }
    let secure = count_https(&repo.servers);
    if secure < n {
        let mut l = chars_of("Repository '");
        push_text(&mut l, repo.name.as_str());
        push_text(&mut l, "' has non-HTTPS mirrors (");
        push_chars(&mut l, &decimal((n - secure) as u64));
        push_text(&mut l, " of ");
        push_chars(&mut l, &decimal(n as u64));
        push_text(&mut l, ")");
        report.add(Level::Warn, string_of(&l));
        proof {
            assert(report.list() =~= old(report).list() + repository_findings(repo@));
        }
    } else {
        proof {
            assert(report.list() =~= old(report).list() + repository_findings(repo@));
        }
    }
    secure == 0
}

/// Whether one of the repositories has the name `name`, capitals counting
/// as small letters.
fn has_repository(repos: &Vec<Repository>, name: &str) -> (r: bool)
    ensures
        r == has_repository_from(crate::config::repository_views(repos@), name@, 0),
{
    let ghost model = crate::config::repository_views(repos@);
    let mut i: usize = 0;
    while i < repos.len()
        invariant
            i <= repos.len(),
            model == crate::config::repository_views(repos@),
            has_repository_from(model, name@, 0) == has_repository_from(model, name@, i as int),
        decreases repos.len() - i,
    {
        let l = to_ascii_lowercase(&chars_of(repos[i].name.as_str()));
        proof {
            assert(model[i as int].name == repos@[i as int].name@);
        }
        if is_text(&l, name) {
            return true;
        }
        i = i + 1;
    }
    false
}

/// Whether the name of one of the repositories holds `part`, capitals
/// counting as small letters.
fn has_repository_like(repos: &Vec<Repository>, part: &str) -> (r: bool)
    ensures
        r == has_repository_like_from(crate::config::repository_views(repos@), part@, 0),
{
    let ghost model = crate::config::repository_views(repos@);
    let mut i: usize = 0;
    while i < repos.len()
        invariant
            i <= repos.len(),
            model == crate::config::repository_views(repos@),
            has_repository_like_from(model, part@, 0) == has_repository_like_from(
                model,
                part@,
                i as int,
            ),
        decreases repos.len() - i,
    {
        let l = to_ascii_lowercase(&chars_of(repos[i].name.as_str()));
        proof {
            assert(model[i as int].name == repos@[i as int].name@);
        }
        if contains_text(&l, part) {
            return true;
        }
        i = i + 1;
    }
    false
}

/// Whether one of the mirrors is for an optimised architecture level.
fn any_optimised(servers: &Vec<String>) -> (r: bool)
    ensures
        r == any_optimised_from(views(servers@), 0),
{
    let ghost model = views(servers@);
    let mut j: usize = 0;
    while j < servers.len()
        invariant
            j <= servers.len(),
            model == views(servers@),
            any_optimised_from(model, 0) == any_optimised_from(model, j as int),
        decreases servers.len() - j,
    {
        let s = chars_of(servers[j].as_str());
        if contains_text(&s, "$arch_v3") || contains_text(&s, "$arch_v4") || contains_text(
            &s,
            "x86_64_v3",
        ) || contains_text(&s, "x86_64_v4") {
            return true;
        }
        j = j + 1;
    }
    false
}

/// Whether a mirror of one of the repositories is for an optimised
/// architecture level.
fn any_repository_optimised(repos: &Vec<Repository>) -> (r: bool)
    ensures
        r == any_repository_optimised_from(crate::config::repository_views(repos@), 0),
{
    let ghost model = crate::config::repository_views(repos@);
    let mut i: usize = 0;
    while i < repos.len()
        invariant
            i <= repos.len(),
            model == crate::config::repository_views(repos@),
            any_repository_optimised_from(model, 0) == any_repository_optimised_from(
                model,
                i as int,
            ),
        decreases repos.len() - i,
    {
        proof {
            assert(model[i as int].servers == views(repos@[i as int].servers@));
        }
        if any_optimised(&repos[i].servers) {
            return true;
        }
        i = i + 1;
    }
    false
}

/// Adds the findings about the paths of the system.
fn check_paths(report: &mut Report, f: &DoctorFacts)
    requires
        old(report).well_formed(),
    ensures
        final(report).well_formed(),
        final(report).list() == old(report).list() + path_findings(*f),
{
    check(
        report,
        f.root_exists,
        Level::Pass,
        "Root directory exists",
        Level::Fail,
        "Root directory does not exist",
    );
    check(
        report,
        f.db_path_exists,
        Level::Pass,
        "Package database path exists",
        Level::Fail,
        "Package database path does not exist",
    );
    check(
        report,
        f.local_db_exists,
        Level::Pass,
        "Local package database exists",
        Level::Fail,
        "Local package database is missing",
    );
    check(
        report,
        f.lock_exists,
        Level::Warn,
        "Database lock file exists (possible active package manager or stale lock)",
        Level::Pass,
        "No active database lock file",
    );
    check(
        report,
        f.cache_exists,
        Level::Pass,
        "Package cache path exists",
        Level::Warn,
        "Package cache path is missing",
    );
    check(
        report,
        f.gpg_dir_exists,
        Level::Pass,
        "GPG directory exists",
        Level::Fail,
        "GPG directory is missing",
    );
    check(
        report,
        f.pubring_kbx_exists || f.pubring_gpg_exists,
        Level::Pass,
        "Keyring public keyring file exists",
        Level::Fail,
        "No keyring public keyring file found (pubring.kbx/pubring.gpg)",
    );
    check(
        report,
        f.trustdb_exists,
        Level::Pass,
        "Keyring trustdb exists",
        Level::Warn,
        "Keyring trustdb.gpg not found",
    );
    proof {
        assert(report.list() =~= old(report).list() + path_findings(*f));
    }
}

/// Adds the findings about each repository; tells whether one of them is
/// insecure.
fn check_repositories(report: &mut Report, repos: &Vec<Repository>) -> (bad: bool)
    requires
        old(report).well_formed(),
    ensures
        final(report).well_formed(),
        final(report).list() == old(report).list() + repositories_findings_from(
            crate::config::repository_views(repos@),
            0,
        ),
        bad == any_insecure_from(crate::config::repository_views(repos@), 0),
{
    let ghost model = crate::config::repository_views(repos@);
    let mut bad = false;
    let mut i: usize = 0;
    while i < repos.len()
        invariant
            i <= repos.len(),
            model == crate::config::repository_views(repos@),
            report.well_formed(),
            old(report).list() + repositories_findings_from(model, 0) == report.list()
                + repositories_findings_from(model, i as int),
            any_insecure_from(model, 0) == (bad || any_insecure_from(model, i as int)),
        decreases repos.len() - i,
    {
        let ghost before = report.list();
        proof {
            assert(model[i as int] == repos@[i as int]@);
        }
        let b = check_repository(report, &repos[i]);
        proof {
            assert(before + (repository_findings(model[i as int]) + repositories_findings_from(
                model,
                i + 1,
            )) =~= (before + repository_findings(model[i as int])) + repositories_findings_from(
                model,
                i + 1,
            ));
        }
        if b {
            bad = true;
        }
        i = i + 1;
    }
    proof {
        assert(report.list() + Seq::<FindingModel>::empty() =~= report.list());
    }
    bad
}

/// Adds the findings that depend on the distribution.
fn check_distro(report: &mut Report, d: Distro, repos: &Vec<Repository>)
    requires
        old(report).well_formed(),
    ensures
        final(report).well_formed(),
        final(report).list() == old(report).list() + distro_findings(
            d,
            crate::config::repository_views(repos@),
        ),
{
    match d {
        Distro::Arch => {
            let both = has_repository(repos, "core") && has_repository(repos, "extra");
            check(
                report,
                both,
                Level::Pass,
                "Arch baseline repositories present (core, extra)",
                Level::Warn,
                "Arch baseline repositories missing one of: core, extra",
            );
        },
        Distro::CachyOS => {
            check(
                report,
                has_repository_like(repos, "cachyos"),
                Level::Pass,
                "CachyOS repositories detected",
                Level::Warn,
                "No CachyOS repositories detected (expected for optimized CachyOS setups)",
            );
            check(
                report,
                any_repository_optimised(repos),
                Level::Pass,
                "Architecture-optimized mirror patterns detected (v3/v4)",
                Level::Warn,
                "No architecture-optimized mirror patterns detected (v3/v4)",
            );
        },
        Distro::Other => {
            report.add(
                Level::Warn,
                text("Distro is not recognized as Arch/CachyOS; only generic checks were applied"),
            );
        },
    }
    proof {
        assert(report.list() =~= old(report).list() + distro_findings(
            d,
            crate::config::repository_views(repos@),
        ));
    }
}

/// Runs the health checks on what was found on the system.
pub fn run(config: &PacmanConfig, facts: &DoctorFacts) -> (r: Report)
    ensures
        r.well_formed(),
        r.list() == findings_of(config@, *facts),
{
    let mut report = Report::new();
    check_paths(&mut report, facts);
    check(
        &mut report,
        config.repositories.len() == 0,
        Level::Fail,
        "No repositories configured",
        Level::Pass,
        "Repositories configured",
    );
    let bad = check_repositories(&mut report, &config.repositories);
    if !bad && config.repositories.len() > 0 {
        report.add(Level::Pass, text("All repositories include HTTPS mirrors"));
    }
    let distro = match &facts.os_release {
        Some(t) => detect_distro(Some(t.as_str())),
        None => detect_distro(None),
    };
    check_distro(&mut report, distro, &config.repositories);
    proof {
        assert(report.list() =~= findings_of(config@, *facts));
    }
    report
}

/// The line that shows a finding: its level in brackets, then its label.
pub open spec fn finding_line(f: FindingModel) -> Seq<char> {
    (match f.level {
        Level::Pass => "[OK] "@,
        Level::Warn => "[WARN] "@,
        Level::Fail => "[FAIL] "@,
    }) + f.label
}

/// The lines that open the report: what the checks run on.
pub open spec fn opening(c: ConfigModel, d: Distro) -> Seq<Seq<char>> {
    seq![
        "rustpack doctor"@,
        "Detected distro profile: "@ + distro_name_of(d),
        "Root: "@ + c.root_dir,
        "DBPath: "@ + c.db_path,
        "CacheDir: "@ + c.cache_dir,
        ""@,
    ]
}

/// The line that sums up a report.
pub open spec fn summary_line(ok: nat, warn: nat, fail: nat) -> Seq<char> {
    "Doctor summary: ok="@ + decimal_text(ok) + " warn="@ + decimal_text(warn) + " fail="@
        + decimal_text(fail)
}

/// The lines of a report: its opening, a line for each finding, an empty
/// line and the summary.
pub open spec fn report_lines(
    c: ConfigModel,
    d: Distro,
    findings: Seq<FindingModel>,
    ok: nat,
    warn: nat,
    fail: nat,
) -> Seq<Seq<char>> {
    opening(c, d) + Seq::new(findings.len(), |i: int| finding_line(findings[i])) + seq![
        ""@,
        summary_line(ok, warn, fail),
    ]
}

/// A line made of a label and a text.
fn labelled(label: &str, value: &str) -> (r: String)
    ensures
        r@ == label@ + value@,
{
    let mut out = chars_of(label);
    push_text(&mut out, value);
    string_of(&out)
}

/// The lines that show a report of the health checks.
pub fn render(config: &PacmanConfig, distro: Distro, report: &Report) -> (r: Vec<String>)
    ensures
        views(r@) == report_lines(
            config@,
            distro,
            report.list(),
            report.ok as nat,
            report.warn as nat,
            report.fail as nat,
        ),
{
    let ghost list = report.list();
    let mut out: Vec<String> = Vec::new();
    out.push(text("rustpack doctor"));
    out.push(labelled("Detected distro profile: ", distro_name(distro)));
    out.push(labelled("Root: ", config.root_dir.as_str()));
    out.push(labelled("DBPath: ", config.db_path.as_str()));
    out.push(labelled("CacheDir: ", config.cache_dir.as_str()));
    out.push(text(""));
    proof {
        assert(views(out@) =~= opening(config@, distro));
    }
    let mut i: usize = 0;
    while i < report.findings.len()
        invariant
            i <= report.findings.len(),
            list == report.list(),
            out@.len() == 6 + i,
            forall|k: int| 0 <= k < 6 ==> #[trigger] out@[k]@ == opening(config@, distro)[k],
            forall|k: int| 0 <= k < i ==> #[trigger] out@[6 + k]@ == finding_line(list[k]),
        decreases report.findings.len() - i,
    {
        let f = &report.findings[i];
        let line = match f.level {
            Level::Pass => labelled("[OK] ", f.label.as_str()),
            Level::Warn => labelled("[WARN] ", f.label.as_str()),
            Level::Fail => labelled("[FAIL] ", f.label.as_str()),
        };
        proof {
            assert(line@ == finding_line(list[i as int]));
        }
        let ghost prev = out@;
        out.push(line);
        proof {
            assert forall|k: int| 0 <= k < i + 1 implies #[trigger] out@[6 + k]@ == finding_line(
                list[k],
            ) by {
                if k < i {
                    assert(out@[6 + k] == prev[6 + k]);
                }
            }
            assert forall|k: int| 0 <= k < 6 implies #[trigger] out@[k]@ == opening(
                config@,
                distro,
            )[k] by {
                assert(out@[k] == prev[k]);
            }
        }
        i = i + 1;
    }
    let ghost rows = out@;
    out.push(text(""));
    let mut l = chars_of("Doctor summary: ok=");
    push_chars(&mut l, &decimal(report.ok as u64));
    push_text(&mut l, " warn=");
    push_chars(&mut l, &decimal(report.warn as u64));
    push_text(&mut l, " fail=");
    push_chars(&mut l, &decimal(report.fail as u64));
    out.push(string_of(&l));
    proof {
        let want = report_lines(
            config@,
            distro,
            list,
            report.ok as nat,
            report.warn as nat,
            report.fail as nat,
        );
        assert(want.len() == out@.len());
        assert forall|k: int| 0 <= k < out@.len() implies views(out@)[k] == want[k] by {
            if k < 6 {
                assert(out@[k] == rows[k]);
            } else if k < 6 + i {
                assert(out@[k] == rows[6 + (k - 6)]);
            }
        }
        assert(views(out@) =~= report_lines(
            config@,
            distro,
            list,
            report.ok as nat,
            report.warn as nat,
            report.fail as nat,
        ));
    }
    out
}

} // verus!
