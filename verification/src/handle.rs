//! The settings with which the package library is set up: signature
//! levels, architectures, hook directories and repositories with their
//! mirrors, all worked out from the configuration and the command line.

use vstd::prelude::*;
use vstd::string::*;
use crate::cli::{opt_view, GlobalFlags, GlobalModel};
use crate::config::{
    arch_variants, arch_variants_of, expand_server_url, expanded_url, repository_views,
    ConfigModel, PacmanConfig, Repository, RepositoryModel,
};
use crate::text::{
    chars_of, contains_string, contains_text, has_infix, has_word, is_text, lowered, push_text,
    split_words, string_of, text, to_ascii_lowercase, views, words_of,
};

verus! {

/// How strictly signatures are checked.
#[derive(Clone, Copy, Debug, PartialEq, Eq, Structural)]
pub struct SigLevel {
    /// Packages must be signed.
    pub package: bool,
    /// A package without a signature is accepted.
    pub package_optional: bool,
    /// Databases must be signed.
    pub database: bool,
    /// A database without a signature is accepted.
    pub database_optional: bool,
    /// The default level of the package library is used.
    pub use_default: bool,
}

/// The level that checks nothing.
pub open spec fn no_checks() -> SigLevel {
    SigLevel {
        package: false,
        package_optional: false,
        database: false,
        database_optional: false,
        use_default: false,
    }
}

/// The level that stands for the default of the package library.
pub open spec fn default_level() -> SigLevel {
    SigLevel { use_default: true, ..no_checks() }
}

/// The level that the words of a setting give.
pub open spec fn level_of_words(words: Seq<Seq<char>>) -> SigLevel {
    SigLevel {
        package: words.contains("Required"@),
        package_optional: words.contains("Optional"@),
        database: words.contains("DatabaseRequired"@),
        database_optional: words.contains("DatabaseOptional"@),
        use_default: false,
    }
}

/// The signature level that a setting gives, if it gives one: none when
/// the setting is absent or empty; the default where it holds `UseDefault`;
/// no checks where it holds `Never`; else what its words ask for, or none
/// when they ask for nothing.
pub open spec fn siglevel_of(input: Option<Seq<char>>) -> Option<SigLevel> {
    match input {
        None => None,
        Some(s) => if s.len() == 0 {
            None
        } else if has_infix(s, "UseDefault"@) {
            Some(default_level())
        } else if has_infix(s, "Never"@) {
            Some(no_checks())
        } else if level_of_words(words_of(s)) == no_checks() {
            None
        } else {
            Some(level_of_words(words_of(s)))
        },
    }
}

/// The signature level that a setting gives, if it gives one.
pub fn parse_siglevel(input: Option<&String>) -> (r: Option<SigLevel>)
    ensures
        r == siglevel_of(
            match input {
                Some(s) => Some(s@),
                None => None,
            },
        ),
{
    let s = match input {
        None => {
            return None;
        },
        Some(s) => chars_of(s.as_str()),
    };
    if s.len() == 0 {
        return None;
    }
    if contains_text(&s, "UseDefault") {
        return Some(
            SigLevel {
                package: false,
                package_optional: false,
                database: false,
                database_optional: false,
                use_default: true,
            },
        );
    }
    let none = SigLevel {
        package: false,
        package_optional: false,
        database: false,
        database_optional: false,
        use_default: false,
    };
    if contains_text(&s, "Never") {
        return Some(none);
    }
    let words = split_words(&s);
    let level = SigLevel {
        package: has_word(&words, "Required"),
        package_optional: has_word(&words, "Optional"),
        database: has_word(&words, "DatabaseRequired"),
        database_optional: has_word(&words, "DatabaseOptional"),
        use_default: false,
    };
    if level == none {
        None
    } else {
        Some(level)
    }
}

/// The signature level for package files given on the command line: what
/// the configuration sets for them, else the default.
pub fn local_file_siglevel(config: &PacmanConfig) -> (r: SigLevel)
    ensures
        r == (match siglevel_of(config@.local_file_sig_level) {
            Some(l) => l,
            None => default_level(),
        }),
{
    let parsed = match &config.local_file_sig_level {
        Some(s) => parse_siglevel(Some(s)),
        None => parse_siglevel(None),
    };
    match parsed {
        Some(l) => l,
        None => SigLevel {
            package: false,
            package_optional: false,
            database: false,
            database_optional: false,
            use_default: true,
        },
    }
}

/// Whether a signature level, as the configuration spells it, is too weak
/// for strict mode: it is when it holds `never` or does not hold
/// `required`, capitals counting as small letters.
pub open spec fn weak(raw: Seq<char>) -> bool {
    has_infix(lowered(raw), "never"@) || !has_infix(lowered(raw), "required"@)
}

/// Whether a signature level is too weak for strict mode.
pub fn siglevel_is_weak(raw: &str) -> (r: bool)
    ensures
        r == weak(raw@),
{
    let l = to_ascii_lowercase(&chars_of(raw));
    contains_text(&l, "never") || !contains_text(&l, "required")
}

/// The setting that strict mode finds too weak.
#[derive(Clone, Copy, Debug, PartialEq, Eq, Structural)]
pub enum WeakSetting {
    SigLevel,
    LocalFileSigLevel,
    RemoteFileSigLevel,
    Repository,
}

/// A configuration that strict mode refuses: the setting, the repository it
/// belongs to (empty for a global setting) and the level that was found.
#[derive(Clone, Debug, PartialEq, Eq)]
pub struct StrictError {
    pub setting: WeakSetting,
    pub repo: String,
    pub found: String,
}

/// The index of the first repository at or after `i` whose signature level
/// is weak, or the number of repositories when none is.
pub open spec fn first_weak(repos: Seq<RepositoryModel>, i: int) -> int
    decreases repos.len() - i,
{
    if i < 0 || i >= repos.len() {
        repos.len() as int
    } else if weak(repos[i].sig_level) {
        i
    } else {
        first_weak(repos, i + 1)
    }
}

/// Whether an optional signature level is set and weak.
pub open spec fn set_and_weak(level: Option<Seq<char>>) -> bool {
    match level {
        Some(s) => weak(s),
        None => false,
    }
}

/// What strict mode refuses in a configuration, if anything: the first weak
/// one of the global level, the level for local files, the level for
/// remote files, and the levels of the repositories in their order. Without
/// strict mode nothing is refused.
pub open spec fn strict_violation(c: ConfigModel, g: GlobalModel) -> Option<
    (WeakSetting, Seq<char>, Seq<char>),
> {
    if !g.strict {
        None
    } else if set_and_weak(c.sig_level) {
        Some((WeakSetting::SigLevel, Seq::empty(), c.sig_level->Some_0))
    } else if set_and_weak(c.local_file_sig_level) {
        Some((WeakSetting::LocalFileSigLevel, Seq::empty(), c.local_file_sig_level->Some_0))
    } else if set_and_weak(c.remote_file_sig_level) {
        Some((WeakSetting::RemoteFileSigLevel, Seq::empty(), c.remote_file_sig_level->Some_0))
    } else {
        let k = first_weak(c.repositories, 0);
        if k < c.repositories.len() {
            Some((WeakSetting::Repository, c.repositories[k].name, c.repositories[k].sig_level))
        } else {
            None
        }
    }
}

/// The message for a configuration that strict mode refuses.
pub open spec fn strict_message(setting: WeakSetting, repo: Seq<char>, found: Seq<char>) -> Seq<
    char,
> {
    match setting {
        WeakSetting::SigLevel => "error: --strict requires strong SigLevel; found '"@ + found
            + "'"@,
        WeakSetting::LocalFileSigLevel => "error: --strict requires strong LocalFileSigLevel; found '"@
            + found + "'"@,
        WeakSetting::RemoteFileSigLevel => "error: --strict requires strong RemoteFileSigLevel; found '"@
            + found + "'"@,
        WeakSetting::Repository => "error: --strict requires strong repository SigLevel; repo '"@
            + repo + "' has '"@ + found + "'"@,
    }
}

impl StrictError {
    /// The message that reports this refusal to the user.
    pub fn message(&self) -> (r: String)
        ensures
            r@ == strict_message(self.setting, self.repo@, self.found@),
    {
        let mut out: Vec<char> = Vec::new();
        match self.setting {
            WeakSetting::SigLevel => {
                push_text(&mut out, "error: --strict requires strong SigLevel; found '");
            },
            WeakSetting::LocalFileSigLevel => {
                push_text(&mut out, "error: --strict requires strong LocalFileSigLevel; found '");
            },
            WeakSetting::RemoteFileSigLevel => {
                push_text(&mut out, "error: --strict requires strong RemoteFileSigLevel; found '");
            },
            WeakSetting::Repository => {
                push_text(&mut out, "error: --strict requires strong repository SigLevel; repo '");
                push_text(&mut out, self.repo.as_str());
                push_text(&mut out, "' has '");
            },
        }
        push_text(&mut out, self.found.as_str());
        push_text(&mut out, "'");
        proof {
            assert(out@ =~= strict_message(self.setting, self.repo@, self.found@));
        }
        string_of(&out)
    }
}

/// The weak level of an optional setting, if it is set and weak.
fn weak_level(level: &Option<String>) -> (r: Option<String>)
    ensures
        r is Some <==> set_and_weak(opt_view(*level)),
        r matches Some(s) ==> Some(s@) == opt_view(*level),
{
    match level {
        Some(s) => {
            if siglevel_is_weak(s.as_str()) {
                Some(s.clone())
            } else {
                None
            }
        },
        None => None,
    }
}

/// In strict mode, refuses a configuration whose signature levels are
/// weak.
pub fn enforce_strict_config(config: &PacmanConfig, global: &GlobalFlags) -> (r: Result<
    (),
    StrictError,
>)
    ensures
        match strict_violation(config@, global@) {
            None => r is Ok,
            Some((setting, repo, found)) => r matches Err(e) && e.setting == setting && e.repo@
                == repo && e.found@ == found,
        },
{
    if !global.strict {
        return Ok(());
    }
    match weak_level(&config.sig_level) {
        Some(found) => {
            return Err(StrictError { setting: WeakSetting::SigLevel, repo: String::new(), found });
        },
        None => {},
    }
    match weak_level(&config.local_file_sig_level) {
        Some(found) => {
            return Err(
                StrictError { setting: WeakSetting::LocalFileSigLevel, repo: String::new(), found },
            );
        },
        None => {},
    }
    match weak_level(&config.remote_file_sig_level) {
        Some(found) => {
            return Err(
                StrictError { setting: WeakSetting::RemoteFileSigLevel, repo: String::new(), found },
            );
        },
        None => {},
    }
    let ghost model = repository_views(config.repositories@);
    let mut i: usize = 0;
    while i < config.repositories.len()
        invariant
            i <= config.repositories.len(),
            model == repository_views(config.repositories@),
            model == config@.repositories,
            global@.strict,
            !set_and_weak(config@.sig_level),
            !set_and_weak(config@.local_file_sig_level),
            !set_and_weak(config@.remote_file_sig_level),
            first_weak(model, 0) == first_weak(model, i as int),
        decreases config.repositories.len() - i,
    {
        let repo = &config.repositories[i];
        proof {
            assert(model[i as int] == repo@);
        }
        if siglevel_is_weak(repo.sig_level.as_str()) {
            return Err(
                StrictError {
                    setting: WeakSetting::Repository,
                    repo: repo.name.clone(),
                    found: repo.sig_level.clone(),
                },
            );
        }
        i = i + 1;
    }
    Ok(())
}

/// The architecture that stands for `$arch` in mirror addresses: the first
/// one of the configuration, or that of the machine where the
/// configuration names none or says `auto`.
pub open spec fn url_arch_of(c: ConfigModel, machine: Seq<char>) -> Seq<char> {
    if c.architectures.len() == 0 || c.architectures[0] == "auto"@ {
        machine
    } else {
        c.architectures[0]
    }
}

/// The architectures as the configuration lists them, with that of the
/// mirror addresses in place of `auto` and alone where it lists none, and
/// after them the base architecture and its two optimised levels.
pub open spec fn listed_architectures(c: ConfigModel, machine: Seq<char>) -> Seq<Seq<char>> {
    let url_arch = url_arch_of(c, machine);
    let v = arch_variants_of(url_arch);
    (if c.architectures.len() == 0 {
        seq![url_arch]
    } else {
        Seq::new(
            c.architectures.len(),
            |i: int|
                if c.architectures[i] == "auto"@ {
                    url_arch
                } else {
                    c.architectures[i]
                },
        )
    }) + seq![v.0, v.1, v.2]
}

/// `acc` followed by those of `items` from index `i` on that did not occur
/// before.
pub open spec fn deduped_from(items: Seq<Seq<char>>, i: int, acc: Seq<Seq<char>>) -> Seq<
    Seq<char>,
>
    decreases items.len() - i,
{
    if i < 0 || i >= items.len() {
        acc
    } else if acc.contains(items[i]) {
        deduped_from(items, i + 1, acc)
    } else {
        deduped_from(items, i + 1, acc.push(items[i]))
    }
}

/// The architectures that the package library accepts: those listed, each
/// once, in the order of their first occurrence.
pub open spec fn architectures_of(c: ConfigModel, machine: Seq<char>) -> Seq<Seq<char>> {
    deduped_from(listed_architectures(c, machine), 0, Seq::empty())
}

/// `items` with each string once, in the order of first occurrence.
fn dedup(items: &Vec<String>) -> (r: Vec<String>)
    ensures
        views(r@) == deduped_from(views(items@), 0, Seq::empty()),
{
    let ghost model = views(items@);
    let mut out: Vec<String> = Vec::new();
    let mut i: usize = 0;
    proof {
        assert(views(out@) =~= Seq::<Seq<char>>::empty());
    }
    while i < items.len()
        invariant
            i <= items.len(),
            model == views(items@),
            deduped_from(model, 0, Seq::empty()) == deduped_from(model, i as int, views(out@)),
        decreases items.len() - i,
    {
        let ghost before = views(out@);
        if !contains_string(&out, &chars_of(items[i].as_str())) {
            let item = items[i].clone();
            out.push(item);
            proof {
                assert(views(out@) =~= before.push(model[i as int]));
            }
        }
        i = i + 1;
    }
    out
}

/// A repository as the package library registers it.
#[derive(Clone, Debug, PartialEq, Eq)]
pub struct RepoSettings {
    pub name: String,
    pub siglevel: SigLevel,
    /// The mirror addresses with their placeholders filled in.
    pub servers: Vec<String>,
}

/// The settings with which the package library is set up.
#[derive(Clone, Debug, PartialEq, Eq)]
pub struct HandleSettings {
    pub cache_dir: String,
    pub check_space: bool,
    pub log_file: String,
    pub use_syslog: bool,
    pub gpg_dir: String,
    pub architectures: Vec<String>,
    pub default_siglevel: Option<SigLevel>,
    pub local_file_siglevel: Option<SigLevel>,
    pub remote_file_siglevel: Option<SigLevel>,
    pub hook_dirs: Vec<String>,
    pub repositories: Vec<RepoSettings>,
    pub overwrite: Vec<String>,
}

/// The mirror addresses of a repository with their placeholders filled in.
pub open spec fn expanded_servers(r: RepositoryModel, url_arch: Seq<char>) -> Seq<Seq<char>> {
    let v = arch_variants_of(url_arch);
    Seq::new(r.servers.len(), |j: int| expanded_url(r.servers[j], r.name, url_arch, v.1, v.2))
}

/// The signature level of a repository: what its setting gives, else the
/// default.
pub open spec fn repo_siglevel(r: RepositoryModel) -> SigLevel {
    match siglevel_of(Some(r.sig_level)) {
        Some(l) => l,
        None => default_level(),
    }
}

/// Whether `r` is the repository `m` as the package library registers it.
pub open spec fn registers(r: RepoSettings, m: RepositoryModel, url_arch: Seq<char>) -> bool {
    &&& r.name@ == m.name
    &&& r.siglevel == repo_siglevel(m)
    &&& views(r.servers@) == expanded_servers(m, url_arch)
}

/// The hook directories in force: those of the configuration, or the two
/// standard ones where it names none.
pub open spec fn hook_dirs_of(c: ConfigModel) -> Seq<Seq<char>> {
    if c.hook_dirs.len() > 0 {
        c.hook_dirs
    } else {
        seq!["/etc/pacman.d/hooks"@, "/usr/share/libalpm/hooks"@]
    }
}

/// Whether `s` holds the settings that the configuration `c`, the command
/// line `g` and the architecture of the machine give.
pub open spec fn settings_match(
    s: HandleSettings,
    c: ConfigModel,
    g: GlobalModel,
    machine: Seq<char>,
) -> bool {
    &&& s.cache_dir@ == (match g.cache_dir {
        Some(d) => d,
        None => c.cache_dir,
    })
    &&& s.check_space == c.check_space
    &&& s.log_file@ == (match c.log_file {
        Some(f) => f,
        None => "/var/log/pacman.log"@,
    })
    &&& s.use_syslog == c.use_syslog
    &&& s.gpg_dir@ == (match c.gpg_dir {
        Some(d) => d,
        None => "/etc/pacman.d/gnupg"@,
    })
    &&& views(s.architectures@) == architectures_of(c, machine)
    &&& s.default_siglevel == siglevel_of(c.sig_level)
    &&& s.local_file_siglevel == siglevel_of(c.local_file_sig_level)
    &&& s.remote_file_siglevel == siglevel_of(c.remote_file_sig_level)
    &&& views(s.hook_dirs@) == hook_dirs_of(c)
    &&& s.repositories@.len() == c.repositories.len()
    &&& forall|i: int|
        0 <= i < c.repositories.len() ==> registers(
            #[trigger] s.repositories@[i],
            c.repositories[i],
            url_arch_of(c, machine),
        )
    &&& views(s.overwrite@) == g.overwrite
}

/// A copy of a list of strings.
fn copy_strings(items: &Vec<String>) -> (r: Vec<String>)
    ensures
        views(r@) == views(items@),
{
    let mut out: Vec<String> = Vec::new();
    let mut i: usize = 0;
    while i < items.len()
        invariant
            i <= items.len(),
            out@.len() == i,
            forall|j: int| 0 <= j < i ==> #[trigger] out@[j]@ == items@[j]@,
        decreases items.len() - i,
    {
        out.push(items[i].clone());
        i = i + 1;
    }
    proof {
        assert(views(out@) =~= views(items@));
    }
    out
}

/// The signature level of an optional setting.
fn level_of(level: &Option<String>) -> (r: Option<SigLevel>)
    ensures
        r == siglevel_of(opt_view(*level)),
{
    match level {
        Some(s) => parse_siglevel(Some(s)),
        None => parse_siglevel(None),
    }
}

/// The text of an optional setting, or `fallback` where it is not set.
fn setting_or(value: &Option<String>, fallback: &str) -> (r: String)
    ensures
        r@ == (match opt_view(*value) {
            Some(v) => v,
            None => fallback@,
        }),
{
    match value {
        Some(v) => v.clone(),
        None => text(fallback),
    }
}

/// The architecture that stands for `$arch` in mirror addresses.
fn url_arch(config: &PacmanConfig, machine_arch: &str) -> (r: String)
    ensures
        r@ == url_arch_of(config@, machine_arch@),
{
    if config.architectures.len() == 0 {
        return text(machine_arch);
    }
    proof {
        assert(config@.architectures[0] == config.architectures@[0]@);
    }
    if is_text(&chars_of(config.architectures[0].as_str()), "auto") {
        text(machine_arch)
    } else {
        config.architectures[0].clone()
    }
}

/// The architectures that the package library accepts.
fn architectures(config: &PacmanConfig, machine_arch: &str) -> (r: Vec<String>)
    ensures
        views(r@) == architectures_of(config@, machine_arch@),
{
    let ua = url_arch(config, machine_arch);
    let (base, v3, v4) = arch_variants(ua.as_str());
    let mut all: Vec<String> = Vec::new();
    let n = config.architectures.len();
    if n == 0 {
        all.push(ua.clone());
    } else {
        let mut i: usize = 0;
        while i < n
            invariant
                i <= n,
                n == config.architectures.len(),
                ua@ == url_arch_of(config@, machine_arch@),
                all@.len() == i,
                forall|j: int|
                    0 <= j < i ==> #[trigger] all@[j]@ == (if config@.architectures[j] == "auto"@ {
                        ua@
                    } else {
                        config@.architectures[j]
                    }),
            decreases n - i,
        {
            proof {
                assert(config@.architectures[i as int] == config.architectures@[i as int]@);
            }
            if is_text(&chars_of(config.architectures[i].as_str()), "auto") {
                all.push(ua.clone());
            } else {
                all.push(config.architectures[i].clone());
            }
            i = i + 1;
        }
    }
    all.push(base);
    all.push(v3);
    all.push(v4);
    proof {
        assert(views(all@) =~= listed_architectures(config@, machine_arch@));
    }
    dedup(&all)
}

/// A repository as the package library registers it.
fn register(repo: &Repository, ua: &str, v3: &str, v4: &str) -> (r: RepoSettings)
    requires
        v3@ == arch_variants_of(ua@).1,
        v4@ == arch_variants_of(ua@).2,
    ensures
        registers(r, repo@, ua@),
{
    let siglevel = match parse_siglevel(Some(&repo.sig_level)) {
        Some(l) => l,
        None => SigLevel {
            package: false,
            package_optional: false,
            database: false,
            database_optional: false,
            use_default: true,
        },
    };
    let mut servers: Vec<String> = Vec::new();
    let mut j: usize = 0;
    while j < repo.servers.len()
        invariant
            j <= repo.servers.len(),
            servers@.len() == j,
            forall|k: int|
                0 <= k < j ==> #[trigger] servers@[k]@ == expanded_url(
                    repo.servers@[k]@,
                    repo.name@,
                    ua@,
                    v3@,
                    v4@,
                ),
        decreases repo.servers.len() - j,
    {
        servers.push(
            expand_server_url(repo.servers[j].as_str(), repo.name.as_str(), ua, v3, v4),
        );
        j = j + 1;
    }
    proof {
        assert(views(servers@) =~= expanded_servers(repo@, ua@));
    }
    RepoSettings { name: repo.name.clone(), siglevel, servers }
}

/// The settings with which the package library is set up for the
/// configuration in force, the command line, and the architecture that the
/// machine reports.
pub fn handle_settings(config: &PacmanConfig, global: &GlobalFlags, machine_arch: &str) -> (r:
    HandleSettings)
    ensures
        settings_match(r, config@, global@, machine_arch@),
{
    let ua = url_arch(config, machine_arch);
    let (_, v3, v4) = arch_variants(ua.as_str());
    let mut repositories: Vec<RepoSettings> = Vec::new();
    let mut i: usize = 0;
    while i < config.repositories.len()
        invariant
            i <= config.repositories.len(),
            ua@ == url_arch_of(config@, machine_arch@),
            v3@ == arch_variants_of(ua@).1,
            v4@ == arch_variants_of(ua@).2,
            repositories@.len() == i,
            forall|k: int|
                0 <= k < i ==> registers(
                    #[trigger] repositories@[k],
                    config@.repositories[k],
                    ua@,
                ),
        decreases config.repositories.len() - i,
    {
        proof {
            assert(config@.repositories[i as int] == config.repositories@[i as int]@);
        }
        repositories.push(register(&config.repositories[i], ua.as_str(), v3.as_str(), v4.as_str()));
        i = i + 1;
    }
    let hook_dirs: Vec<String> = if config.hook_dirs.len() > 0 {
        copy_strings(&config.hook_dirs)
    } else {
        let mut h: Vec<String> = Vec::new();
        h.push(text("/etc/pacman.d/hooks"));
        h.push(text("/usr/share/libalpm/hooks"));
        proof {
            assert(views(h@) =~= hook_dirs_of(config@));
        }
        h
    };
    HandleSettings {
        cache_dir: match &global.cache_dir {
            Some(d) => d.clone(),
            None => config.cache_dir.clone(),
        },
        check_space: config.check_space,
        log_file: setting_or(&config.log_file, "/var/log/pacman.log"),
        use_syslog: config.use_syslog,
        gpg_dir: setting_or(&config.gpg_dir, "/etc/pacman.d/gnupg"),
        architectures: architectures(config, machine_arch),
        default_siglevel: level_of(&config.sig_level),
        local_file_siglevel: level_of(&config.local_file_sig_level),
        remote_file_siglevel: level_of(&config.remote_file_sig_level),
        hook_dirs,
        repositories,
        overwrite: copy_strings(&global.overwrite),
    }
}

} // verus!
