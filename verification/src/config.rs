//! The package manager's configuration: its model, its defaults, the reading
//! of the configuration text, and the overrides from the command line.

use vstd::prelude::*;
use vstd::string::*;
use crate::cli::{opt_view, GlobalFlags, GlobalModel};
use crate::text::{
    char_views, chars_of, has_prefix, is_text, lines_of, push_text, replace, replaced, split_lines,
    starts_with_text, string_of, text, trim, trimmed, views,
};

verus! {

/// A package repository: its name, its mirrors in order of preference and
/// its signature level as the configuration spells it.
#[derive(Debug, Clone, PartialEq, Eq)]
pub struct Repository {
    pub name: String,
    pub servers: Vec<String>,
    pub sig_level: String,
}

/// The mathematical content of a [`Repository`].
pub struct RepositoryModel {
    pub name: Seq<char>,
    pub servers: Seq<Seq<char>>,
    pub sig_level: Seq<char>,
}

impl View for Repository {
    type V = RepositoryModel;

    open spec fn view(&self) -> RepositoryModel {
        RepositoryModel { name: self.name@, servers: views(self.servers@), sig_level: self.sig_level@ }
    }
}

/// The views of a sequence of repositories.
pub open spec fn repository_views(v: Seq<Repository>) -> Seq<RepositoryModel> {
    Seq::new(v.len(), |i: int| v[i]@)
}

/// The settings of the package manager.
#[derive(Debug, Clone, PartialEq, Eq)]
pub struct PacmanConfig {
    pub root_dir: String,
    pub db_path: String,
    pub cache_dir: String,
    pub hook_dirs: Vec<String>,
    pub gpg_dir: Option<String>,
    pub log_file: Option<String>,
    pub use_syslog: bool,
    pub check_space: bool,
    pub architectures: Vec<String>,
    pub sig_level: Option<String>,
    pub local_file_sig_level: Option<String>,
    pub remote_file_sig_level: Option<String>,
    pub repositories: Vec<Repository>,
}

/// The mathematical content of a [`PacmanConfig`].
pub struct ConfigModel {
    pub root_dir: Seq<char>,
    pub db_path: Seq<char>,
    pub cache_dir: Seq<char>,
    pub hook_dirs: Seq<Seq<char>>,
    pub gpg_dir: Option<Seq<char>>,
    pub log_file: Option<Seq<char>>,
    pub use_syslog: bool,
    pub check_space: bool,
    pub architectures: Seq<Seq<char>>,
    pub sig_level: Option<Seq<char>>,
    pub local_file_sig_level: Option<Seq<char>>,
    pub remote_file_sig_level: Option<Seq<char>>,
    pub repositories: Seq<RepositoryModel>,
}

impl View for PacmanConfig {
    type V = ConfigModel;

    open spec fn view(&self) -> ConfigModel {
        ConfigModel {
            root_dir: self.root_dir@,
            db_path: self.db_path@,
            cache_dir: self.cache_dir@,
            hook_dirs: views(self.hook_dirs@),
            gpg_dir: opt_view(self.gpg_dir),
            log_file: opt_view(self.log_file),
            use_syslog: self.use_syslog,
            check_space: self.check_space,
            architectures: views(self.architectures@),
            sig_level: opt_view(self.sig_level),
            local_file_sig_level: opt_view(self.local_file_sig_level),
            remote_file_sig_level: opt_view(self.remote_file_sig_level),
            repositories: repository_views(self.repositories@),
        }
    }
}

/// The settings in force when the configuration says nothing.
pub open spec fn default_config() -> ConfigModel {
    ConfigModel {
        root_dir: "/"@,
        db_path: "/var/lib/pacman"@,
        cache_dir: "/var/cache/pacman/pkg"@,
        hook_dirs: Seq::empty(),
        gpg_dir: None,
        log_file: None,
        use_syslog: false,
        check_space: false,
        architectures: Seq::empty(),
        sig_level: None,
        local_file_sig_level: None,
        remote_file_sig_level: None,
        repositories: Seq::empty(),
    }
}

impl Default for PacmanConfig {
    fn default() -> (r: Self)
        ensures
            r@ == default_config(),
    {
        let r = PacmanConfig {
            root_dir: text("/"),
            db_path: text("/var/lib/pacman"),
            cache_dir: text("/var/cache/pacman/pkg"),
            hook_dirs: Vec::new(),
            gpg_dir: None,
            log_file: None,
            use_syslog: false,
            check_space: false,
            architectures: Vec::new(),
            sig_level: None,
            local_file_sig_level: None,
            remote_file_sig_level: None,
            repositories: Vec::new(),
        };
        proof {
            assert(views(r.hook_dirs@) =~= Seq::<Seq<char>>::empty());
            assert(views(r.architectures@) =~= Seq::<Seq<char>>::empty());
            assert(repository_views(r.repositories@) =~= Seq::<RepositoryModel>::empty());
        }
        r
    }
}

/// A mirror address with its placeholders filled in: first the repository
/// name for `$repo`, then the two optimised architecture names for
/// `$arch_v3` and `$arch_v4`, last the architecture for `$arch`.
pub open spec fn expanded_url(
    server: Seq<char>,
    repo_name: Seq<char>,
    arch: Seq<char>,
    arch_v3: Seq<char>,
    arch_v4: Seq<char>,
) -> Seq<char> {
    replaced(
        replaced(
            replaced(replaced(server, "$repo"@, repo_name), "$arch_v3"@, arch_v3),
            "$arch_v4"@,
            arch_v4,
        ),
        "$arch"@,
        arch,
    )
}

/// Fills in the placeholders of a mirror address.
pub fn expand_server_url(
    server: &str,
    repo_name: &str,
    arch: &str,
    arch_v3: &str,
    arch_v4: &str,
) -> (r: String)
    ensures
        r@ == expanded_url(server@, repo_name@, arch@, arch_v3@, arch_v4@),
{
    proof {
        reveal_strlit("$repo");
        reveal_strlit("$arch_v3");
        reveal_strlit("$arch_v4");
        reveal_strlit("$arch");
    }
    let s0 = chars_of(server);
    let s1 = replace(&s0, &chars_of("$repo"), &chars_of(repo_name));
    let s2 = replace(&s1, &chars_of("$arch_v3"), &chars_of(arch_v3));
    let s3 = replace(&s2, &chars_of("$arch_v4"), &chars_of(arch_v4));
    let s4 = replace(&s3, &chars_of("$arch"), &chars_of(arch));
    string_of(&s4)
}

/// The base architecture of `arch`: `x86_64` for its optimised levels, else
/// `arch` itself.
pub open spec fn base_arch(arch: Seq<char>) -> Seq<char> {
    if has_prefix(arch, "x86_64_v"@) {
        "x86_64"@
    } else {
        arch
    }
}

/// The base architecture of `arch` and the names of its two optimised
/// levels; an architecture other than `x86_64` has no such levels and
/// stands in for them itself.
pub open spec fn arch_variants_of(arch: Seq<char>) -> (Seq<char>, Seq<char>, Seq<char>) {
    let base = base_arch(arch);
    if base == "x86_64"@ {
        (base, base + "_v3"@, base + "_v4"@)
    } else {
        (base, base, base)
    }
}

/// The base architecture of `arch` and the names of its optimised levels.
pub fn arch_variants(arch: &str) -> (r: (String, String, String))
    ensures
        (r.0@, r.1@, r.2@) == arch_variants_of(arch@),
{
    let a = chars_of(arch);
    let base: Vec<char> = if starts_with_text(&a, "x86_64_v") {
        chars_of("x86_64")
    } else {
        a
    };
    if is_text(&base, "x86_64") {
        let mut v3 = base.clone();
        push_text(&mut v3, "_v3");
        let mut v4 = base.clone();
        push_text(&mut v4, "_v4");
        (string_of(&base), string_of(&v3), string_of(&v4))
    } else {
        (string_of(&base), string_of(&base), string_of(&base))
    }
}

/// The configuration with the paths that the command line gives in place of
/// its own.
pub open spec fn with_overrides(c: ConfigModel, g: GlobalModel) -> ConfigModel {
    ConfigModel {
        root_dir: match g.root_dir {
            Some(v) => v,
            None => c.root_dir,
        },
        db_path: match g.db_path {
            Some(v) => v,
            None => c.db_path,
        },
        cache_dir: match g.cache_dir {
            Some(v) => v,
            None => c.cache_dir,
        },
        ..c
    }
}

/// The configuration in force: what the configuration text gave, with the
/// root, database and cache paths of the command line in place of its own.
pub fn effective_config(config: PacmanConfig, global: &GlobalFlags) -> (r: PacmanConfig)
    ensures
        r@ == with_overrides(config@, global@),
{
    let mut config = config;
    match &global.root_dir {
        Some(v) => {
            config.root_dir = v.clone();
        },
        None => {},
    }
    match &global.db_path {
        Some(v) => {
            config.db_path = v.clone();
        },
        None => {},
    }
    match &global.cache_dir {
        Some(v) => {
            config.cache_dir = v.clone();
        },
        None => {},
    }
    config
}

/// The cache directory in force.
pub fn get_cache_dir(config: &PacmanConfig, global: &GlobalFlags) -> (r: String)
    ensures
        r@ == with_overrides(config@, global@).cache_dir,
{
    match &global.cache_dir {
        Some(v) => v.clone(),
        None => config.cache_dir.clone(),
    }
}


/// What the regular expression `pattern` captures in `text`: `None` where
/// the pattern is no valid expression or matches nowhere in the text, else
/// the text of each capture group of the leftmost match, group 0 (the whole
/// match) first, with `None` for a group that took no part in the match.
pub uninterp spec fn regex_groups(pattern: Seq<char>, text: Seq<char>) -> Option<
    Seq<Option<Seq<char>>>,
>;

/// The views of capture groups.
pub open spec fn group_views(g: Seq<Option<String>>) -> Seq<Option<Seq<char>>> {
    Seq::new(g.len(), |i: int| opt_view(g[i]))
}

/// The capture groups of the leftmost match of `pattern` in `text`.
///
/// Trusted: wraps `regex::Regex::new` and `regex::Regex::captures`. The
/// result is a function of the two texts alone; nothing more is claimed of
/// it than that it is what those two calls give.
#[verifier::external_body]
fn regex_captures(pattern: &str, text: &str) -> (r: Option<Vec<Option<String>>>)
    ensures
        match r {
            Some(g) => regex_groups(pattern@, text@) == Some(group_views(g@)),
            None => regex_groups(pattern@, text@) is None,
        },
{
    match regex::Regex::new(pattern) {
        Err(_) => None,
        Ok(re) => match re.captures(text) {
            None => None,
            Some(caps) => Some(caps.iter().map(|m| m.map(|x| x.as_str().to_string())).collect()),
        },
    }
}

/// The expression that a section header matches: a bracketed name at the
/// start of the line.
pub open spec fn section_pattern() -> Seq<char> {
    "^\\[([^\\]]+)\\]"@
}

/// The expression that a setting matches: a key, `=`, and a value.
pub open spec fn setting_pattern() -> Seq<char> {
    "^(\\w+)\\s*=\\s*(.+)"@
}

/// The expression that a mirror line of a mirror list matches.
pub open spec fn mirror_pattern() -> Seq<char> {
    "^\\s*Server\\s*=\\s*(.+)"@
}

/// Capture group `k` of `pattern` in `text`, if the pattern matches and the
/// group took part.
pub open spec fn group(pattern: Seq<char>, text: Seq<char>, k: int) -> Option<Seq<char>> {
    match regex_groups(pattern, text) {
        Some(g) => if 0 <= k < g.len() {
            g[k]
        } else {
            None
        },
        None => None,
    }
}

/// The name of the section that `line` opens, if it is a section header.
pub open spec fn section_name(line: Seq<char>) -> Option<Seq<char>> {
    group(section_pattern(), line, 1)
}

/// The key and the value of the setting that `line` holds, if it holds one.
pub open spec fn setting_of(line: Seq<char>) -> Option<(Seq<char>, Seq<char>)> {
    match (group(setting_pattern(), line, 1), group(setting_pattern(), line, 2)) {
        (Some(k), Some(v)) => Some((k, v)),
        _ => None,
    }
}

/// The mirror address that a line of a mirror list gives, if it gives one.
pub open spec fn mirror_of(line: Seq<char>) -> Option<Seq<char>> {
    group(mirror_pattern(), line, 1)
}

/// The mirror addresses that the lines from index `i` on give.
pub open spec fn mirrors_from(lines: Seq<Seq<char>>, i: int) -> Seq<Seq<char>>
    decreases lines.len() - i,
{
    if i < 0 || i >= lines.len() {
        Seq::empty()
    } else {
        match mirror_of(lines[i]) {
            Some(v) => seq![v] + mirrors_from(lines, i + 1),
            None => mirrors_from(lines, i + 1),
        }
    }
}

/// The mirror addresses that a mirror list gives, in order.
pub open spec fn mirrorlist_servers(content: Seq<char>) -> Seq<Seq<char>> {
    mirrors_from(lines_of(content), 0)
}

/// Picks capture group `k`, if the groups hold it.
fn pick_group(groups: &Option<Vec<Option<String>>>, k: usize) -> (r: Option<String>)
    ensures
        opt_view(r) == (match groups {
            Some(g) => if k < g@.len() {
                opt_view(g@[k as int])
            } else {
                None
            },
            None => None,
        }),
{
    match groups {
        Some(g) => {
            if k < g.len() {
                match &g[k] {
                    Some(s) => Some(s.clone()),
                    None => None,
                }
            } else {
                None
            }
        },
        None => None,
    }
}

/// Reads the mirror addresses of a mirror list.
pub fn parse_mirrorlist(content: &str) -> (r: Vec<String>)
    ensures
        views(r@) == mirrorlist_servers(content@),
{
    let lines = split_lines(&chars_of(content));
    let ghost model = char_views(lines@);
    let mut out: Vec<String> = Vec::new();
    let mut i: usize = 0;
    proof {
        assert(views(out@) =~= Seq::<Seq<char>>::empty());
    }
    while i < lines.len()
        invariant
            i <= lines.len(),
            model == char_views(lines@),
            mirrors_from(model, 0) == views(out@) + mirrors_from(model, i as int),
        decreases lines.len() - i,
    {
        let ghost before = views(out@);
        let line = string_of(&lines[i]);
        let groups = regex_captures("^\\s*Server\\s*=\\s*(.+)", line.as_str());
        proof {
            assert(line@ == model[i as int]);
        }
        match pick_group(&groups, 1) {
            Some(v) => {
                out.push(v);
                proof {
                    assert(views(out@) =~= before + seq![v@]);
                    assert(before + (seq![v@] + mirrors_from(model, i + 1)) =~= (before + seq![
                        v@,
                    ]) + mirrors_from(model, i + 1));
                }
            },
            None => {},
        }
        i = i + 1;
    }
    proof {
        assert(views(out@) + Seq::<Seq<char>>::empty() =~= views(out@));
    }
    out
}

/// A file that the configuration includes: its path as the configuration
/// spells it, and its text, or `None` when it could not be read.
#[derive(Debug, Clone, PartialEq, Eq)]
pub struct IncludedFile {
    pub path: String,
    pub content: Option<String>,
}

/// The mathematical content of an [`IncludedFile`].
pub struct IncludedModel {
    pub path: Seq<char>,
    pub content: Option<Seq<char>>,
}

impl View for IncludedFile {
    type V = IncludedModel;

    open spec fn view(&self) -> IncludedModel {
        IncludedModel { path: self.path@, content: opt_view(self.content) }
    }
}

/// The views of a sequence of included files.
pub open spec fn included_views(v: Seq<IncludedFile>) -> Seq<IncludedModel> {
    Seq::new(v.len(), |i: int| v[i]@)
}

/// The text of the first file at or after index `i` whose path is `path`;
/// `None` when there is no such file or it could not be read.
pub open spec fn included_text(files: Seq<IncludedModel>, path: Seq<char>, i: int) -> Option<
    Seq<char>,
>
    decreases files.len() - i,
{
    if i < 0 || i >= files.len() {
        None
    } else if files[i].path == path {
        files[i].content
    } else {
        included_text(files, path, i + 1)
    }
}

/// The mirrors that including `path` adds: those of its mirror list, or
/// none when the file could not be read.
pub open spec fn included_servers(files: Seq<IncludedModel>, path: Seq<char>) -> Seq<Seq<char>> {
    match included_text(files, path, 0) {
        Some(content) => mirrorlist_servers(content),
        None => Seq::empty(),
    }
}

/// Where the reading of the configuration stands: the settings so far, the
/// repository whose section is open, and whether the options section is.
pub struct ReadState {
    pub config: ConfigModel,
    pub repo: Option<RepositoryModel>,
    pub in_options: bool,
}

/// The settings with the open repository added, if there is one and it has
/// a mirror.
pub open spec fn closed(c: ConfigModel, repo: Option<RepositoryModel>) -> ConfigModel {
    match repo {
        Some(r) => if r.servers.len() > 0 {
            ConfigModel { repositories: c.repositories.push(r), ..c }
        } else {
            c
        },
        None => c,
    }
}

/// The state after a section header that names `name`.
pub open spec fn open_section(st: ReadState, name: Seq<char>) -> ReadState {
    ReadState {
        config: closed(st.config, st.repo),
        repo: if name == "options"@ {
            None
        } else {
            Some(
                RepositoryModel {
                    name,
                    servers: Seq::empty(),
                    sig_level: "Required DatabaseOptional"@,
                },
            )
        },
        in_options: name == "options"@,
    }
}

/// The state after the setting `key = value`.
pub open spec fn apply_setting(
    st: ReadState,
    key: Seq<char>,
    value: Seq<char>,
    files: Seq<IncludedModel>,
) -> ReadState {
    let c = st.config;
    if key == "RootDir"@ {
        ReadState { config: ConfigModel { root_dir: value, ..c }, ..st }
    } else if key == "DBPath"@ {
        ReadState { config: ConfigModel { db_path: value, ..c }, ..st }
    } else if key == "CacheDir"@ {
        ReadState { config: ConfigModel { cache_dir: value, ..c }, ..st }
    } else if key == "HookDir"@ && st.in_options {
        ReadState { config: ConfigModel { hook_dirs: c.hook_dirs.push(value), ..c }, ..st }
    } else if key == "GPGDir"@ && st.in_options {
        ReadState { config: ConfigModel { gpg_dir: Some(value), ..c }, ..st }
    } else if key == "LogFile"@ && st.in_options {
        ReadState { config: ConfigModel { log_file: Some(value), ..c }, ..st }
    } else if key == "Architecture"@ && st.in_options {
        ReadState { config: ConfigModel { architectures: c.architectures.push(value), ..c }, ..st }
    } else if key == "SigLevel"@ && st.in_options {
        ReadState { config: ConfigModel { sig_level: Some(value), ..c }, ..st }
    } else if key == "LocalFileSigLevel"@ && st.in_options {
        ReadState { config: ConfigModel { local_file_sig_level: Some(value), ..c }, ..st }
    } else if key == "RemoteFileSigLevel"@ && st.in_options {
        ReadState { config: ConfigModel { remote_file_sig_level: Some(value), ..c }, ..st }
    } else if key == "Server"@ {
        match st.repo {
            Some(r) => ReadState {
                repo: Some(RepositoryModel { servers: r.servers.push(value), ..r }),
                ..st
            },
            None => st,
        }
    } else if key == "Include"@ {
        match st.repo {
            Some(r) => ReadState {
                repo: Some(
                    RepositoryModel { servers: r.servers + included_servers(files, value), ..r },
                ),
                ..st
            },
            None => st,
        }
    } else if key == "SigLevel"@ {
        match st.repo {
            Some(r) => ReadState { repo: Some(RepositoryModel { sig_level: value, ..r }), ..st },
            None => st,
        }
    } else {
        st
    }
}

/// The state after a line that is no section header: `line` is the line
/// without the white space around it and `setting` the key and the value
/// that it holds, if it holds any. In the options section the two switches
/// count before any setting.
pub open spec fn apply_plain(
    st: ReadState,
    line: Seq<char>,
    setting: Option<(Seq<char>, Seq<char>)>,
    files: Seq<IncludedModel>,
) -> ReadState {
    if st.in_options && line == "CheckSpace"@ {
        ReadState { config: ConfigModel { check_space: true, ..st.config }, ..st }
    } else if st.in_options && line == "UseSyslog"@ {
        ReadState { config: ConfigModel { use_syslog: true, ..st.config }, ..st }
    } else {
        match setting {
            Some((key, value)) => apply_setting(st, key, value, files),
            None => st,
        }
    }
}

/// The state after one line of the configuration text: an empty line and a
/// comment change nothing, a section header opens its section, and any
/// other line is read for a switch or a setting.
pub open spec fn read_line(st: ReadState, raw: Seq<char>, files: Seq<IncludedModel>) -> ReadState {
    let line = trimmed(raw);
    if line.len() == 0 || line[0] == '#' {
        st
    } else {
        match section_name(line) {
            Some(name) => open_section(st, name),
            None => apply_plain(st, line, setting_of(line), files),
        }
    }
}

/// The state after the lines from index `i` on.
pub open spec fn read_from(
    lines: Seq<Seq<char>>,
    i: int,
    st: ReadState,
    files: Seq<IncludedModel>,
) -> ReadState
    decreases lines.len() - i,
{
    if i < 0 || i >= lines.len() {
        st
    } else {
        read_from(lines, i + 1, read_line(st, lines[i], files), files)
    }
}

/// The settings that a configuration text gives, with `files` as the texts
/// of the mirror lists that it includes.
pub open spec fn parsed_config(content: Seq<char>, files: Seq<IncludedModel>) -> ConfigModel {
    let end = read_from(lines_of(content), 0, initial_read_state(), files);
    closed(end.config, end.repo)
}

/// The state of the reading of a configuration text: the settings so far,
/// the repository whose section is open, and whether the options section
/// is.
#[derive(Debug, Clone, PartialEq, Eq)]
pub struct ConfigReader {
    pub config: PacmanConfig,
    pub repo: Option<Repository>,
    pub in_options: bool,
}

/// The view of an optional repository.
pub open spec fn opt_repository_view(r: Option<Repository>) -> Option<RepositoryModel> {
    match r {
        Some(v) => Some(v@),
        None => None,
    }
}

impl View for ConfigReader {
    type V = ReadState;

    open spec fn view(&self) -> ReadState {
        ReadState {
            config: self.config@,
            repo: opt_repository_view(self.repo),
            in_options: self.in_options,
        }
    }
}

/// Adds the open repository to the settings, if it has a mirror.
fn close_repository(config: &mut PacmanConfig, repo: Option<Repository>)
    ensures
        final(config)@ == closed(old(config)@, opt_repository_view(repo)),
{
    match repo {
        Some(r) => {
            if r.servers.len() > 0 {
                config.repositories.push(r);
                proof {
                    assert(repository_views(config.repositories@) =~= repository_views(
                        old(config).repositories@,
                    ).push(r@));
                }
            }
        },
        None => {},
    }
}

/// The mirrors that including `path` adds.
fn servers_of_included(files: &Vec<IncludedFile>, path: &Vec<char>) -> (r: Vec<String>)
    ensures
        views(r@) == included_servers(included_views(files@), path@),
{
    let ghost model = included_views(files@);
    let mut i: usize = 0;
    while i < files.len()
        invariant
            i <= files.len(),
            model == included_views(files@),
            included_text(model, path@, 0) == included_text(model, path@, i as int),
        decreases files.len() - i,
    {
        if is_text(path, files[i].path.as_str()) {
            proof {
                assert(model[i as int].path == path@);
            }
            match &files[i].content {
                Some(content) => {
                    return parse_mirrorlist(content.as_str());
                },
                None => {
                    let none: Vec<String> = Vec::new();
                    proof {
                        assert(views(none@) =~= Seq::<Seq<char>>::empty());
                    }
                    return none;
                },
            }
        }
        proof {
            assert(model[i as int].path != path@);
        }
        i = i + 1;
    }
    let none: Vec<String> = Vec::new();
    proof {
        assert(views(none@) =~= Seq::<Seq<char>>::empty());
    }
    none
}

/// Appends `more` to `dst`.
fn extend_strings(dst: &mut Vec<String>, more: Vec<String>)
    ensures
        views(final(dst)@) == views(old(dst)@) + views(more@),
{
    let mut i: usize = 0;
    proof {
        assert(views(dst@) =~= views(old(dst)@) + views(more@.subrange(0, 0)));
    }
    while i < more.len()
        invariant
            i <= more.len(),
            views(dst@) == views(old(dst)@) + views(more@.subrange(0, i as int)),
        decreases more.len() - i,
    {
        let ghost before = views(dst@);
        let item = more[i].clone();
        dst.push(item);
        i = i + 1;
        proof {
            assert(views(more@.subrange(0, i as int)) =~= views(more@.subrange(0, i - 1)).push(
                more@[i - 1]@,
            ));
            assert(views(dst@) =~= before.push(item@));
            assert(views(dst@) =~= views(old(dst)@) + views(more@.subrange(0, i as int)));
        }
    }
    proof {
        assert(more@.subrange(0, i as int) =~= more@);
    }
}

/// Applies the setting `key = value`.
fn apply(rd: ConfigReader, key: &Vec<char>, value: String, files: &Vec<IncludedFile>) -> (r:
    ConfigReader)
    ensures
        r@ == apply_setting(rd@, key@, value@, included_views(files@)),
{
    let mut rd = rd;
    if is_text(key, "RootDir") {
        rd.config.root_dir = value;
    } else if is_text(key, "DBPath") {
        rd.config.db_path = value;
    } else if is_text(key, "CacheDir") {
        rd.config.cache_dir = value;
    } else if is_text(key, "HookDir") && rd.in_options {
        let ghost before = views(rd.config.hook_dirs@);
        rd.config.hook_dirs.push(value);
        proof {
            assert(views(rd.config.hook_dirs@) =~= before.push(value@));
        }
    } else if is_text(key, "GPGDir") && rd.in_options {
        rd.config.gpg_dir = Some(value);
    } else if is_text(key, "LogFile") && rd.in_options {
        rd.config.log_file = Some(value);
    } else if is_text(key, "Architecture") && rd.in_options {
        let ghost before = views(rd.config.architectures@);
        rd.config.architectures.push(value);
        proof {
            assert(views(rd.config.architectures@) =~= before.push(value@));
        }
    } else if is_text(key, "SigLevel") && rd.in_options {
        rd.config.sig_level = Some(value);
    } else if is_text(key, "LocalFileSigLevel") && rd.in_options {
        rd.config.local_file_sig_level = Some(value);
    } else if is_text(key, "RemoteFileSigLevel") && rd.in_options {
        rd.config.remote_file_sig_level = Some(value);
    } else if is_text(key, "Server") {
        match rd.repo {
            Some(r) => {
                let mut r = r;
                let ghost before = views(r.servers@);
                r.servers.push(value);
                proof {
                    assert(views(r.servers@) =~= before.push(value@));
                }
                rd.repo = Some(r);
            },
            None => {
                rd.repo = None;
            },
        }
    } else if is_text(key, "Include") {
        match rd.repo {
            Some(r) => {
                let mut r = r;
                let more = servers_of_included(files, &chars_of(value.as_str()));
                extend_strings(&mut r.servers, more);
                rd.repo = Some(r);
            },
            None => {
                rd.repo = None;
            },
        }
    } else if is_text(key, "SigLevel") {
        match rd.repo {
            Some(r) => {
                let mut r = r;
                r.sig_level = value;
                rd.repo = Some(r);
            },
            None => {
                rd.repo = None;
            },
        }
    }
    rd
}

/// The state before the first line.
pub open spec fn initial_read_state() -> ReadState {
    ReadState { config: default_config(), repo: None, in_options: false }
}

/// The view of an optional setting.
pub open spec fn setting_view(s: Option<(String, String)>) -> Option<(Seq<char>, Seq<char>)> {
    match s {
        Some((k, v)) => Some((k@, v@)),
        None => None,
    }
}

impl ConfigReader {
    /// The reader before the first line.
    pub fn new() -> (r: ConfigReader)
        ensures
            r@ == initial_read_state(),
    {
        ConfigReader { config: PacmanConfig::default(), repo: None, in_options: false }
    }

    /// Reads a section header that names `name`: the repository that was
    /// open is added to the settings if it has a mirror, and the named
    /// section is opened, which is a repository unless its name is
    /// `options`.
    pub fn section(self, name: String) -> (r: ConfigReader)
        ensures
            r@ == open_section(self@, name@),
    {
        let mut rd = self;
        let prev = rd.repo;
        close_repository(&mut rd.config, prev);
        if is_text(&chars_of(name.as_str()), "options") {
            rd.in_options = true;
            rd.repo = None;
        } else {
            rd.in_options = false;
            let repo = Repository {
                name,
                servers: Vec::new(),
                sig_level: text("Required DatabaseOptional"),
            };
            proof {
                assert(views(repo.servers@) =~= Seq::<Seq<char>>::empty());
            }
            rd.repo = Some(repo);
        }
        rd
    }

    /// Reads a line that is no section header: `line` is the line without
    /// the white space around it and `setting` the key and the value that
    /// it holds, if it holds any.
    pub fn plain(self, line: &str, setting: Option<(String, String)>, files: &Vec<IncludedFile>) -> (r:
        ConfigReader)
        ensures
            r@ == apply_plain(self@, line@, setting_view(setting), included_views(files@)),
    {
        let mut rd = self;
        let l = chars_of(line);
        if rd.in_options && is_text(&l, "CheckSpace") {
            rd.config.check_space = true;
            rd
        } else if rd.in_options && is_text(&l, "UseSyslog") {
            rd.config.use_syslog = true;
            rd
        } else {
            match setting {
                Some((key, value)) => apply(rd, &chars_of(key.as_str()), value, files),
                None => rd,
            }
        }
    }

    /// Ends the reading: the repository that is open is added to the
    /// settings if it has a mirror.
    pub fn finish(self) -> (r: PacmanConfig)
        ensures
            r@ == closed(self@.config, self@.repo),
    {
        let mut config = self.config;
        close_repository(&mut config, self.repo);
        config
    }
}

/// Reads one line of the configuration text.
fn read_one(rd: ConfigReader, raw: &Vec<char>, files: &Vec<IncludedFile>) -> (r: ConfigReader)
    ensures
        r@ == read_line(rd@, raw@, included_views(files@)),
{
    let line = trim(raw);
    if line.len() == 0 || line[0] == '#' {
        return rd;
    }
    let line_text = string_of(&line);
    let header = regex_captures("^\\[([^\\]]+)\\]", line_text.as_str());
    match pick_group(&header, 1) {
        Some(name) => rd.section(name),
        None => {
            let groups = regex_captures("^(\\w+)\\s*=\\s*(.+)", line_text.as_str());
            let setting = match (pick_group(&groups, 1), pick_group(&groups, 2)) {
                (Some(key), Some(value)) => Some((key, value)),
                _ => None,
            };
            rd.plain(line_text.as_str(), setting, files)
        },
    }
}

/// Reads the configuration text. `files` holds, for each mirror list that
/// the text includes, its text or the fact that it could not be read; a
/// list that is not among them counts as unreadable and adds no mirror.
pub fn parse_pacman_config(content: &str, files: &Vec<IncludedFile>) -> (r: PacmanConfig)
    ensures
        r@ == parsed_config(content@, included_views(files@)),
{
    let lines = split_lines(&chars_of(content));
    let ghost model = char_views(lines@);
    let ghost fm = included_views(files@);
    let mut rd = ConfigReader::new();
    let ghost start = rd@;
    let mut i: usize = 0;
    while i < lines.len()
        invariant
            i <= lines.len(),
            model == char_views(lines@),
            fm == included_views(files@),
            read_from(model, 0, start, fm) == read_from(model, i as int, rd@, fm),
        decreases lines.len() - i,
    {
        rd = read_one(rd, &lines[i], files);
        i = i + 1;
    }
    rd.finish()
}

/// The values of the `Include` settings among the lines from index `i` on.
pub open spec fn includes_from(lines: Seq<Seq<char>>, i: int) -> Seq<Seq<char>>
    decreases lines.len() - i,
{
    if i < 0 || i >= lines.len() {
        Seq::empty()
    } else {
        let line = trimmed(lines[i]);
        let rest = includes_from(lines, i + 1);
        if line.len() == 0 || line[0] == '#' {
            rest
        } else {
            match setting_of(line) {
                Some((key, value)) => if key == "Include"@ {
                    seq![value] + rest
                } else {
                    rest
                },
                None => rest,
            }
        }
    }
}

/// The paths of the files that the configuration text asks to include, in
/// the order of its lines: those to read before the text is parsed.
pub fn include_paths(content: &str) -> (r: Vec<String>)
    ensures
        views(r@) == includes_from(lines_of(content@), 0),
{
    let lines = split_lines(&chars_of(content));
    let ghost model = char_views(lines@);
    let mut out: Vec<String> = Vec::new();
    let mut i: usize = 0;
    proof {
        assert(views(out@) =~= Seq::<Seq<char>>::empty());
    }
    while i < lines.len()
        invariant
            i <= lines.len(),
            model == char_views(lines@),
            includes_from(model, 0) == views(out@) + includes_from(model, i as int),
        decreases lines.len() - i,
    {
        let ghost before = views(out@);
        let line = trim(&lines[i]);
        if !(line.len() == 0 || line[0] == '#') {
            let line_text = string_of(&line);
            let setting = regex_captures("^(\\w+)\\s*=\\s*(.+)", line_text.as_str());
            match (pick_group(&setting, 1), pick_group(&setting, 2)) {
                (Some(key), Some(value)) => {
                    if is_text(&chars_of(key.as_str()), "Include") {
                        out.push(value);
                        proof {
                            assert(views(out@) =~= before + seq![value@]);
                            assert(before + (seq![value@] + includes_from(model, i + 1)) =~= (before
                                + seq![value@]) + includes_from(model, i + 1));
                        }
                    }
                },
                _ => {},
            }
        }
        i = i + 1;
    }
    proof {
        assert(views(out@) + Seq::<Seq<char>>::empty() =~= views(out@));
    }
    out
}

} // verus!
