//! The command model: operations, their option flags, the cross-cutting
//! global options, and the errors that command-line parsing can report.

use vstd::prelude::*;
use vstd::string::*;
use crate::text::{push_text, string_of, views};

verus! {

/// The kind of work a command line asks for.
#[derive(Clone, Copy, Debug, PartialEq, Eq, Structural)]
pub enum Operation {
    Sync,
    Query,
    Remove,
    Upgrade,
    Doctor,
    History,
    Help,
}

/// Sub-flags of the sync operation.
#[derive(Clone, Copy, Debug, PartialEq, Eq, Structural)]
pub struct SyncFlags {
    pub refresh: bool,
    pub upgrade: bool,
    pub search: bool,
    pub info: bool,
    pub clean_cache: u8,
}

impl Default for SyncFlags {
    fn default() -> (r: Self)
        ensures
            r == (SyncFlags {
                refresh: false,
                upgrade: false,
                search: false,
                info: false,
                clean_cache: 0,
            }),
    {
        SyncFlags { refresh: false, upgrade: false, search: false, info: false, clean_cache: 0 }
    }
}

/// Sub-flags of the query operation.
#[derive(Clone, Copy, Debug, PartialEq, Eq, Structural)]
pub struct QueryFlags {
    pub info: bool,
    pub search: bool,
    pub list_files: bool,
    pub manual: bool,
    pub owns: bool,
    pub explicit: bool,
    pub reverse_deps: bool,
}

impl Default for QueryFlags {
    fn default() -> (r: Self)
        ensures
            r == (QueryFlags {
                info: false,
                search: false,
                list_files: false,
                manual: false,
                owns: false,
                explicit: false,
                reverse_deps: false,
            }),
    {
        QueryFlags {
            info: false,
            search: false,
            list_files: false,
            manual: false,
            owns: false,
            explicit: false,
            reverse_deps: false,
        }
    }
}

/// Sub-flags of the remove operation.
#[derive(Clone, Copy, Debug, PartialEq, Eq, Structural)]
pub struct RemoveFlags {
    pub recursive: bool,
    pub nosave: bool,
}

impl Default for RemoveFlags {
    fn default() -> (r: Self)
        ensures
            r == (RemoveFlags { recursive: false, nosave: false }),
    {
        RemoveFlags { recursive: false, nosave: false }
    }
}

/// Settings that apply whatever the operation is.
///
/// `nodeps` is the dependency-check bypass level: 0 keeps all checks, 1 skips
/// dependency resolution, 2 or more also skips version checks.
#[derive(Clone, Debug, PartialEq, Eq)]
pub struct GlobalFlags {
    pub noconfirm: bool,
    pub needed: bool,
    pub overwrite: Vec<String>,
    pub asdeps: bool,
    pub asexplicit: bool,
    pub nodeps: u8,
    pub noscriptlet: bool,
    pub root_dir: Option<String>,
    pub db_path: Option<String>,
    pub cache_dir: Option<String>,
    pub test: bool,
    pub strict: bool,
    pub compact: bool,
    pub verbose: bool,
}

/// The mathematical content of a [`GlobalFlags`].
pub struct GlobalModel {
    pub noconfirm: bool,
    pub needed: bool,
    pub overwrite: Seq<Seq<char>>,
    pub asdeps: bool,
    pub asexplicit: bool,
    pub nodeps: u8,
    pub noscriptlet: bool,
    pub root_dir: Option<Seq<char>>,
    pub db_path: Option<Seq<char>>,
    pub cache_dir: Option<Seq<char>>,
    pub test: bool,
    pub strict: bool,
    pub compact: bool,
    pub verbose: bool,
}

/// The view of an optional string.
pub open spec fn opt_view(s: Option<String>) -> Option<Seq<char>> {
    match s {
        Some(v) => Some(v@),
        None => None,
    }
}

/// The global options with nothing set.
pub open spec fn default_global() -> GlobalModel {
    GlobalModel {
        noconfirm: false,
        needed: false,
        overwrite: Seq::empty(),
        asdeps: false,
        asexplicit: false,
        nodeps: 0,
        noscriptlet: false,
        root_dir: None,
        db_path: None,
        cache_dir: None,
        test: false,
        strict: false,
        compact: false,
        verbose: false,
    }
}

impl View for GlobalFlags {
    type V = GlobalModel;

    open spec fn view(&self) -> GlobalModel {
        GlobalModel {
            noconfirm: self.noconfirm,
            needed: self.needed,
            overwrite: views(self.overwrite@),
            asdeps: self.asdeps,
            asexplicit: self.asexplicit,
            nodeps: self.nodeps,
            noscriptlet: self.noscriptlet,
            root_dir: opt_view(self.root_dir),
            db_path: opt_view(self.db_path),
            cache_dir: opt_view(self.cache_dir),
            test: self.test,
            strict: self.strict,
            compact: self.compact,
            verbose: self.verbose,
        }
    }
}

impl Default for GlobalFlags {
    fn default() -> (r: Self)
        ensures
            r@ == default_global(),
    {
        let r = GlobalFlags {
            noconfirm: false,
            needed: false,
            overwrite: Vec::new(),
            asdeps: false,
            asexplicit: false,
            nodeps: 0,
            noscriptlet: false,
            root_dir: None,
            db_path: None,
            cache_dir: None,
            test: false,
            strict: false,
            compact: false,
            verbose: false,
        };
        proof {
            assert(views(r.overwrite@) =~= Seq::<Seq<char>>::empty());
        }
        r
    }
}

/// A long option that takes a value.
#[derive(Clone, Copy, Debug, PartialEq, Eq, Structural)]
pub enum ValueOption {
    Overwrite,
    Root,
    DbPath,
    CacheDir,
}

/// Why a command line was rejected.
#[derive(Clone, Copy, Debug, PartialEq, Eq, Structural)]
pub enum ParseErrorKind {
    /// Two different operations were selected.
    OnlyOneOperation,
    /// A value-taking long option came last and without `=value`.
    MissingValue(ValueOption),
    /// A long option that the option table does not hold.
    InvalidOption,
    /// A short sub-flag that the selected operation does not know.
    InvalidFlag(Operation, char),
    /// No operation was selected.
    NoOperation,
    /// `-Ss` together with `-Si`.
    SearchInfoConflict,
    /// `-Ss` or `-Si` together with `-Sy` or `-Su`.
    SearchWithRefresh,
    /// The operation needs targets and got none.
    NoTargets,
    /// `-Sc` together with another sync mode or with targets.
    CleanCacheConflict,
    /// `--asdeps` together with `--asexplicit`.
    ReasonConflict,
    /// More than one query mode.
    QueryModeConflict,
    /// `-Qm` with targets.
    ManualTakesNoTargets,
    /// An install-only option on `-R`.
    InvalidRemoveOptions,
    /// `doctor` with short sub-flags.
    DoctorFlags,
    /// `doctor` with targets.
    DoctorTargets,
    /// `history` with short sub-flags.
    HistoryFlags,
    /// `--needed`, `--asdeps`, `--asexplicit` or `--noscriptlet` outside `-S`.
    InstallOnlyOptions,
    /// `--overwrite` outside `-S`.
    OverwriteOnlySync,
    /// A dependency bypass on `-Q`.
    NodepsOnQuery,
    /// `--compact` together with `--verbose`.
    CompactVerbose,
    /// Strict mode with a dependency bypass.
    StrictNodeps,
    /// Strict mode with scriptlets suppressed.
    StrictNoscriptlet,
    /// Strict mode with an overwrite pattern.
    StrictOverwrite,
}

/// A rejected command line: the reason and, for an unknown long option, the
/// offending token (empty otherwise).
#[derive(Clone, Debug, PartialEq, Eq)]
pub struct ParseError {
    pub kind: ParseErrorKind,
    pub token: String,
}

/// The mathematical content of a [`ParseError`].
pub struct ParseErrorModel {
    pub kind: ParseErrorKind,
    pub token: Seq<char>,
}

impl View for ParseError {
    type V = ParseErrorModel;

    open spec fn view(&self) -> ParseErrorModel {
        ParseErrorModel { kind: self.kind, token: self.token@ }
    }
}

/// The error of kind `kind` that names no token.
pub open spec fn plain_error(kind: ParseErrorKind) -> ParseErrorModel {
    ParseErrorModel { kind, token: Seq::empty() }
}

/// The letter that selects `op` on the command line.
pub open spec fn operation_letter(op: Operation) -> Seq<char> {
    match op {
        Operation::Sync => "S"@,
        Operation::Query => "Q"@,
        Operation::Remove => "R"@,
        Operation::Upgrade => "U"@,
        Operation::Doctor => "doctor"@,
        Operation::History => "history"@,
        Operation::Help => "h"@,
    }
}

/// The spelling of a value-taking long option.
pub open spec fn option_name(opt: ValueOption) -> Seq<char> {
    match opt {
        ValueOption::Overwrite => "--overwrite"@,
        ValueOption::Root => "--root"@,
        ValueOption::DbPath => "--dbpath"@,
        ValueOption::CacheDir => "--cachedir"@,
    }
}

/// The text of the message that reports `e` to the user.
pub open spec fn message_of(e: ParseErrorModel) -> Seq<char> {
    match e.kind {
        ParseErrorKind::OnlyOneOperation => "error: only one operation may be used at a time"@,
        ParseErrorKind::MissingValue(opt) => "error: "@ + option_name(opt) + " requires a value"@,
        ParseErrorKind::InvalidOption => "error: invalid option '"@ + e.token + "'"@,
        ParseErrorKind::InvalidFlag(op, c) => "error: invalid option '-"@ + seq![c] + "' for -"@
            + operation_letter(op),
        ParseErrorKind::NoOperation => "error: no operation specified (use -h for help)"@,
        ParseErrorKind::SearchInfoConflict => "error: only one of -s or -i can be used with -S"@,
        ParseErrorKind::SearchWithRefresh => "error: -s/-i cannot be combined with -y/-u"@,
        ParseErrorKind::NoTargets => "error: no targets specified (use -h for help)"@,
        ParseErrorKind::CleanCacheConflict => "error: -Sc/-Scc cannot be combined with other -S options"@,
        ParseErrorKind::ReasonConflict => "error: --asdeps and --asexplicit cannot be used together"@,
        ParseErrorKind::QueryModeConflict => "error: only one of -i, -s, -l, -m, -o, -e, or -r can be used with -Q"@,
        ParseErrorKind::ManualTakesNoTargets => "error: -Qm does not take targets"@,
        ParseErrorKind::InvalidRemoveOptions => "error: invalid options for -R"@,
        ParseErrorKind::DoctorFlags => "error: doctor does not accept short operation flags"@,
        ParseErrorKind::DoctorTargets => "error: doctor does not take targets"@,
        ParseErrorKind::HistoryFlags => "error: history does not accept short operation flags"@,
        ParseErrorKind::InstallOnlyOptions => "error: --needed/--asdeps/--asexplicit/--noscriptlet only apply to -S"@,
        ParseErrorKind::OverwriteOnlySync => "error: --overwrite only applies to -S"@,
        ParseErrorKind::NodepsOnQuery => "error: --nodeps only applies to -S/-R/-U"@,
        ParseErrorKind::CompactVerbose => "error: --compact and --verbose cannot be used together"@,
        ParseErrorKind::StrictNodeps => "error: --strict disallows --nodeps/-d/-dd"@,
        ParseErrorKind::StrictNoscriptlet => "error: --strict disallows --noscriptlet"@,
        ParseErrorKind::StrictOverwrite => "error: --strict disallows --overwrite"@,
    }
}

/// The letter that selects `op`, as text.
pub fn operation_text(op: Operation) -> (r: &'static str)
    ensures
        r@ == operation_letter(op),
{
    match op {
        Operation::Sync => "S",
        Operation::Query => "Q",
        Operation::Remove => "R",
        Operation::Upgrade => "U",
        Operation::Doctor => "doctor",
        Operation::History => "history",
        Operation::Help => "h",
    }
}

/// The spelling of a value-taking long option, as text.
pub fn option_text(opt: ValueOption) -> (r: &'static str)
    ensures
        r@ == option_name(opt),
{
    match opt {
        ValueOption::Overwrite => "--overwrite",
        ValueOption::Root => "--root",
        ValueOption::DbPath => "--dbpath",
        ValueOption::CacheDir => "--cachedir",
    }
}

impl ParseError {
    /// The error of kind `kind` that names no token.
    pub fn of_kind(kind: ParseErrorKind) -> (e: ParseError)
        ensures
            e@ == plain_error(kind),
    {
        ParseError { kind, token: String::new() }
    }

    /// The message that reports this error to the user.
    pub fn message(&self) -> (s: String)
        ensures
            s@ == message_of(self@),
    {
        let mut out: Vec<char> = Vec::new();
        match self.kind {
            ParseErrorKind::OnlyOneOperation => push_text(
                &mut out,
                "error: only one operation may be used at a time",
            ),
            ParseErrorKind::MissingValue(opt) => {
                push_text(&mut out, "error: ");
                push_text(&mut out, option_text(opt));
                push_text(&mut out, " requires a value");
            },
            ParseErrorKind::InvalidOption => {
                push_text(&mut out, "error: invalid option '");
                push_text(&mut out, self.token.as_str());
                push_text(&mut out, "'");
            },
            ParseErrorKind::InvalidFlag(op, c) => {
                push_text(&mut out, "error: invalid option '-");
                out.push(c);
                push_text(&mut out, "' for -");
                push_text(&mut out, operation_text(op));
                proof {
                    assert(out@ =~= message_of(self@));
                }
            },
            ParseErrorKind::NoOperation => push_text(
                &mut out,
                "error: no operation specified (use -h for help)",
            ),
            ParseErrorKind::SearchInfoConflict => push_text(
                &mut out,
                "error: only one of -s or -i can be used with -S",
            ),
            ParseErrorKind::SearchWithRefresh => push_text(
                &mut out,
                "error: -s/-i cannot be combined with -y/-u",
            ),
            ParseErrorKind::NoTargets => push_text(
                &mut out,
                "error: no targets specified (use -h for help)",
            ),
            ParseErrorKind::CleanCacheConflict => push_text(
                &mut out,
                "error: -Sc/-Scc cannot be combined with other -S options",
            ),
            ParseErrorKind::ReasonConflict => push_text(
                &mut out,
                "error: --asdeps and --asexplicit cannot be used together",
            ),
            ParseErrorKind::QueryModeConflict => push_text(
                &mut out,
                "error: only one of -i, -s, -l, -m, -o, -e, or -r can be used with -Q",
            ),
            ParseErrorKind::ManualTakesNoTargets => push_text(
                &mut out,
                "error: -Qm does not take targets",
            ),
            ParseErrorKind::InvalidRemoveOptions => push_text(
                &mut out,
                "error: invalid options for -R",
            ),
            ParseErrorKind::DoctorFlags => push_text(
                &mut out,
                "error: doctor does not accept short operation flags",
            ),
            ParseErrorKind::DoctorTargets => push_text(
                &mut out,
                "error: doctor does not take targets",
            ),
            ParseErrorKind::HistoryFlags => push_text(
                &mut out,
                "error: history does not accept short operation flags",
            ),
            ParseErrorKind::InstallOnlyOptions => push_text(
                &mut out,
                "error: --needed/--asdeps/--asexplicit/--noscriptlet only apply to -S",
            ),
            ParseErrorKind::OverwriteOnlySync => push_text(
                &mut out,
                "error: --overwrite only applies to -S",
            ),
            ParseErrorKind::NodepsOnQuery => push_text(
                &mut out,
                "error: --nodeps only applies to -S/-R/-U",
            ),
            ParseErrorKind::CompactVerbose => push_text(
                &mut out,
                "error: --compact and --verbose cannot be used together",
            ),
            ParseErrorKind::StrictNodeps => push_text(
                &mut out,
                "error: --strict disallows --nodeps/-d/-dd",
            ),
            ParseErrorKind::StrictNoscriptlet => push_text(
                &mut out,
                "error: --strict disallows --noscriptlet",
            ),
            ParseErrorKind::StrictOverwrite => push_text(
                &mut out,
                "error: --strict disallows --overwrite",
            ),
        }
        proof {
            assert(out@ =~= message_of(self@));
        }
        string_of(&out)
    }
}

/// A parsed and validated command line.
#[derive(Clone, Debug, PartialEq, Eq)]
pub struct ParsedArgs {
    pub op: Operation,
    pub sync: SyncFlags,
    pub query: QueryFlags,
    pub remove: RemoveFlags,
    pub targets: Vec<String>,
    pub global: GlobalFlags,
}

/// The mathematical content of a [`ParsedArgs`].
pub struct ParsedModel {
    pub op: Operation,
    pub sync: SyncFlags,
    pub query: QueryFlags,
    pub remove: RemoveFlags,
    pub targets: Seq<Seq<char>>,
    pub global: GlobalModel,
}

impl View for ParsedArgs {
    type V = ParsedModel;

    open spec fn view(&self) -> ParsedModel {
        ParsedModel {
            op: self.op,
            sync: self.sync,
            query: self.query,
            remove: self.remove,
            targets: views(self.targets@),
            global: self.global@,
        }
    }
}

} // verus!
