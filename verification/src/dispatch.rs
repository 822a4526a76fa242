//! From a validated command to the work it asks for: which operation runs,
//! what it needs before it may run, and what the user is warned of.

use vstd::prelude::*;
use vstd::string::*;
use crate::cli::{GlobalFlags, GlobalModel, Operation, ParsedArgs, ParsedModel};
use crate::transaction::Preflight;
use crate::text::{
    chars_of, contains_text, has_infix, is_text, lowered, push_text, string_of, text,
    to_ascii_lowercase, views,
};

verus! {

/// The work that a command asks for.
#[derive(Clone, Copy, Debug, PartialEq, Eq, Structural)]
pub enum Route {
    /// Search the repositories for the targets.
    SearchRepos,
    /// Show the details of each target from the repositories.
    SyncInfo,
    /// Clean the package cache, at the given level.
    CleanCache(u8),
    /// Refresh, upgrade, and install the targets, as asked.
    SyncInstall { refresh: bool, upgrade: bool },
    /// Install the targets from the repositories.
    InstallPackages,
    /// Show the details of each installed target.
    QueryInfo,
    /// Search the installed packages for the targets.
    QuerySearch,
    /// List the files of each target.
    ListFiles,
    /// List the installed packages that no repository holds.
    ListManual,
    /// Say which package owns each target path.
    Owns,
    /// List the packages installed on request.
    ListExplicit,
    /// Of the targets, list those installed on request.
    QueryExplicit,
    /// Say what needs each target.
    ReverseDependencies,
    /// List the installed packages.
    ListInstalled,
    /// List the targets as installed.
    QueryPackages,
    /// Remove the targets.
    Remove,
    /// Install the package files that the targets name.
    InstallLocal,
    /// Run the health checks.
    Doctor,
    /// Show the history.
    History,
    /// Show how the program is used.
    Usage,
}

/// The work that a command asks for and what it needs.
#[derive(Clone, Copy, Debug, PartialEq, Eq, Structural)]
pub struct Step {
    pub route: Route,
    /// Whether the work changes the system and so is for root only.
    pub needs_root: bool,
    pub preflight: Preflight,
}

/// A step that only reads.
pub open spec fn reading(route: Route) -> Step {
    Step { route, needs_root: false, preflight: Preflight::Nothing }
}

/// The step of a sync command: a search or an information request only
/// reads; cleaning the cache needs an unlocked database; everything else
/// needs the full checks, and is a sync where a refresh or an upgrade is
/// asked for or no target is named, else a plain install.
pub open spec fn sync_step(p: ParsedModel) -> Step {
    let s = p.sync;
    if s.search {
        reading(Route::SearchRepos)
    } else if s.info {
        reading(Route::SyncInfo)
    } else if s.clean_cache > 0 {
        Step {
            route: Route::CleanCache(s.clean_cache),
            needs_root: true,
            preflight: Preflight::Unlocked,
        }
    } else if s.refresh || s.upgrade || p.targets.len() == 0 {
        Step {
            route: Route::SyncInstall { refresh: s.refresh, upgrade: s.upgrade },
            needs_root: true,
            preflight: Preflight::Full,
        }
    } else {
        Step { route: Route::InstallPackages, needs_root: true, preflight: Preflight::Full }
    }
}

/// The step of a query command: the mode that is set decides, and with no
/// mode the targets do, a list of all where there are none.
pub open spec fn query_step(p: ParsedModel) -> Step {
    let q = p.query;
    reading(
        if q.info {
            Route::QueryInfo
        } else if q.search {
            Route::QuerySearch
        } else if q.list_files {
            Route::ListFiles
        } else if q.manual {
            Route::ListManual
        } else if q.owns {
            Route::Owns
        } else if q.explicit {
            if p.targets.len() == 0 {
                Route::ListExplicit
            } else {
                Route::QueryExplicit
            }
        } else if q.reverse_deps {
            Route::ReverseDependencies
        } else if p.targets.len() == 0 {
            Route::ListInstalled
        } else {
            Route::QueryPackages
        },
    )
}

/// The step of a command.
pub open spec fn step_of(p: ParsedModel) -> Step {
    match p.op {
        Operation::Sync => sync_step(p),
        Operation::Query => query_step(p),
        Operation::Remove => Step {
            route: Route::Remove,
            needs_root: true,
            preflight: Preflight::Unlocked,
        },
        Operation::Upgrade => Step {
            route: Route::InstallLocal,
            needs_root: true,
            preflight: Preflight::Full,
        },
        Operation::Doctor => reading(Route::Doctor),
        Operation::History => reading(Route::History),
        Operation::Help => reading(Route::Usage),
    }
}

/// The step of a sync command.
pub fn handle_sync(parsed: &ParsedArgs) -> (r: Step)
    ensures
        r == sync_step(parsed@),
{
    let s = parsed.sync;
    if s.search {
        Step { route: Route::SearchRepos, needs_root: false, preflight: Preflight::Nothing }
    } else if s.info {
        Step { route: Route::SyncInfo, needs_root: false, preflight: Preflight::Nothing }
    } else if s.clean_cache > 0 {
        Step {
            route: Route::CleanCache(s.clean_cache),
            needs_root: true,
            preflight: Preflight::Unlocked,
        }
    } else if s.refresh || s.upgrade || parsed.targets.len() == 0 {
        Step {
            route: Route::SyncInstall { refresh: s.refresh, upgrade: s.upgrade },
            needs_root: true,
            preflight: Preflight::Full,
        }
    } else {
        Step { route: Route::InstallPackages, needs_root: true, preflight: Preflight::Full }
    }
}

/// The step of a query command.
pub fn handle_query(parsed: &ParsedArgs) -> (r: Step)
    ensures
        r == query_step(parsed@),
{
    let q = parsed.query;
    let none = parsed.targets.len() == 0;
    let route = if q.info {
        Route::QueryInfo
    } else if q.search {
        Route::QuerySearch
    } else if q.list_files {
        Route::ListFiles
    } else if q.manual {
        Route::ListManual
    } else if q.owns {
        Route::Owns
    } else if q.explicit {
        if none {
            Route::ListExplicit
        } else {
            Route::QueryExplicit
        }
    } else if q.reverse_deps {
        Route::ReverseDependencies
    } else if none {
        Route::ListInstalled
    } else {
        Route::QueryPackages
    };
    Step { route, needs_root: false, preflight: Preflight::Nothing }
}

/// The step of a remove command.
pub fn handle_remove(parsed: &ParsedArgs) -> (r: Step)
    ensures
        r == (Step { route: Route::Remove, needs_root: true, preflight: Preflight::Unlocked }),
{
    Step { route: Route::Remove, needs_root: true, preflight: Preflight::Unlocked }
}

/// The step of a command that installs package files.
pub fn handle_upgrade(parsed: &ParsedArgs) -> (r: Step)
    ensures
        r == (Step { route: Route::InstallLocal, needs_root: true, preflight: Preflight::Full }),
{
    Step { route: Route::InstallLocal, needs_root: true, preflight: Preflight::Full }
}

/// The step of the `doctor` command.
pub fn handle_doctor(parsed: &ParsedArgs) -> (r: Step)
    ensures
        r == reading(Route::Doctor),
{
    Step { route: Route::Doctor, needs_root: false, preflight: Preflight::Nothing }
}

/// The step of the `history` command.
pub fn handle_history(parsed: &ParsedArgs) -> (r: Step)
    ensures
        r == reading(Route::History),
{
    Step { route: Route::History, needs_root: false, preflight: Preflight::Nothing }
}

/// The step of a command.
pub fn dispatch(parsed: &ParsedArgs) -> (r: Step)
    ensures
        r == step_of(parsed@),
{
    match parsed.op {
        Operation::Sync => handle_sync(parsed),
        Operation::Query => handle_query(parsed),
        Operation::Remove => handle_remove(parsed),
        Operation::Upgrade => handle_upgrade(parsed),
        Operation::Doctor => handle_doctor(parsed),
        Operation::History => handle_history(parsed),
        Operation::Help => Step {
            route: Route::Usage,
            needs_root: false,
            preflight: Preflight::Nothing,
        },
    }
}

/// The message for a user who is not root and asks for work that is for
/// root only.
pub open spec fn not_root_text() -> Seq<char> {
    "error: you cannot perform this operation unless you are root."@
}

/// Whether the user may run the step: work that changes the system is for
/// root only.
pub fn authorize(step: &Step, is_root: bool) -> (r: Result<(), String>)
    ensures
        r is Ok <==> (!step.needs_root || is_root),
        r matches Err(e) ==> e@ == not_root_text(),
{
    if step.needs_root && !is_root {
        Err(text("error: you cannot perform this operation unless you are root."))
    } else {
        Ok(())
    }
}

/// A risk that the options of a command bring.
#[derive(Clone, Copy, Debug, PartialEq, Eq, Structural)]
pub enum Warning {
    /// Dependency checks are bypassed.
    DependencyChecksDisabled,
    /// Install scriptlets are suppressed.
    ScriptletsDisabled,
    /// Files of other packages may be overwritten.
    OverwriteAllowed,
}

/// The warnings that the options of a command call for, in a fixed order.
/// They never stop the command. In strict mode there is none: there the
/// options that they are about do not pass the parser.
pub open spec fn warnings_of(g: GlobalModel) -> Seq<Warning> {
    if g.strict {
        Seq::empty()
    } else {
        (if g.nodeps > 0 {
            seq![Warning::DependencyChecksDisabled]
        } else {
            Seq::<Warning>::empty()
        }) + (if g.noscriptlet {
            seq![Warning::ScriptletsDisabled]
        } else {
            Seq::<Warning>::empty()
        }) + (if g.overwrite.len() > 0 {
            seq![Warning::OverwriteAllowed]
        } else {
            Seq::<Warning>::empty()
        })
    }
}

/// The warnings that the options of a command call for.
pub fn safety_warnings(global: &GlobalFlags) -> (r: Vec<Warning>)
    ensures
        r@ == warnings_of(global@),
{
    let mut out: Vec<Warning> = Vec::new();
    if global.strict {
        return out;
    }
    if global.nodeps > 0 {
        out.push(Warning::DependencyChecksDisabled);
    }
    if global.noscriptlet {
        out.push(Warning::ScriptletsDisabled);
    }
    if global.overwrite.len() > 0 {
        out.push(Warning::OverwriteAllowed);
    }
    proof {
        assert(out@ =~= warnings_of(global@));
    }
    out
}

/// The words of a warning: the risk that it names.
pub open spec fn warning_text_of(w: Warning) -> Seq<char> {
    match w {
        Warning::DependencyChecksDisabled => "warning: dependency checks are disabled; this can break package consistency"@,
        Warning::ScriptletsDisabled => "warning: scriptlets are disabled; some packages may not configure correctly"@,
        Warning::OverwriteAllowed => "warning: --overwrite can replace files owned by other packages; review targets carefully"@,
    }
}

/// The words of a warning.
pub fn warning_text(w: Warning) -> (r: &'static str)
    ensures
        r@ == warning_text_of(w),
{
    match w {
        Warning::DependencyChecksDisabled => "warning: dependency checks are disabled; this can break package consistency",
        Warning::ScriptletsDisabled => "warning: scriptlets are disabled; some packages may not configure correctly",
        Warning::OverwriteAllowed => "warning: --overwrite can replace files owned by other packages; review targets carefully",
    }
}

/// Whether the text of a failure says that the package database is locked,
/// capitals counting as small letters.
pub open spec fn speaks_of_lock(msg: Seq<char>) -> bool {
    let l = lowered(msg);
    has_infix(l, "db.lck"@) || has_infix(l, "unable to lock database"@) || has_infix(
        l,
        "database is locked"@,
    )
}

/// What is shown for a failure: for a locked database a fixed message with
/// two hints, else the text of the failure after `error: `.
pub open spec fn failure_lines(msg: Seq<char>) -> Seq<Seq<char>> {
    if speaks_of_lock(msg) {
        seq![
            "error: package database is locked by another process."@,
            "hint: wait for the other package manager process to finish."@,
            "hint: if no package manager is running, remove the stale lock file manually."@,
        ]
    } else {
        seq!["error: "@ + msg]
    }
}

/// Whether the text of a failure says that the package database is locked.
pub fn is_lock_failure(msg: &str) -> (r: bool)
    ensures
        r == speaks_of_lock(msg@),
{
    let l = to_ascii_lowercase(&chars_of(msg));
    contains_text(&l, "db.lck") || contains_text(&l, "unable to lock database") || contains_text(
        &l,
        "database is locked",
    )
}

/// The lines that report a failure to the user.
pub fn runtime_error_lines(msg: &str) -> (r: Vec<String>)
    ensures
        views(r@) == failure_lines(msg@),
{
    let mut out: Vec<String> = Vec::new();
    if is_lock_failure(msg) {
        out.push(text("error: package database is locked by another process."));
        out.push(text("hint: wait for the other package manager process to finish."));
        out.push(
            text("hint: if no package manager is running, remove the stale lock file manually."),
        );
    } else {
        let mut l = chars_of("error: ");
        push_text(&mut l, msg);
        out.push(string_of(&l));
    }
    proof {
        assert(views(out@) =~= failure_lines(msg@));
    }
    out
}

/// Whether a token hands the command over to the helper for the user
/// repository.
pub open spec fn is_aur_switch(token: Seq<char>) -> bool {
    token == "--aur"@ || token == "--paru"@
}

/// Whether one of the tokens hands the command over.
pub open spec fn wants_aur(tokens: Seq<Seq<char>>) -> bool {
    exists|i: int| 0 <= i < tokens.len() && is_aur_switch(#[trigger] tokens[i])
}

/// The tokens from index `i` on without those that hand the command over.
pub open spec fn aur_arguments_from(tokens: Seq<Seq<char>>, i: int) -> Seq<Seq<char>>
    decreases tokens.len() - i,
{
    if i < 0 || i >= tokens.len() {
        Seq::empty()
    } else if is_aur_switch(tokens[i]) {
        aur_arguments_from(tokens, i + 1)
    } else {
        seq![tokens[i]] + aur_arguments_from(tokens, i + 1)
    }
}

/// The view of an optional list of strings.
pub open spec fn list_view(l: Option<Vec<String>>) -> Option<Seq<Seq<char>>> {
    match l {
        Some(v) => Some(views(v@)),
        None => None,
    }
}

/// The arguments for the helper for the user repository, if the command
/// line hands the command over to it: all tokens but the switches that do
/// so, in their order.
pub fn aur_request(tokens: &Vec<String>) -> (r: Option<Vec<String>>)
    ensures
        list_view(r) == (if wants_aur(views(tokens@)) {
            Some(aur_arguments_from(views(tokens@), 0))
        } else {
            None
        }),
{
    let ghost model = views(tokens@);
    let mut out: Vec<String> = Vec::new();
    let mut seen = false;
    let mut i: usize = 0;
    proof {
        assert(views(out@) =~= Seq::<Seq<char>>::empty());
    }
    while i < tokens.len()
        invariant
            i <= tokens.len(),
            model == views(tokens@),
            seen == (exists|j: int| 0 <= j < i && is_aur_switch(#[trigger] model[j])),
            aur_arguments_from(model, 0) == views(out@) + aur_arguments_from(model, i as int),
        decreases tokens.len() - i,
    {
        let ghost before = views(out@);
        let t = chars_of(tokens[i].as_str());
        proof {
            assert(t@ == model[i as int]);
        }
        if is_text(&t, "--aur") || is_text(&t, "--paru") {
            seen = true;
        } else {
            let item = tokens[i].clone();
            out.push(item);
            proof {
                assert(views(out@) =~= before + seq![model[i as int]]);
                assert(before + (seq![model[i as int]] + aur_arguments_from(model, i + 1)) =~= (
                before + seq![model[i as int]]) + aur_arguments_from(model, i + 1));
                if exists|j: int| 0 <= j < i + 1 && is_aur_switch(#[trigger] model[j]) {
                    let j = choose|j: int| 0 <= j < i + 1 && is_aur_switch(#[trigger] model[j]);
                    assert(j < i);
                }
            }
        }
        i = i + 1;
    }
    proof {
        assert(views(out@) + Seq::<Seq<char>>::empty() =~= views(out@));
    }
    if seen {
        Some(out)
    } else {
        None
    }
}

} // verus!
