//! What a mutating operation needs besides the session itself: the flags
//! of its transaction, the words for the history ledger and the user, the
//! reading of the user's answer, the summary of a changeset, and the
//! report of a failed dependency resolution.

use vstd::prelude::*;
use vstd::string::*;
use crate::cli::{GlobalFlags, GlobalModel, RemoveFlags};
use crate::number::{decimal, decimal_text};
use crate::text::{
    chars_of, contains_string, contains_text, has_infix, is_text, join, joined, lowered,
    push_chars, push_text, string_of, text, to_ascii_lowercase, trim, trimmed, views,
};
use crate::search::{first_missing, lookup_names, missing_name, name_view, Lookup, Package, Report};
use crate::transaction::{
    initial, Kind, Notice, Plan, Preflight, Status, TransactionSession,
};

verus! {

/// The flags of a transaction, as the package library knows them.
#[derive(Clone, Copy, Debug, PartialEq, Eq, Structural)]
pub struct TransFlags {
    /// Do not reinstall what is up to date.
    pub needed: bool,
    /// Skip the dependency checks.
    pub no_deps: bool,
    /// Skip the version checks of dependencies too.
    pub no_dep_version: bool,
    /// Do not run install scriptlets.
    pub no_scriptlet: bool,
    /// Remove the dependencies of the targets too.
    pub recurse: bool,
    /// Remove only what nothing else needs.
    pub unneeded: bool,
    /// Do not keep configuration files as backups.
    pub no_save: bool,
}

/// The flags with which the transaction of an operation is opened.
pub open spec fn flags_of(kind: Kind, g: GlobalModel, r: RemoveFlags) -> TransFlags {
    TransFlags {
        needed: (kind == Kind::Install || kind == Kind::Sync) && g.needed,
        no_deps: g.nodeps > 0,
        no_dep_version: g.nodeps > 1,
        no_scriptlet: kind != Kind::Remove && g.noscriptlet,
        recurse: kind == Kind::Remove && r.recursive,
        unneeded: kind == Kind::Remove && r.recursive,
        no_save: kind == Kind::Remove && r.nosave,
    }
}

/// The flags with which the transaction of an operation is opened.
pub fn transaction_flags(kind: Kind, global: &GlobalFlags, remove: &RemoveFlags) -> (r: TransFlags)
    ensures
        r == flags_of(kind, global@, *remove),
{
    let is_remove = match kind {
        Kind::Remove => true,
        _ => false,
    };
    let takes_needed = match kind {
        Kind::Install => true,
        Kind::Sync => true,
        _ => false,
    };
    TransFlags {
        needed: takes_needed && global.needed,
        no_deps: global.nodeps > 0,
        no_dep_version: global.nodeps > 1,
        no_scriptlet: !is_remove && global.noscriptlet,
        recurse: is_remove && remove.recursive,
        unneeded: is_remove && remove.recursive,
        no_save: is_remove && remove.nosave,
    }
}

/// What is fixed about an operation of kind `kind` before it starts. A
/// removal needs an unlocked database; whatever installs needs the keyring
/// too.
pub open spec fn plan_of(
    kind: Kind,
    g: GlobalModel,
    refresh: bool,
    upgrade: bool,
    has_targets: bool,
) -> Plan {
    Plan {
        kind,
        preflight: if kind == Kind::Remove {
            Preflight::Unlocked
        } else {
            Preflight::Full
        },
        refresh: kind == Kind::Sync && refresh,
        upgrade: kind == Kind::Sync && upgrade,
        has_targets,
        dry_run: g.test,
        noconfirm: g.noconfirm,
        compact: g.compact,
        set_reason: g.asdeps || g.asexplicit,
    }
}

/// The plan of an operation of kind `kind` under the global options.
pub fn plan_for(
    kind: Kind,
    global: &GlobalFlags,
    refresh: bool,
    upgrade: bool,
    has_targets: bool,
) -> (r: Plan)
    ensures
        r == plan_of(kind, global@, refresh, upgrade, has_targets),
{
    let is_sync = match kind {
        Kind::Sync => true,
        _ => false,
    };
    Plan {
        kind,
        preflight: match kind {
            Kind::Remove => Preflight::Unlocked,
            _ => Preflight::Full,
        },
        refresh: is_sync && refresh,
        upgrade: is_sync && upgrade,
        has_targets,
        dry_run: global.test,
        noconfirm: global.noconfirm,
        compact: global.compact,
        set_reason: global.asdeps || global.asexplicit,
    }
}

/// The name of an operation in the history ledger.
pub open spec fn operation_name_of(kind: Kind) -> Seq<char> {
    match kind {
        Kind::Install => "install"@,
        Kind::InstallLocal => "install-local"@,
        Kind::Remove => "remove"@,
        Kind::Sync => "sync"@,
    }
}

/// The name of an operation in the history ledger.
pub fn operation_name(kind: Kind) -> (r: &'static str)
    ensures
        r@ == operation_name_of(kind),
{
    match kind {
        Kind::Install => "install",
        Kind::InstallLocal => "install-local",
        Kind::Remove => "remove",
        Kind::Sync => "sync",
    }
}

/// The name of a status in the history ledger.
pub open spec fn status_name_of(status: Status) -> Seq<char> {
    match status {
        Status::Success => "success"@,
        Status::Failed => "failed"@,
        Status::Cancelled => "cancelled"@,
        Status::DryRun => "dry-run"@,
        Status::Noop => "noop"@,
    }
}

/// The name of a status in the history ledger.
pub fn status_name(status: Status) -> (r: &'static str)
    ensures
        r@ == status_name_of(status),
{
    match status {
        Status::Success => "success",
        Status::Failed => "failed",
        Status::Cancelled => "cancelled",
        Status::DryRun => "dry-run",
        Status::Noop => "noop",
    }
}

/// The summary that goes into the history ledger with a status.
pub open spec fn summary_of(kind: Kind, status: Status) -> Seq<char> {
    match status {
        Status::Success => "transaction committed"@,
        Status::Failed => "transaction commit failed"@,
        Status::Cancelled => "user cancelled transaction"@,
        Status::DryRun => "commit skipped by --test"@,
        Status::Noop => match kind {
            Kind::Install => "no packages to install"@,
            Kind::InstallLocal => "no packages to install"@,
            Kind::Remove => "no packages to remove"@,
            Kind::Sync => "no package changes"@,
        },
    }
}

/// The summary that goes into the history ledger with a status.
pub fn summary_text(kind: Kind, status: Status) -> (r: &'static str)
    ensures
        r@ == summary_of(kind, status),
{
    match status {
        Status::Success => "transaction committed",
        Status::Failed => "transaction commit failed",
        Status::Cancelled => "user cancelled transaction",
        Status::DryRun => "commit skipped by --test",
        Status::Noop => match kind {
            Kind::Install => "no packages to install",
            Kind::InstallLocal => "no packages to install",
            Kind::Remove => "no packages to remove",
            Kind::Sync => "no package changes",
        },
    }
}

/// The words of a message to the user.
pub open spec fn notice_of(notice: Notice) -> Seq<char> {
    match notice {
        Notice::Synchronizing => ":: Synchronizing package databases..."@,
        Notice::SkippingDatabaseUpdate => ":: --test: skipping database update"@,
        Notice::StartingUpgrade => ":: Starting full system upgrade..."@,
        Notice::ResolvingDependencies => "resolving dependencies..."@,
        Notice::CheckingDependencies => "checking dependencies..."@,
        Notice::LookingForConflicts => "looking for conflicting packages..."@,
        Notice::NothingToDo => " there is nothing to do"@,
        Notice::SkippingCommit => ":: --test: skipping commit"@,
    }
}

/// The words of a message to the user.
pub fn notice_text(notice: Notice) -> (r: &'static str)
    ensures
        r@ == notice_of(notice),
{
    match notice {
        Notice::Synchronizing => ":: Synchronizing package databases...",
        Notice::SkippingDatabaseUpdate => ":: --test: skipping database update",
        Notice::StartingUpgrade => ":: Starting full system upgrade...",
        Notice::ResolvingDependencies => "resolving dependencies...",
        Notice::CheckingDependencies => "checking dependencies...",
        Notice::LookingForConflicts => "looking for conflicting packages...",
        Notice::NothingToDo => " there is nothing to do",
        Notice::SkippingCommit => ":: --test: skipping commit",
    }
}

/// The question that asks the user to confirm.
pub open spec fn prompt_of(kind: Kind) -> Seq<char> {
    match kind {
        Kind::Remove => "\n:: Proceed with removal? [Y/n] "@,
        _ => "\n:: Proceed with installation? [Y/n] "@,
    }
}

/// The question that asks the user to confirm.
pub fn confirm_prompt(kind: Kind) -> (r: &'static str)
    ensures
        r@ == prompt_of(kind),
{
    match kind {
        Kind::Remove => "\n:: Proceed with removal? [Y/n] ",
        _ => "\n:: Proceed with installation? [Y/n] ",
    }
}

/// Whether a line that the user typed agrees: nothing but white space
/// does, and so do `y` and `yes` in any mix of capitals; anything else
/// declines.
pub open spec fn agrees(answer: Seq<char>) -> bool {
    let a = lowered(trimmed(answer));
    a.len() == 0 || a == "y"@ || a == "yes"@
}

/// Whether a line that the user typed agrees.
pub fn accepts(answer: &str) -> (r: bool)
    ensures
        r == agrees(answer@),
{
    let a = to_ascii_lowercase(&trim(&chars_of(answer)));
    a.len() == 0 || is_text(&a, "y") || is_text(&a, "yes")
}

/// The install reason that an operation sets on its targets.
#[derive(Clone, Copy, Debug, PartialEq, Eq, Structural)]
pub enum Reason {
    Explicit,
    Depend,
}

/// The install reason that the options ask for, if any: as a dependency
/// where both are given.
pub open spec fn reason_of(g: GlobalModel) -> Option<Reason> {
    if g.asdeps {
        Some(Reason::Depend)
    } else if g.asexplicit {
        Some(Reason::Explicit)
    } else {
        None
    }
}

/// The install reason to set on each target once the commit has succeeded.
pub fn install_reason(global: &GlobalFlags) -> (r: Option<Reason>)
    ensures
        r == reason_of(global@),
{
    if global.asdeps {
        Some(Reason::Depend)
    } else if global.asexplicit {
        Some(Reason::Explicit)
    } else {
        None
    }
}

/// A package of a changeset that is to be installed or upgraded.
#[derive(Clone, Debug, PartialEq, Eq)]
pub struct PendingPackage {
    pub name: String,
    pub version: String,
    /// The architecture that the package was built for, if it names one.
    pub arch: Option<String>,
    /// How many bytes have to be downloaded for it.
    pub download_size: i64,
    /// Its size once installed.
    pub installed_size: i64,
    /// The installed size of the version that it replaces, 0 when it
    /// replaces none.
    pub old_size: i64,
    /// The version that it replaces, if any.
    pub old_version: Option<String>,
}

/// The totals of a changeset that installs or upgrades.
#[derive(Clone, Copy, Debug, PartialEq, Eq, Structural)]
pub struct AddSummary {
    pub install_count: usize,
    pub upgrade_count: usize,
    pub total_download: i64,
    pub net_change: i64,
}

/// The bytes to download for the first `upto` packages.
pub open spec fn download_sum(pkgs: Seq<PendingPackage>, upto: int) -> int
    decreases upto,
{
    if upto <= 0 || upto > pkgs.len() {
        0
    } else {
        download_sum(pkgs, upto - 1) + pkgs[upto - 1].download_size
    }
}

/// By how many bytes the first `upto` packages change the installed size.
pub open spec fn net_sum(pkgs: Seq<PendingPackage>, upto: int) -> int
    decreases upto,
{
    if upto <= 0 || upto > pkgs.len() {
        0
    } else {
        net_sum(pkgs, upto - 1) + (pkgs[upto - 1].installed_size - pkgs[upto - 1].old_size)
    }
}

/// How many of the first `upto` packages replace an installed version.
pub open spec fn upgrade_count(pkgs: Seq<PendingPackage>, upto: int) -> int
    decreases upto,
{
    if upto <= 0 || upto > pkgs.len() {
        0
    } else {
        upgrade_count(pkgs, upto - 1) + if pkgs[upto - 1].old_size > 0 {
            1int
        } else {
            0int
        }
    }
}

/// Whether `n` fits a signed 64-bit number.
pub open spec fn fits(n: int) -> bool {
    i64::MIN <= n && n <= i64::MAX
}

/// Whether the running totals of a changeset fit signed 64-bit numbers.
pub open spec fn totals_fit(pkgs: Seq<PendingPackage>) -> bool {
    forall|k: int|
        0 <= k <= pkgs.len() ==> fits(#[trigger] download_sum(pkgs, k)) && fits(net_sum(pkgs, k))
}

/// The totals of a changeset: a package counts as an upgrade when it
/// replaces a version of positive installed size, else as an install; a
/// negative download total counts as none.
pub open spec fn add_summary_of(pkgs: Seq<PendingPackage>) -> AddSummary {
    let n = pkgs.len() as int;
    AddSummary {
        install_count: (n - upgrade_count(pkgs, n)) as usize,
        upgrade_count: upgrade_count(pkgs, n) as usize,
        total_download: if download_sum(pkgs, n) < 0 {
            0i64
        } else {
            download_sum(pkgs, n) as i64
        },
        net_change: net_sum(pkgs, n) as i64,
    }
}

/// The totals of a changeset that installs or upgrades, or `None` when a
/// running total does not fit a signed 64-bit number.
pub fn add_summary(pkgs: &Vec<PendingPackage>) -> (r: Option<AddSummary>)
    ensures
        match r {
            Some(s) => totals_fit(pkgs@) && s == add_summary_of(pkgs@),
            None => !totals_fit(pkgs@),
        },
{
    let mut upgrades: usize = 0;
    let mut download: i64 = 0;
    let mut net: i64 = 0;
    let mut i: usize = 0;
    while i < pkgs.len()
        invariant
            i <= pkgs.len(),
            forall|k: int|
                0 <= k <= i ==> fits(#[trigger] download_sum(pkgs@, k)) && fits(net_sum(pkgs@, k)),
            0 <= upgrades <= i,
            upgrades == upgrade_count(pkgs@, i as int),
            download == download_sum(pkgs@, i as int),
            net == net_sum(pkgs@, i as int),
        decreases pkgs.len() - i,
    {
        let p = &pkgs[i];
        let d: i128 = download as i128 + p.download_size as i128;
        let n: i128 = net as i128 + (p.installed_size as i128 - p.old_size as i128);
        if d < i64::MIN as i128 || d > i64::MAX as i128 || n < i64::MIN as i128 || n
            > i64::MAX as i128 {
            proof {
                assert(d == download_sum(pkgs@, i + 1));
                assert(n == net_sum(pkgs@, i + 1));
                assert(!(fits(download_sum(pkgs@, i + 1)) && fits(net_sum(pkgs@, i + 1))));
            }
            return None;
        }
        if p.old_size > 0 {
            upgrades = upgrades + 1;
        }
        download = d as i64;
        net = n as i64;
        i = i + 1;
    }
    proof {
        assert(i == pkgs@.len());
        assert forall|k: int| 0 <= k <= pkgs@.len() implies fits(
            #[trigger] download_sum(pkgs@, k),
        ) && fits(net_sum(pkgs@, k)) by {
            assert(k <= i);
        }
        assert(totals_fit(pkgs@));
    }
    Some(
        AddSummary {
            install_count: pkgs.len() - upgrades,
            upgrade_count: upgrades,
            total_download: if download < 0 {
                0
            } else {
                download
            },
            net_change: net,
        },
    )
}

/// A package of a changeset that is to be removed.
#[derive(Clone, Debug, PartialEq, Eq)]
pub struct DoomedPackage {
    pub name: String,
    pub installed_size: i64,
}

/// The totals of a changeset that removes.
#[derive(Clone, Copy, Debug, PartialEq, Eq, Structural)]
pub struct RemoveSummary {
    pub remove_count: usize,
    pub reclaimed: i64,
}

/// The installed size of the first `upto` packages.
pub open spec fn size_sum(pkgs: Seq<DoomedPackage>, upto: int) -> int
    decreases upto,
{
    if upto <= 0 || upto > pkgs.len() {
        0
    } else {
        size_sum(pkgs, upto - 1) + pkgs[upto - 1].installed_size
    }
}

/// Whether the running total of a removal fits a signed 64-bit number.
pub open spec fn sizes_fit(pkgs: Seq<DoomedPackage>) -> bool {
    forall|k: int| 0 <= k <= pkgs.len() ==> fits(#[trigger] size_sum(pkgs, k))
}

/// The totals of a removal; a negative total size counts as none.
pub open spec fn remove_summary_of(pkgs: Seq<DoomedPackage>) -> RemoveSummary {
    let total = size_sum(pkgs, pkgs.len() as int);
    RemoveSummary {
        remove_count: pkgs.len() as usize,
        reclaimed: if total < 0 {
            0i64
        } else {
            total as i64
        },
    }
}

/// The totals of a changeset that removes, or `None` when the running
/// total does not fit a signed 64-bit number.
pub fn remove_summary(pkgs: &Vec<DoomedPackage>) -> (r: Option<RemoveSummary>)
    ensures
        match r {
            Some(s) => sizes_fit(pkgs@) && s == remove_summary_of(pkgs@),
            None => !sizes_fit(pkgs@),
        },
{
    let mut total: i64 = 0;
    let mut i: usize = 0;
    while i < pkgs.len()
        invariant
            i <= pkgs.len(),
            forall|k: int| 0 <= k <= i ==> fits(#[trigger] size_sum(pkgs@, k)),
            total == size_sum(pkgs@, i as int),
        decreases pkgs.len() - i,
    {
        let t: i128 = total as i128 + pkgs[i].installed_size as i128;
        if t < i64::MIN as i128 || t > i64::MAX as i128 {
            proof {
                assert(t == size_sum(pkgs@, i + 1));
                assert(!fits(size_sum(pkgs@, i + 1)));
            }
            return None;
        }
        total = t as i64;
        i = i + 1;
    }
    Some(
        RemoveSummary {
            remove_count: pkgs.len(),
            reclaimed: if total < 0 {
                0
            } else {
                total
            },
        },
    )
}

/// The size of a change without its direction.
pub open spec fn magnitude_of(bytes: i64) -> u64 {
    if bytes >= 0 {
        bytes as u64
    } else {
        (-(bytes as int)) as u64
    }
}

/// The size of a change without its direction.
pub fn magnitude(bytes: i64) -> (r: u64)
    ensures
        r == magnitude_of(bytes),
{
    if bytes >= 0 {
        bytes as u64
    } else {
        (-(bytes as i128)) as u64
    }
}

/// A change of the installed size with its sign written out: `text` is the
/// size without its direction, and a change of nothing counts as growth.
pub open spec fn signed_text(bytes: i64, text: Seq<char>) -> Seq<char> {
    if bytes >= 0 {
        "+"@ + text
    } else {
        "-"@ + text
    }
}

/// Writes the sign of a change before the text of its size.
pub fn format_net_bytes(bytes: i64, text: &str) -> (r: String)
    ensures
        r@ == signed_text(bytes, text@),
{
    let mut out: Vec<char> = if bytes >= 0 {
        chars_of("+")
    } else {
        chars_of("-")
    };
    push_text(&mut out, text);
    string_of(&out)
}

/// A number as text.
fn number_text(n: usize) -> (r: Vec<char>)
    ensures
        r@ == decimal_text(n as nat),
{
    decimal(n as u64)
}

/// The lines that sum up a changeset that installs or upgrades.
/// `download` and `net` are the texts of the download size and of the
/// signed change of the installed size.
pub open spec fn add_summary_text(
    compact: bool,
    s: AddSummary,
    download: Seq<char>,
    net: Seq<char>,
) -> Seq<Seq<char>> {
    if compact {
        seq![
            "summary: install="@ + decimal_text(s.install_count as nat) + " upgrade="@
                + decimal_text(s.upgrade_count as nat) + " download="@ + download + " net="@ + net,
        ]
    } else {
        seq![
            ""@,
            "Transaction Summary"@,
            "  Install: "@ + decimal_text(s.install_count as nat),
            "  Upgrade: "@ + decimal_text(s.upgrade_count as nat),
            "  Download Size: "@ + download,
            "  Net Installed Size: "@ + net,
        ]
    }
}

/// The lines that sum up a changeset that installs or upgrades.
pub fn add_summary_lines(compact: bool, s: &AddSummary, download: &str, net: &str) -> (r: Vec<
    String,
>)
    ensures
        views(r@) == add_summary_text(compact, *s, download@, net@),
{
    let mut out: Vec<String> = Vec::new();
    if compact {
        let mut l = chars_of("summary: install=");
        push_chars(&mut l, &number_text(s.install_count));
        push_text(&mut l, " upgrade=");
        push_chars(&mut l, &number_text(s.upgrade_count));
        push_text(&mut l, " download=");
        push_text(&mut l, download);
        push_text(&mut l, " net=");
        push_text(&mut l, net);
        out.push(string_of(&l));
    } else {
        out.push(text(""));
        out.push(text("Transaction Summary"));
        let mut a = chars_of("  Install: ");
        push_chars(&mut a, &number_text(s.install_count));
        out.push(string_of(&a));
        let mut b = chars_of("  Upgrade: ");
        push_chars(&mut b, &number_text(s.upgrade_count));
        out.push(string_of(&b));
        let mut c = chars_of("  Download Size: ");
        push_text(&mut c, download);
        out.push(string_of(&c));
        let mut d = chars_of("  Net Installed Size: ");
        push_text(&mut d, net);
        out.push(string_of(&d));
    }
    proof {
        assert(views(out@) =~= add_summary_text(compact, *s, download@, net@));
    }
    out
}

/// The lines that sum up a removal. `reclaimed` and `net` are the texts of
/// the reclaimed space and of the signed change of the installed size.
pub open spec fn remove_summary_text(
    compact: bool,
    s: RemoveSummary,
    reclaimed: Seq<char>,
    net: Seq<char>,
) -> Seq<Seq<char>> {
    if compact {
        seq![
            "summary: remove="@ + decimal_text(s.remove_count as nat) + " reclaimed="@ + reclaimed
                + " net="@ + net,
        ]
    } else {
        seq![
            ""@,
            "Transaction Summary"@,
            "  Remove: "@ + decimal_text(s.remove_count as nat),
            "  Reclaimed Space: "@ + reclaimed,
            "  Net Installed Size: "@ + net,
        ]
    }
}

/// The lines that sum up a removal.
pub fn remove_summary_lines(compact: bool, s: &RemoveSummary, reclaimed: &str, net: &str) -> (r:
    Vec<String>)
    ensures
        views(r@) == remove_summary_text(compact, *s, reclaimed@, net@),
{
    let mut out: Vec<String> = Vec::new();
    if compact {
        let mut l = chars_of("summary: remove=");
        push_chars(&mut l, &number_text(s.remove_count));
        push_text(&mut l, " reclaimed=");
        push_text(&mut l, reclaimed);
        push_text(&mut l, " net=");
        push_text(&mut l, net);
        out.push(string_of(&l));
    } else {
        out.push(text(""));
        out.push(text("Transaction Summary"));
        let mut a = chars_of("  Remove: ");
        push_chars(&mut a, &number_text(s.remove_count));
        out.push(string_of(&a));
        let mut b = chars_of("  Reclaimed Space: ");
        push_text(&mut b, reclaimed);
        out.push(string_of(&b));
        let mut c = chars_of("  Net Installed Size: ");
        push_text(&mut c, net);
        out.push(string_of(&c));
    }
    proof {
        assert(views(out@) =~= remove_summary_text(compact, *s, reclaimed@, net@));
    }
    out
}

/// The architecture of a package as it is shown: `unknown` when the
/// package names none.
pub open spec fn arch_text(p: PendingPackage) -> Seq<char> {
    match p.arch {
        Some(a) => a@,
        None => "unknown"@,
    }
}

/// Whether a package is built for an architecture that is not allowed:
/// `any` always is allowed.
pub open spec fn offends(p: PendingPackage, allowed: Seq<Seq<char>>) -> bool {
    arch_text(p) != "any"@ && !allowed.contains(arch_text(p))
}

/// How an offending package is named: its name and, in brackets, its
/// architecture.
pub open spec fn offender_text(p: PendingPackage) -> Seq<char> {
    p.name@ + " ("@ + arch_text(p) + ")"@
}

/// The offending packages from index `i` on.
pub open spec fn offenders_from(pkgs: Seq<PendingPackage>, allowed: Seq<Seq<char>>, i: int) -> Seq<
    Seq<char>,
>
    decreases pkgs.len() - i,
{
    if i < 0 || i >= pkgs.len() {
        Seq::empty()
    } else if offends(pkgs[i], allowed) {
        seq![offender_text(pkgs[i])] + offenders_from(pkgs, allowed, i + 1)
    } else {
        offenders_from(pkgs, allowed, i + 1)
    }
}

/// The report of a failed dependency resolution. Where the failure speaks
/// of an architecture and packages of the changeset are built for one that
/// is not allowed, the report adds the allowed architectures and those
/// packages; else it is the failure as it came.
pub open spec fn prepare_failure_of(
    msg: Seq<char>,
    allowed: Seq<Seq<char>>,
    pkgs: Seq<PendingPackage>,
) -> Seq<char> {
    let offenders = offenders_from(pkgs, allowed, 0);
    if has_infix(lowered(msg), "architecture"@) && offenders.len() > 0 {
        msg + "\nAllowed architectures: "@ + joined(allowed, ", "@)
            + "\nInvalid package architectures: "@ + joined(offenders, ", "@)
    } else {
        msg
    }
}

/// The report of a failed dependency resolution.
pub fn prepare_failure(msg: &str, allowed: &Vec<String>, pkgs: &Vec<PendingPackage>) -> (r: String)
    ensures
        r@ == prepare_failure_of(msg@, views(allowed@), pkgs@),
{
    let m = chars_of(msg);
    if !contains_text(&to_ascii_lowercase(&m), "architecture") {
        return string_of(&m);
    }
    let ghost am = views(allowed@);
    let mut offenders: Vec<String> = Vec::new();
    let mut i: usize = 0;
    proof {
        assert(views(offenders@) =~= Seq::<Seq<char>>::empty());
    }
    while i < pkgs.len()
        invariant
            i <= pkgs.len(),
            am == views(allowed@),
            offenders_from(pkgs@, am, 0) == views(offenders@) + offenders_from(pkgs@, am, i as int),
        decreases pkgs.len() - i,
    {
        let ghost before = views(offenders@);
        let p = &pkgs[i];
        let arch: Vec<char> = match &p.arch {
            Some(a) => chars_of(a.as_str()),
            None => chars_of("unknown"),
        };
        if !is_text(&arch, "any") && !contains_string(allowed, &arch) {
            let mut l = chars_of(p.name.as_str());
            push_text(&mut l, " (");
            push_chars(&mut l, &arch);
            push_text(&mut l, ")");
            let line = string_of(&l);
            offenders.push(line);
            proof {
                assert(views(offenders@) =~= before + seq![line@]);
                assert(before + (seq![line@] + offenders_from(pkgs@, am, i + 1)) =~= (before
                    + seq![line@]) + offenders_from(pkgs@, am, i + 1));
            }
        }
        i = i + 1;
    }
    proof {
        assert(views(offenders@) + Seq::<Seq<char>>::empty() =~= views(offenders@));
    }
    if offenders.len() == 0 {
        return string_of(&m);
    }
    let mut out = m;
    push_text(&mut out, "\nAllowed architectures: ");
    push_chars(&mut out, &join(allowed, ", "));
    push_text(&mut out, "\nInvalid package architectures: ");
    push_chars(&mut out, &join(&offenders, ", "));
    string_of(&out)
}

/// The lines that list what a sync installs or upgrades: a heading, then
/// each package with the version it replaces (`none` when it replaces
/// none) and its own. A compact report lists nothing.
pub open spec fn change_list(compact: bool, pkgs: Seq<PendingPackage>) -> Seq<Seq<char>> {
    if compact {
        Seq::empty()
    } else {
        Seq::new(
            pkgs.len() + 2,
            |k: int|
                if k == 0 {
                    ""@
                } else if k == 1 {
                    "Packages to upgrade/install:"@
                } else {
                    change_row(pkgs[k - 2])
                },
        )
    }
}

/// The line of one package in the list of changes.
pub open spec fn change_row(p: PendingPackage) -> Seq<char> {
    "  "@ + p.name@ + " "@ + (match p.old_version {
        Some(v) => v@,
        None => "none"@,
    }) + " -> "@ + p.version@
}

/// The lines that list what a sync installs or upgrades.
pub fn change_lines(compact: bool, pkgs: &Vec<PendingPackage>) -> (r: Vec<String>)
    ensures
        views(r@) == change_list(compact, pkgs@),
{
    let mut out: Vec<String> = Vec::new();
    if compact {
        proof {
            assert(views(out@) =~= change_list(compact, pkgs@));
        }
        return out;
    }
    out.push(text(""));
    out.push(text("Packages to upgrade/install:"));
    let mut i: usize = 0;
    while i < pkgs.len()
        invariant
            i <= pkgs.len(),
            !compact,
            out@.len() == i + 2,
            forall|k: int| 0 <= k < i + 2 ==> #[trigger] out@[k]@ == change_list(compact, pkgs@)[k],
        decreases pkgs.len() - i,
    {
        let p = &pkgs[i];
        let mut l = chars_of("  ");
        push_text(&mut l, p.name.as_str());
        push_text(&mut l, " ");
        match &p.old_version {
            Some(v) => push_text(&mut l, v.as_str()),
            None => push_text(&mut l, "none"),
        }
        push_text(&mut l, " -> ");
        push_text(&mut l, p.version.as_str());
        out.push(string_of(&l));
        i = i + 1;
    }
    proof {
        assert(views(out@) =~= change_list(compact, pkgs@));
    }
    out
}

/// Those of `deps`, from index `j` on, that are not among `names`.
pub open spec fn outsiders_from(deps: Seq<Seq<char>>, names: Seq<Seq<char>>, j: int) -> Seq<
    Seq<char>,
>
    decreases deps.len() - j,
{
    if j < 0 || j >= deps.len() {
        Seq::empty()
    } else if names.contains(deps[j]) {
        outsiders_from(deps, names, j + 1)
    } else {
        seq![deps[j]] + outsiders_from(deps, names, j + 1)
    }
}

/// The warning for the removal of the target `l`, if the installed
/// packages that need it are not all targets themselves.
pub open spec fn breakage_warning(l: Lookup, p: Package, names: Seq<Seq<char>>) -> Seq<Seq<char>> {
    let outside = outsiders_from(views(p.required_by@), names, 0);
    if outside.len() > 0 {
        seq![
            "warning: removing '"@ + l.name@ + "' may break dependent packages: "@ + joined(
                outside,
                ", "@,
            ),
        ]
    } else {
        Seq::empty()
    }
}

/// The warnings for the targets from index `i` on, up to the first that is
/// not installed.
pub open spec fn breakage_from(lookups: Seq<Lookup>, names: Seq<Seq<char>>, i: int) -> Seq<
    Seq<char>,
>
    decreases lookups.len() - i,
{
    if i < 0 || i >= lookups.len() {
        Seq::empty()
    } else {
        match lookups[i].package {
            None => Seq::empty(),
            Some(p) => breakage_warning(lookups[i], p, names) + breakage_from(lookups, names, i + 1),
        }
    }
}

/// What the user is warned of before a removal: for each target that other
/// installed packages need, those packages, unless they are targets too;
/// and, when something was warned of and every target is installed, a hint
/// at the recursive removal. A recursive removal warns of nothing.
pub open spec fn breakage_report(lookups: Seq<Lookup>, recursive: bool) -> Seq<Seq<char>> {
    if recursive {
        Seq::empty()
    } else {
        let warnings = breakage_from(lookups, lookup_names(lookups), 0);
        if warnings.len() > 0 && missing_name(lookups) is None {
            warnings + seq!["hint: use -Rs to remove packages with their unneeded dependencies."@]
        } else {
            warnings
        }
    }
}

/// Those of `deps` that are not among `names`.
fn outsiders(deps: &Vec<String>, names: &Vec<String>) -> (r: Vec<String>)
    ensures
        views(r@) == outsiders_from(views(deps@), views(names@), 0),
{
    let ghost dm = views(deps@);
    let ghost nm = views(names@);
    let mut out: Vec<String> = Vec::new();
    let mut j: usize = 0;
    proof {
        assert(views(out@) =~= Seq::<Seq<char>>::empty());
    }
    while j < deps.len()
        invariant
            j <= deps.len(),
            dm == views(deps@),
            nm == views(names@),
            outsiders_from(dm, nm, 0) == views(out@) + outsiders_from(dm, nm, j as int),
        decreases deps.len() - j,
    {
        let ghost before = views(out@);
        if !contains_string(names, &chars_of(deps[j].as_str())) {
            let item = deps[j].clone();
            out.push(item);
            proof {
                assert(views(out@) =~= before + seq![dm[j as int]]);
                assert(before + (seq![dm[j as int]] + outsiders_from(dm, nm, j + 1)) =~= (before
                    + seq![dm[j as int]]) + outsiders_from(dm, nm, j + 1));
            }
        }
        j = j + 1;
    }
    proof {
        assert(views(out@) + Seq::<Seq<char>>::empty() =~= views(out@));
    }
    out
}

/// The names that were asked for.
fn names_of(lookups: &Vec<Lookup>) -> (r: Vec<String>)
    ensures
        views(r@) == lookup_names(lookups@),
{
    let mut names: Vec<String> = Vec::new();
    let mut i: usize = 0;
    while i < lookups.len()
        invariant
            i <= lookups.len(),
            names@.len() == i,
            forall|j: int| 0 <= j < i ==> #[trigger] names@[j]@ == lookups@[j].name@,
        decreases lookups.len() - i,
    {
        names.push(lookups[i].name.clone());
        i = i + 1;
    }
    proof {
        assert(views(names@) =~= lookup_names(lookups@));
    }
    names
}

/// Warns of what the removal of the targets may break. The report ends at
/// the first target that is not installed, which the removal cannot go on
/// without.
pub fn warn_remove_breakage(targets: &Vec<Lookup>, remove: &RemoveFlags) -> (r: Report)
    ensures
        views(r.lines@) == breakage_report(targets@, remove.recursive),
        name_view(r.missing) == (if remove.recursive {
            None
        } else {
            missing_name(targets@)
        }),
{
    let mut out: Vec<String> = Vec::new();
    if remove.recursive {
        proof {
            assert(views(out@) =~= Seq::<Seq<char>>::empty());
        }
        return Report { lines: out, missing: None };
    }
    let names = names_of(targets);
    let ghost nm = lookup_names(targets@);
    let mut i: usize = 0;
    proof {
        assert(views(out@) =~= Seq::<Seq<char>>::empty());
    }
    while i < targets.len()
        invariant
            i <= targets.len(),
            !remove.recursive,
            nm == lookup_names(targets@),
            nm == views(names@),
            first_missing(targets@, 0) == first_missing(targets@, i as int),
            breakage_from(targets@, nm, 0) == views(out@) + breakage_from(targets@, nm, i as int),
        decreases targets.len() - i,
    {
        let ghost before = views(out@);
        match &targets[i].package {
            None => {
                proof {
                    assert(views(out@) + Seq::<Seq<char>>::empty() =~= views(out@));
                }
                return Report { lines: out, missing: Some(targets[i].name.clone()) };
            },
            Some(p) => {
                let outside = outsiders(&p.required_by, &names);
                if outside.len() > 0 {
                    let mut l = chars_of("warning: removing '");
                    push_text(&mut l, targets[i].name.as_str());
                    push_text(&mut l, "' may break dependent packages: ");
                    push_chars(&mut l, &join(&outside, ", "));
                    let line = string_of(&l);
                    out.push(line);
                    proof {
                        assert(views(out@) =~= before + seq![line@]);
                        assert(before + (seq![line@] + breakage_from(targets@, nm, i + 1)) =~= (
                        before + seq![line@]) + breakage_from(targets@, nm, i + 1));
                    }
                } else {
                    proof {
                        assert(Seq::<Seq<char>>::empty() + breakage_from(targets@, nm, i + 1)
                            =~= breakage_from(targets@, nm, i + 1));
                    }
                }
            },
        }
        i = i + 1;
    }
    proof {
        assert(views(out@) + Seq::<Seq<char>>::empty() =~= views(out@));
    }
    if out.len() > 0 {
        let ghost before = views(out@);
        out.push(text("hint: use -Rs to remove packages with their unneeded dependencies."));
        proof {
            assert(views(out@) =~= before + seq![
                "hint: use -Rs to remove packages with their unneeded dependencies."@,
            ]);
        }
    }
    Report { lines: out, missing: None }
}

/// `true` or `false`.
pub open spec fn bool_text(b: bool) -> Seq<char> {
    if b {
        "true"@
    } else {
        "false"@
    }
}

/// The line that a verbose report shows when an operation starts: the
/// operation and what it works on.
pub open spec fn verbose_text(kind: Kind, refresh: bool, upgrade: bool, targets: Seq<Seq<char>>) -> Seq<
    char,
> {
    match kind {
        Kind::Install => ":: verbose: operation=install targets="@ + joined(targets, " "@),
        Kind::InstallLocal => ":: verbose: operation=install-local files="@ + joined(
            targets,
            " "@,
        ),
        Kind::Remove => ":: verbose: operation=remove targets="@ + joined(targets, " "@),
        Kind::Sync => ":: verbose: operation=sync refresh="@ + bool_text(refresh) + " upgrade="@
            + bool_text(upgrade) + " targets="@ + joined(targets, " "@),
    }
}

/// The line that a verbose report shows when an operation starts.
pub fn verbose_line(kind: Kind, refresh: bool, upgrade: bool, targets: &Vec<String>) -> (r: String)
    ensures
        r@ == verbose_text(kind, refresh, upgrade, views(targets@)),
{
    let mut l: Vec<char> = Vec::new();
    match kind {
        Kind::Install => push_text(&mut l, ":: verbose: operation=install targets="),
        Kind::InstallLocal => push_text(&mut l, ":: verbose: operation=install-local files="),
        Kind::Remove => push_text(&mut l, ":: verbose: operation=remove targets="),
        Kind::Sync => {
            push_text(&mut l, ":: verbose: operation=sync refresh=");
            if refresh {
                push_text(&mut l, "true");
            } else {
                push_text(&mut l, "false");
            }
            push_text(&mut l, " upgrade=");
            if upgrade {
                push_text(&mut l, "true");
            } else {
                push_text(&mut l, "false");
            }
            push_text(&mut l, " targets=");
        },
    }
    push_chars(&mut l, &join(targets, " "));
    proof {
        assert(l@ =~= verbose_text(kind, refresh, upgrade, views(targets@)));
    }
    string_of(&l)
}

/// The session of an installation of the named packages from the
/// repositories, before it starts.
pub fn install_packages(packages: &Vec<String>, global: &GlobalFlags) -> (r: TransactionSession)
    ensures
        r == initial(plan_of(Kind::Install, global@, false, false, packages@.len() > 0)),
{
    TransactionSession::new(plan_for(Kind::Install, global, false, false, packages.len() > 0))
}

/// The session of an installation of package files, before it starts.
pub fn install_local(global: &GlobalFlags, pkg_files: &Vec<String>) -> (r: TransactionSession)
    ensures
        r == initial(plan_of(Kind::InstallLocal, global@, false, false, pkg_files@.len() > 0)),
{
    TransactionSession::new(plan_for(Kind::InstallLocal, global, false, false, pkg_files.len() > 0))
}

/// The session of a removal of the named packages, before it starts.
pub fn remove_packages(packages: &Vec<String>, global: &GlobalFlags) -> (r: TransactionSession)
    ensures
        r == initial(plan_of(Kind::Remove, global@, false, false, packages@.len() > 0)),
{
    TransactionSession::new(plan_for(Kind::Remove, global, false, false, packages.len() > 0))
}

/// The session of a sync, before it starts: a refresh of the databases, an
/// upgrade of the system and the installation of the named targets, as far
/// as each is asked for.
pub fn sync_install(global: &GlobalFlags, refresh: bool, upgrade: bool, targets: &Vec<String>) -> (r:
    TransactionSession)
    ensures
        r == initial(plan_of(Kind::Sync, global@, refresh, upgrade, targets@.len() > 0)),
{
    TransactionSession::new(plan_for(Kind::Sync, global, refresh, upgrade, targets.len() > 0))
}

} // verus!
