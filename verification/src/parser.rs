//! The command parser: from raw tokens to a validated command.
//!
//! Parsing has two stages. The scan reads the tokens left to right and
//! gathers the selected operation, the short sub-flag characters, the
//! targets and the global options. The validation interprets the sub-flags
//! for the selected operation and applies the rules on what may stand
//! together. A [`ParsedArgs`] exists only when every rule holds.

use vstd::prelude::*;
use vstd::string::*;
use crate::cli::{
    default_global, plain_error, GlobalFlags, GlobalModel, Operation, ParseError, ParseErrorKind,
    ParseErrorModel, ParsedArgs, ParsedModel, QueryFlags, RemoveFlags, SyncFlags, ValueOption,
};
use crate::text::{
    chars_of, find_char, has_prefix, index_of_from, is_text, slice_chars, starts_with_text, string_of, views,
};

verus! {

/// What the scan has gathered so far.
pub struct ScanState {
    pub op: Option<Operation>,
    pub flags: Seq<char>,
    pub targets: Seq<Seq<char>>,
    pub in_options: bool,
    pub global: GlobalModel,
}

/// The state before the first token.
pub open spec fn initial_state() -> ScanState {
    ScanState {
        op: None,
        flags: Seq::empty(),
        targets: Seq::empty(),
        in_options: true,
        global: default_global(),
    }
}

/// What reading one token leads to.
pub enum Step {
    /// A help request: the scan ends at once.
    Help,
    /// The state after the token, and how many tokens were taken (1 or 2).
    Next(ScanState, int),
}

/// What the whole scan leads to.
pub enum Scan {
    Help,
    Done(ScanState),
}

/// Selecting `new_op` when `op` is what was selected before: the first
/// selection is kept, the same one again changes nothing, another one is an
/// error.
pub open spec fn select(op: Option<Operation>, new_op: Operation) -> Result<
    Option<Operation>,
    ParseErrorKind,
> {
    match op {
        Some(existing) => if existing != new_op {
            Err(ParseErrorKind::OnlyOneOperation)
        } else {
            Ok(op)
        },
        None => Ok(Some(new_op)),
    }
}

/// The operation that a character of a short cluster selects, if any.
pub open spec fn operation_of(c: char) -> Option<Operation> {
    if c == 'S' {
        Some(Operation::Sync)
    } else if c == 'Q' {
        Some(Operation::Query)
    } else if c == 'R' {
        Some(Operation::Remove)
    } else if c == 'U' {
        Some(Operation::Upgrade)
    } else {
        None
    }
}

/// Reads the characters of a short cluster from index `j` on: operation
/// letters select, every other character is kept as a sub-flag.
pub open spec fn scan_cluster(
    arg: Seq<char>,
    j: int,
    op: Option<Operation>,
    flags: Seq<char>,
) -> Result<(Option<Operation>, Seq<char>), ParseErrorKind>
    decreases arg.len() - j,
{
    if j < 0 || j >= arg.len() {
        Ok((op, flags))
    } else {
        match operation_of(arg[j]) {
            Some(o) => match select(op, o) {
                Err(e) => Err(e),
                Ok(op2) => scan_cluster(arg, j + 1, op2, flags),
            },
            None => scan_cluster(arg, j + 1, op, flags.push(arg[j])),
        }
    }
}

/// The part of a long option before its first `=`.
pub open spec fn long_key(arg: Seq<char>) -> Seq<char> {
    arg.subrange(0, index_of_from(arg, '=', 0))
}

/// The part of a long option after its first `=`, if it has one.
pub open spec fn long_value(arg: Seq<char>) -> Option<Seq<char>> {
    let k = index_of_from(arg, '=', 0);
    if k < arg.len() {
        Some(arg.subrange(k + 1, arg.len() as int))
    } else {
        None
    }
}

/// The value of the value-taking option at token `i`: what follows its `=`,
/// else the next token whatever it looks like. The second component is the
/// number of tokens taken.
pub open spec fn value_at(tokens: Seq<Seq<char>>, i: int) -> Option<(Seq<char>, int)> {
    match long_value(tokens[i]) {
        Some(v) => Some((v, 1)),
        None => if i + 1 < tokens.len() {
            Some((tokens[i + 1], 2))
        } else {
            None
        },
    }
}

/// One more dependency-bypass request, up to the largest level a `u8` holds.
pub open spec fn bump(n: u8) -> u8 {
    if n == 255 {
        255u8
    } else {
        (n + 1) as u8
    }
}

/// The value-taking option that a long key spells, if any.
pub open spec fn value_option_of(key: Seq<char>) -> Option<ValueOption> {
    if key == "--overwrite"@ {
        Some(ValueOption::Overwrite)
    } else if key == "--root"@ {
        Some(ValueOption::Root)
    } else if key == "--dbpath"@ {
        Some(ValueOption::DbPath)
    } else if key == "--cachedir"@ {
        Some(ValueOption::CacheDir)
    } else {
        None
    }
}

/// The global options after the value-taking option `opt` was given `v`.
pub open spec fn with_value(g: GlobalModel, opt: ValueOption, v: Seq<char>) -> GlobalModel {
    match opt {
        ValueOption::Overwrite => GlobalModel { overwrite: g.overwrite.push(v), ..g },
        ValueOption::Root => GlobalModel { root_dir: Some(v), ..g },
        ValueOption::DbPath => GlobalModel { db_path: Some(v), ..g },
        ValueOption::CacheDir => GlobalModel { cache_dir: Some(v), ..g },
    }
}

/// The global options after the switch spelled `key`, or `None` when the
/// table of switches does not hold `key`.
pub open spec fn with_switch(g: GlobalModel, key: Seq<char>) -> Option<GlobalModel> {
    if key == "--test"@ || key == "--dry-run"@ {
        Some(GlobalModel { test: true, ..g })
    } else if key == "--noconfirm"@ {
        Some(GlobalModel { noconfirm: true, ..g })
    } else if key == "--needed"@ {
        Some(GlobalModel { needed: true, ..g })
    } else if key == "--nodeps"@ {
        Some(GlobalModel { nodeps: bump(g.nodeps), ..g })
    } else if key == "--noscriptlet"@ {
        Some(GlobalModel { noscriptlet: true, ..g })
    } else if key == "--asdeps"@ {
        Some(GlobalModel { asdeps: true, ..g })
    } else if key == "--asexplicit"@ {
        Some(GlobalModel { asexplicit: true, ..g })
    } else if key == "--strict"@ {
        Some(GlobalModel { strict: true, ..g })
    } else if key == "--compact"@ {
        Some(GlobalModel { compact: true, ..g })
    } else if key == "--verbose"@ {
        Some(GlobalModel { verbose: true, ..g })
    } else {
        None
    }
}

/// Reading the long option at token `i`.
pub open spec fn long_step(tokens: Seq<Seq<char>>, i: int, st: ScanState) -> Result<
    Step,
    ParseErrorModel,
> {
    let arg = tokens[i];
    let key = long_key(arg);
    match value_option_of(key) {
        Some(opt) => match value_at(tokens, i) {
            Some((v, used)) => Ok(
                Step::Next(ScanState { global: with_value(st.global, opt, v), ..st }, used),
            ),
            None => Err(plain_error(ParseErrorKind::MissingValue(opt))),
        },
        None => match with_switch(st.global, key) {
            Some(g) => Ok(Step::Next(ScanState { global: g, ..st }, 1)),
            None => Err(ParseErrorModel { kind: ParseErrorKind::InvalidOption, token: arg }),
        },
    }
}

/// Reading a token that selects the operation `op` by itself.
pub open spec fn select_step(st: ScanState, op: Operation) -> Result<Step, ParseErrorModel> {
    match select(st.op, op) {
        Err(k) => Err(plain_error(k)),
        Ok(op2) => Ok(Step::Next(ScanState { op: op2, ..st }, 1)),
    }
}

/// Reading the token at index `i` in state `st`.
pub open spec fn step(tokens: Seq<Seq<char>>, i: int, st: ScanState) -> Result<
    Step,
    ParseErrorModel,
> {
    let arg = tokens[i];
    if st.in_options && arg == "--doctor"@ {
        select_step(st, Operation::Doctor)
    } else if st.in_options && arg == "--history"@ {
        select_step(st, Operation::History)
    } else if i == 0 && arg == "doctor"@ {
        select_step(st, Operation::Doctor)
    } else if i == 0 && arg == "history"@ {
        select_step(st, Operation::History)
    } else if st.in_options && (arg == "-h"@ || arg == "--help"@) {
        Ok(Step::Help)
    } else if st.in_options && arg == "--"@ {
        Ok(Step::Next(ScanState { in_options: false, ..st }, 1))
    } else if st.in_options && has_prefix(arg, "--"@) {
        long_step(tokens, i, st)
    } else if st.in_options && has_prefix(arg, "-"@) && arg.len() > 1 {
        match scan_cluster(arg, 1, st.op, st.flags) {
            Err(k) => Err(plain_error(k)),
            Ok((op2, flags2)) => Ok(Step::Next(ScanState { op: op2, flags: flags2, ..st }, 1)),
        }
    } else {
        Ok(Step::Next(ScanState { targets: st.targets.push(arg), ..st }, 1))
    }
}

/// The scan of the tokens from index `i` on, starting in state `st`.
pub open spec fn scan_from(tokens: Seq<Seq<char>>, i: int, st: ScanState) -> Result<
    Scan,
    ParseErrorModel,
>
    decreases tokens.len() - i,
{
    if i < 0 || i >= tokens.len() {
        Ok(Scan::Done(st))
    } else {
        match step(tokens, i, st) {
            Err(e) => Err(e),
            Ok(Step::Help) => Ok(Scan::Help),
            Ok(Step::Next(st2, used)) => if used >= 1 {
                scan_from(tokens, i + used, st2)
            } else {
                Ok(Scan::Done(st2))
            },
        }
    }
}

/// The scan of a whole token sequence.
pub open spec fn scan(tokens: Seq<Seq<char>>) -> Result<Scan, ParseErrorModel> {
    scan_from(tokens, 0, initial_state())
}

/// Whether `c` is a sub-flag of `op`.
pub open spec fn flag_allowed(op: Operation, c: char) -> bool {
    match op {
        Operation::Sync => c == 'y' || c == 'u' || c == 's' || c == 'i' || c == 'd' || c == 'c',
        Operation::Query => c == 'i' || c == 's' || c == 'l' || c == 'm' || c == 'o' || c == 'e'
            || c == 'r',
        Operation::Remove => c == 's' || c == 'n' || c == 'd',
        Operation::Upgrade => c == 'd',
        _ => false,
    }
}

/// The index of the first character at or after `from` that is no sub-flag
/// of `op`, or the length of `flags` when all are.
pub open spec fn first_bad_flag(op: Operation, flags: Seq<char>, from: int) -> int
    decreases flags.len() - from,
{
    if from < 0 || from >= flags.len() {
        flags.len() as int
    } else if !flag_allowed(op, flags[from]) {
        from
    } else {
        first_bad_flag(op, flags, from + 1)
    }
}

/// How often `c` occurs among the first `upto` characters of `s`.
pub open spec fn count_of(s: Seq<char>, c: char, upto: int) -> nat
    decreases upto,
{
    if upto <= 0 || upto > s.len() {
        0
    } else {
        count_of(s, c, upto - 1) + if s[upto - 1] == c {
            1nat
        } else {
            0nat
        }
    }
}

/// `n` cut off at the largest value a `u8` holds.
pub open spec fn saturate(n: int) -> u8 {
    if n >= 255 {
        255u8
    } else if n < 0 {
        0u8
    } else {
        n as u8
    }
}

/// The error, if any, that the sub-flag characters give for `op`.
pub open spec fn flag_error(op: Operation, flags: Seq<char>) -> Option<ParseErrorKind> {
    match op {
        Operation::Doctor => if flags.len() > 0 {
            Some(ParseErrorKind::DoctorFlags)
        } else {
            None
        },
        Operation::History => if flags.len() > 0 {
            Some(ParseErrorKind::HistoryFlags)
        } else {
            None
        },
        Operation::Help => None,
        _ => {
            let k = first_bad_flag(op, flags, 0);
            if k < flags.len() {
                Some(ParseErrorKind::InvalidFlag(op, flags[k]))
            } else {
                None
            }
        },
    }
}

/// The sync sub-flags that the characters stand for.
pub open spec fn sync_flags_of(flags: Seq<char>) -> SyncFlags {
    SyncFlags {
        refresh: flags.contains('y'),
        upgrade: flags.contains('u'),
        search: flags.contains('s'),
        info: flags.contains('i'),
        clean_cache: saturate(count_of(flags, 'c', flags.len() as int) as int),
    }
}

/// The query sub-flags that the characters stand for.
pub open spec fn query_flags_of(flags: Seq<char>) -> QueryFlags {
    QueryFlags {
        info: flags.contains('i'),
        search: flags.contains('s'),
        list_files: flags.contains('l'),
        manual: flags.contains('m'),
        owns: flags.contains('o'),
        explicit: flags.contains('e'),
        reverse_deps: flags.contains('r'),
    }
}

/// The remove sub-flags that the characters stand for.
pub open spec fn remove_flags_of(flags: Seq<char>) -> RemoveFlags {
    RemoveFlags { recursive: flags.contains('s'), nosave: flags.contains('n') }
}

/// The sync sub-flags with nothing set.
pub open spec fn no_sync_flags() -> SyncFlags {
    SyncFlags { refresh: false, upgrade: false, search: false, info: false, clean_cache: 0 }
}

/// The query sub-flags with nothing set.
pub open spec fn no_query_flags() -> QueryFlags {
    QueryFlags {
        info: false,
        search: false,
        list_files: false,
        manual: false,
        owns: false,
        explicit: false,
        reverse_deps: false,
    }
}

/// The remove sub-flags with nothing set.
pub open spec fn no_remove_flags() -> RemoveFlags {
    RemoveFlags { recursive: false, nosave: false }
}

/// The command that a help request stands for.
pub open spec fn help_command() -> ParsedModel {
    ParsedModel {
        op: Operation::Help,
        sync: no_sync_flags(),
        query: no_query_flags(),
        remove: no_remove_flags(),
        targets: Seq::empty(),
        global: default_global(),
    }
}

/// The command that the scanned state stands for under operation `op`,
/// before the rules are applied. Each `d` among the sub-flags of a sync,
/// remove or upgrade raises the dependency-bypass level by one.
pub open spec fn interpret(op: Operation, st: ScanState) -> ParsedModel {
    let bypass = saturate(st.global.nodeps + count_of(st.flags, 'd', st.flags.len() as int));
    ParsedModel {
        op,
        sync: if op == Operation::Sync {
            sync_flags_of(st.flags)
        } else {
            no_sync_flags()
        },
        query: if op == Operation::Query {
            query_flags_of(st.flags)
        } else {
            no_query_flags()
        },
        remove: if op == Operation::Remove {
            remove_flags_of(st.flags)
        } else {
            no_remove_flags()
        },
        targets: st.targets,
        global: if op == Operation::Sync || op == Operation::Remove || op == Operation::Upgrade {
            GlobalModel { nodeps: bypass, ..st.global }
        } else {
            st.global
        },
    }
}

/// How many query modes are set.
pub open spec fn query_mode_count(q: QueryFlags) -> int {
    (if q.info { 1int } else { 0 }) + (if q.search { 1int } else { 0 }) + (if q.list_files {
        1int
    } else {
        0
    }) + (if q.manual { 1int } else { 0 }) + (if q.owns { 1int } else { 0 }) + (if q.explicit {
        1int
    } else {
        0
    }) + (if q.reverse_deps { 1int } else { 0 })
}

/// The first rule of its own operation that the command breaks, if any.
pub open spec fn operation_rejection(p: ParsedModel) -> Option<ParseErrorKind> {
    let no_targets = p.targets.len() == 0;
    match p.op {
        Operation::Sync => {
            let s = p.sync;
            if s.search && s.info {
                Some(ParseErrorKind::SearchInfoConflict)
            } else if (s.search || s.info) && (s.refresh || s.upgrade) {
                Some(ParseErrorKind::SearchWithRefresh)
            } else if (s.search || s.info) && no_targets {
                Some(ParseErrorKind::NoTargets)
            } else if !s.search && !s.info && no_targets && !s.refresh && !s.upgrade
                && s.clean_cache == 0 {
                Some(ParseErrorKind::NoTargets)
            } else if s.clean_cache > 0 && (s.search || s.info || s.refresh || s.upgrade
                || !no_targets) {
                Some(ParseErrorKind::CleanCacheConflict)
            } else if p.global.asdeps && p.global.asexplicit {
                Some(ParseErrorKind::ReasonConflict)
            } else {
                None
            }
        },
        Operation::Query => {
            let q = p.query;
            if query_mode_count(q) > 1 {
                Some(ParseErrorKind::QueryModeConflict)
            } else if (q.info || q.search || q.list_files || q.owns || q.reverse_deps)
                && no_targets {
                Some(ParseErrorKind::NoTargets)
            } else if q.manual && !no_targets {
                Some(ParseErrorKind::ManualTakesNoTargets)
            } else {
                None
            }
        },
        Operation::Remove => {
            if no_targets {
                Some(ParseErrorKind::NoTargets)
            } else if p.global.asdeps || p.global.asexplicit || p.global.needed
                || p.global.noscriptlet {
                Some(ParseErrorKind::InvalidRemoveOptions)
            } else {
                None
            }
        },
        Operation::Upgrade => {
            if no_targets {
                Some(ParseErrorKind::NoTargets)
            } else {
                None
            }
        },
        Operation::Doctor => {
            if !no_targets {
                Some(ParseErrorKind::DoctorTargets)
            } else {
                None
            }
        },
        Operation::History => None,
        Operation::Help => None,
    }
}

/// The first rule across operations that the command breaks, if any.
pub open spec fn global_rejection(p: ParsedModel) -> Option<ParseErrorKind> {
    let g = p.global;
    if p.op != Operation::Sync && (g.needed || g.asdeps || g.asexplicit || g.noscriptlet) {
        Some(ParseErrorKind::InstallOnlyOptions)
    } else if p.op != Operation::Sync && g.overwrite.len() > 0 {
        Some(ParseErrorKind::OverwriteOnlySync)
    } else if p.op == Operation::Query && g.nodeps > 0 {
        Some(ParseErrorKind::NodepsOnQuery)
    } else if g.compact && g.verbose {
        Some(ParseErrorKind::CompactVerbose)
    } else if g.strict && g.nodeps > 0 {
        Some(ParseErrorKind::StrictNodeps)
    } else if g.strict && g.noscriptlet {
        Some(ParseErrorKind::StrictNoscriptlet)
    } else if g.strict && g.overwrite.len() > 0 {
        Some(ParseErrorKind::StrictOverwrite)
    } else {
        None
    }
}

/// The first rule that the command breaks, if any: the rules of its own
/// operation come before those across operations.
pub open spec fn rejection(p: ParsedModel) -> Option<ParseErrorKind> {
    match operation_rejection(p) {
        Some(k) => Some(k),
        None => global_rejection(p),
    }
}

/// A command that breaks no rule.
pub open spec fn well_formed(p: ParsedModel) -> bool {
    rejection(p) is None
}

/// The validation of a finished scan.
pub open spec fn validate(st: ScanState) -> Result<ParsedModel, ParseErrorModel> {
    match st.op {
        None => Err(plain_error(ParseErrorKind::NoOperation)),
        Some(op) => match flag_error(op, st.flags) {
            Some(k) => Err(plain_error(k)),
            None => match rejection(interpret(op, st)) {
                Some(k) => Err(plain_error(k)),
                None => Ok(interpret(op, st)),
            },
        },
    }
}

/// What a token sequence parses to. No token at all asks for the usage text,
/// as a help request does.
pub open spec fn parse(tokens: Seq<Seq<char>>) -> Result<ParsedModel, ParseErrorModel> {
    if tokens.len() == 0 {
        Ok(help_command())
    } else {
        match scan(tokens) {
            Err(e) => Err(e),
            Ok(Scan::Help) => Ok(help_command()),
            Ok(Scan::Done(st)) => validate(st),
        }
    }
}

/// Whether a result of the parser is what the model says.
pub open spec fn agrees(
    r: Result<ParsedArgs, ParseError>,
    m: Result<ParsedModel, ParseErrorModel>,
) -> bool {
    match r {
        Ok(p) => m == Ok::<ParsedModel, ParseErrorModel>(p@),
        Err(e) => m == Err::<ParsedModel, ParseErrorModel>(e@),
    }
}

/// Records the selection of `new_op`: the first selection is stored, the
/// same one again changes nothing, a different one is refused.
pub fn set_operation(op: &mut Option<Operation>, new_op: Operation) -> (r: Result<(), ParseError>)
    ensures
        match select(*old(op), new_op) {
            Ok(op2) => r is Ok && *final(op) == op2,
            Err(k) => r is Err && r->Err_0@ == plain_error(k) && *final(op) == *old(op),
        },
{
    match *op {
        Some(existing) => {
            if existing != new_op {
                return Err(ParseError::of_kind(ParseErrorKind::OnlyOneOperation));
            }
        },
        None => {
            *op = Some(new_op);
        },
    }
    Ok(())
}


/// The value-taking option that `key` spells, if any.
fn value_option(key: &Vec<char>) -> (r: Option<ValueOption>)
    ensures
        r == value_option_of(key@),
{
    if is_text(key, "--overwrite") {
        Some(ValueOption::Overwrite)
    } else if is_text(key, "--root") {
        Some(ValueOption::Root)
    } else if is_text(key, "--dbpath") {
        Some(ValueOption::DbPath)
    } else if is_text(key, "--cachedir") {
        Some(ValueOption::CacheDir)
    } else {
        None
    }
}

/// One more dependency-bypass request.
fn bump_level(n: u8) -> (r: u8)
    ensures
        r == bump(n),
{
    if n == 255 {
        255
    } else {
        n + 1
    }
}

/// Sets the switch that `key` spells; tells whether there is such a switch.
fn apply_switch(global: &mut GlobalFlags, key: &Vec<char>) -> (known: bool)
    ensures
        match with_switch(old(global)@, key@) {
            Some(g) => known && final(global)@ == g,
            None => !known && *final(global) == *old(global),
        },
{
    if is_text(key, "--test") || is_text(key, "--dry-run") {
        global.test = true;
    } else if is_text(key, "--noconfirm") {
        global.noconfirm = true;
    } else if is_text(key, "--needed") {
        global.needed = true;
    } else if is_text(key, "--nodeps") {
        global.nodeps = bump_level(global.nodeps);
    } else if is_text(key, "--noscriptlet") {
        global.noscriptlet = true;
    } else if is_text(key, "--asdeps") {
        global.asdeps = true;
    } else if is_text(key, "--asexplicit") {
        global.asexplicit = true;
    } else if is_text(key, "--strict") {
        global.strict = true;
    } else if is_text(key, "--compact") {
        global.compact = true;
    } else if is_text(key, "--verbose") {
        global.verbose = true;
    } else {
        return false;
    }
    true
}

/// Gives the value-taking option `opt` the value `v`.
fn apply_value(global: &mut GlobalFlags, opt: ValueOption, v: String)
    ensures
        final(global)@ == with_value(old(global)@, opt, v@),
{
    match opt {
        ValueOption::Overwrite => {
            global.overwrite.push(v);
            proof {
                assert(views(global.overwrite@) =~= views(old(global).overwrite@).push(v@));
            }
        },
        ValueOption::Root => {
            global.root_dir = Some(v);
        },
        ValueOption::DbPath => {
            global.db_path = Some(v);
        },
        ValueOption::CacheDir => {
            global.cache_dir = Some(v);
        },
    }
}

/// The value of the value-taking option at token `i`, whose characters are
/// `arg`, and the number of tokens it takes.
fn take_value(args: &[String], i: usize, arg: &Vec<char>) -> (r: Option<(String, usize)>)
    requires
        i < args@.len(),
        arg@ == args@[i as int]@,
    ensures
        match value_at(views(args@), i as int) {
            Some((v, used)) => r is Some && r->Some_0.0@ == v && r->Some_0.1 == used,
            None => r is None,
        },
{
    let k = find_char(arg, '=', 0);
    if k < arg.len() {
        let v = slice_chars(arg, k + 1, arg.len());
        Some((string_of(&v), 1))
    } else if i < args.len() - 1 {
        Some((args[i + 1].clone(), 2))
    } else {
        None
    }
}

/// Reads the short cluster `arg` from its second character on.
fn read_cluster(arg: &Vec<char>, op: &mut Option<Operation>, flags: &mut Vec<char>) -> (r: Result<
    (),
    ParseError,
>)
    requires
        arg@.len() >= 1,
    ensures
        match scan_cluster(arg@, 1, *old(op), old(flags)@) {
            Ok((op2, flags2)) => r is Ok && *final(op) == op2 && final(flags)@ == flags2,
            Err(k) => r is Err && r->Err_0@ == plain_error(k),
        },
{
    let mut j: usize = 1;
    while j < arg.len()
        invariant
            1 <= j <= arg.len(),
            scan_cluster(arg@, 1, *old(op), old(flags)@) == scan_cluster(
                arg@,
                j as int,
                *op,
                flags@,
            ),
        decreases arg.len() - j,
    {
        let c = arg[j];
        let selected = if c == 'S' {
            Some(Operation::Sync)
        } else if c == 'Q' {
            Some(Operation::Query)
        } else if c == 'R' {
            Some(Operation::Remove)
        } else if c == 'U' {
            Some(Operation::Upgrade)
        } else {
            None
        };
        match selected {
            Some(o) => {
                match set_operation(op, o) {
                    Err(e) => {
                        return Err(e);
                    },
                    Ok(()) => {},
                }
            },
            None => {
                flags.push(c);
            },
        }
        j = j + 1;
    }
    Ok(())
}

/// Whether `c` is among `flags`.
fn has_flag(flags: &Vec<char>, c: char) -> (r: bool)
    ensures
        r == flags@.contains(c),
{
    let mut k: usize = 0;
    while k < flags.len()
        invariant
            k <= flags.len(),
            forall|j: int| 0 <= j < k ==> flags@[j] != c,
        decreases flags.len() - k,
    {
        if flags[k] == c {
            return true;
        }
        k = k + 1;
    }
    false
}

/// How often `c` occurs among `flags`, cut off at 255.
fn count_flag(flags: &Vec<char>, c: char) -> (n: u8)
    ensures
        n == saturate(count_of(flags@, c, flags@.len() as int) as int),
{
    let mut n: u8 = 0;
    let mut k: usize = 0;
    while k < flags.len()
        invariant
            k <= flags.len(),
            n == saturate(count_of(flags@, c, k as int) as int),
        decreases flags.len() - k,
    {
        if flags[k] == c {
            n = bump_level(n);
        }
        k = k + 1;
    }
    n
}

/// The sum of two levels, cut off at 255.
fn add_levels(a: u8, b: u8) -> (r: u8)
    ensures
        r == saturate(a + b),
{
    if a > 255 - b {
        255
    } else {
        a + b
    }
}

/// Whether `c` is a sub-flag of `op`.
fn is_flag_of(op: Operation, c: char) -> (r: bool)
    ensures
        r == flag_allowed(op, c),
{
    match op {
        Operation::Sync => c == 'y' || c == 'u' || c == 's' || c == 'i' || c == 'd' || c == 'c',
        Operation::Query => c == 'i' || c == 's' || c == 'l' || c == 'm' || c == 'o' || c == 'e'
            || c == 'r',
        Operation::Remove => c == 's' || c == 'n' || c == 'd',
        Operation::Upgrade => c == 'd',
        _ => false,
    }
}

/// The error, if any, that the sub-flag characters give for `op`.
fn check_flags(op: Operation, flags: &Vec<char>) -> (r: Option<ParseErrorKind>)
    ensures
        r == flag_error(op, flags@),
{
    match op {
        Operation::Doctor => {
            if flags.len() > 0 {
                Some(ParseErrorKind::DoctorFlags)
            } else {
                None
            }
        },
        Operation::History => {
            if flags.len() > 0 {
                Some(ParseErrorKind::HistoryFlags)
            } else {
                None
            }
        },
        Operation::Help => None,
        _ => {
            let mut k: usize = 0;
            while k < flags.len()
                invariant
                    k <= flags.len(),
                    op is Sync || op is Query || op is Remove || op is Upgrade,
                    first_bad_flag(op, flags@, 0) == first_bad_flag(op, flags@, k as int),
                decreases flags.len() - k,
            {
                if !is_flag_of(op, flags[k]) {
                    return Some(ParseErrorKind::InvalidFlag(op, flags[k]));
                }
                k = k + 1;
            }
            None
        },
    }
}

/// The first rule of its own operation that `p` breaks, if any.
pub fn find_operation_rejection(p: &ParsedArgs) -> (r: Option<ParseErrorKind>)
    ensures
        r == operation_rejection(p@),
{
    let no_targets = p.targets.len() == 0;
    match p.op {
        Operation::Sync => {
            let s = p.sync;
            if s.search && s.info {
                Some(ParseErrorKind::SearchInfoConflict)
            } else if (s.search || s.info) && (s.refresh || s.upgrade) {
                Some(ParseErrorKind::SearchWithRefresh)
            } else if (s.search || s.info) && no_targets {
                Some(ParseErrorKind::NoTargets)
            } else if !s.search && !s.info && no_targets && !s.refresh && !s.upgrade
                && s.clean_cache == 0 {
                Some(ParseErrorKind::NoTargets)
            } else if s.clean_cache > 0 && (s.search || s.info || s.refresh || s.upgrade
                || !no_targets) {
                Some(ParseErrorKind::CleanCacheConflict)
            } else if p.global.asdeps && p.global.asexplicit {
                Some(ParseErrorKind::ReasonConflict)
            } else {
                None
            }
        },
        Operation::Query => {
            let q = p.query;
            let mut modes: u8 = 0;
            if q.info {
                modes = modes + 1;
            }
            if q.search {
                modes = modes + 1;
            }
            if q.list_files {
                modes = modes + 1;
            }
            if q.manual {
                modes = modes + 1;
            }
            if q.owns {
                modes = modes + 1;
            }
            if q.explicit {
                modes = modes + 1;
            }
            if q.reverse_deps {
                modes = modes + 1;
            }
            if modes > 1 {
                Some(ParseErrorKind::QueryModeConflict)
            } else if (q.info || q.search || q.list_files || q.owns || q.reverse_deps)
                && no_targets {
                Some(ParseErrorKind::NoTargets)
            } else if q.manual && !no_targets {
                Some(ParseErrorKind::ManualTakesNoTargets)
            } else {
                None
            }
        },
        Operation::Remove => {
            if no_targets {
                Some(ParseErrorKind::NoTargets)
            } else if p.global.asdeps || p.global.asexplicit || p.global.needed
                || p.global.noscriptlet {
                Some(ParseErrorKind::InvalidRemoveOptions)
            } else {
                None
            }
        },
        Operation::Upgrade => {
            if no_targets {
                Some(ParseErrorKind::NoTargets)
            } else {
                None
            }
        },
        Operation::Doctor => {
            if !no_targets {
                Some(ParseErrorKind::DoctorTargets)
            } else {
                None
            }
        },
        Operation::History => None,
        Operation::Help => None,
    }
}

/// The first rule across operations that `p` breaks, if any.
pub fn find_global_rejection(p: &ParsedArgs) -> (r: Option<ParseErrorKind>)
    ensures
        r == global_rejection(p@),
{
    let g = &p.global;
    let not_sync = match p.op {
        Operation::Sync => false,
        _ => true,
    };
    let is_query = match p.op {
        Operation::Query => true,
        _ => false,
    };
    if not_sync && (g.needed || g.asdeps || g.asexplicit || g.noscriptlet) {
        Some(ParseErrorKind::InstallOnlyOptions)
    } else if not_sync && g.overwrite.len() > 0 {
        Some(ParseErrorKind::OverwriteOnlySync)
    } else if is_query && g.nodeps > 0 {
        Some(ParseErrorKind::NodepsOnQuery)
    } else if g.compact && g.verbose {
        Some(ParseErrorKind::CompactVerbose)
    } else if g.strict && g.nodeps > 0 {
        Some(ParseErrorKind::StrictNodeps)
    } else if g.strict && g.noscriptlet {
        Some(ParseErrorKind::StrictNoscriptlet)
    } else if g.strict && g.overwrite.len() > 0 {
        Some(ParseErrorKind::StrictOverwrite)
    } else {
        None
    }
}

/// The command that a help request stands for.
fn help_args() -> (p: ParsedArgs)
    ensures
        p@ == help_command(),
{
    let p = ParsedArgs {
        op: Operation::Help,
        sync: SyncFlags::default(),
        query: QueryFlags::default(),
        remove: RemoveFlags::default(),
        targets: Vec::new(),
        global: GlobalFlags::default(),
    };
    proof {
        assert(views(p.targets@) =~= Seq::<Seq<char>>::empty());
    }
    p
}

/// The command that what the scan gathered stands for under `op`, before
/// the rules are applied.
fn build(
    op: Operation,
    flags: &Vec<char>,
    targets: Vec<String>,
    global: GlobalFlags,
    Ghost(st): Ghost<ScanState>,
) -> (p: ParsedArgs)
    requires
        st.flags == flags@,
        st.targets == views(targets@),
        st.global == global@,
    ensures
        p@ == interpret(op, st),
{
    let mut global = global;
    let sync = match op {
        Operation::Sync => SyncFlags {
            refresh: has_flag(flags, 'y'),
            upgrade: has_flag(flags, 'u'),
            search: has_flag(flags, 's'),
            info: has_flag(flags, 'i'),
            clean_cache: count_flag(flags, 'c'),
        },
        _ => SyncFlags::default(),
    };
    let query = match op {
        Operation::Query => QueryFlags {
            info: has_flag(flags, 'i'),
            search: has_flag(flags, 's'),
            list_files: has_flag(flags, 'l'),
            manual: has_flag(flags, 'm'),
            owns: has_flag(flags, 'o'),
            explicit: has_flag(flags, 'e'),
            reverse_deps: has_flag(flags, 'r'),
        },
        _ => QueryFlags::default(),
    };
    let remove = match op {
        Operation::Remove => RemoveFlags {
            recursive: has_flag(flags, 's'),
            nosave: has_flag(flags, 'n'),
        },
        _ => RemoveFlags::default(),
    };
    match op {
        Operation::Sync | Operation::Remove | Operation::Upgrade => {
            global.nodeps = add_levels(global.nodeps, count_flag(flags, 'd'));
        },
        _ => {},
    }
    ParsedArgs { op, sync, query, remove, targets, global }
}

/// Interprets what a finished scan gathered and applies the rules.
fn finish(
    op: Option<Operation>,
    flags: Vec<char>,
    targets: Vec<String>,
    global: GlobalFlags,
    Ghost(st): Ghost<ScanState>,
) -> (r: Result<ParsedArgs, ParseError>)
    requires
        st.op == op,
        st.flags == flags@,
        st.targets == views(targets@),
        st.global == global@,
    ensures
        agrees(r, validate(st)),
{
    let op = match op {
        None => {
            return Err(ParseError::of_kind(ParseErrorKind::NoOperation));
        },
        Some(op) => op,
    };
    match check_flags(op, &flags) {
        Some(k) => {
            return Err(ParseError::of_kind(k));
        },
        None => {},
    }
    let parsed = build(op, &flags, targets, global, Ghost(st));
    match find_operation_rejection(&parsed) {
        Some(k) => {
            return Err(ParseError::of_kind(k));
        },
        None => {},
    }
    match find_global_rejection(&parsed) {
        Some(k) => {
            return Err(ParseError::of_kind(k));
        },
        None => {},
    }
    Ok(parsed)
}

/// Parses the tokens of a command line, the program name left out, into a
/// validated command, or says which rule the command line breaks.
pub fn parse_args(args: &[String]) -> (r: Result<ParsedArgs, ParseError>)
    ensures
        agrees(r, parse(views(args@))),
        r is Ok ==> well_formed(r->Ok_0@),
{
    let ghost tokens = views(args@);
    if args.len() == 0 {
        return Ok(help_args());
    }
    let mut op: Option<Operation> = None;
    let mut flags: Vec<char> = Vec::new();
    let mut targets: Vec<String> = Vec::new();
    let mut in_options = true;
    let mut global = GlobalFlags::default();
    let mut i: usize = 0;
    proof {
        assert(views(targets@) =~= Seq::<Seq<char>>::empty());
    }
    while i < args.len()
        invariant
            tokens == views(args@),
            i <= args.len(),
            scan(tokens) == scan_from(
                tokens,
                i as int,
                ScanState { op, flags: flags@, targets: views(targets@), in_options, global: global@ },
            ),
        decreases args.len() - i,
    {
        let ghost st = ScanState {
            op,
            flags: flags@,
            targets: views(targets@),
            in_options,
            global: global@,
        };
        let arg = chars_of(args[i].as_str());
        let mut used: usize = 1;
        proof {
            assert(arg@ == tokens[i as int]);
        }
        if in_options && is_text(&arg, "--doctor") {
            match set_operation(&mut op, Operation::Doctor) {
                Err(e) => {
                    return Err(e);
                },
                Ok(()) => {},
            }
        } else if in_options && is_text(&arg, "--history") {
            match set_operation(&mut op, Operation::History) {
                Err(e) => {
                    return Err(e);
                },
                Ok(()) => {},
            }
        } else if i == 0 && is_text(&arg, "doctor") {
            match set_operation(&mut op, Operation::Doctor) {
                Err(e) => {
                    return Err(e);
                },
                Ok(()) => {},
            }
        } else if i == 0 && is_text(&arg, "history") {
            match set_operation(&mut op, Operation::History) {
                Err(e) => {
                    return Err(e);
                },
                Ok(()) => {},
            }
        } else if in_options && (is_text(&arg, "-h") || is_text(&arg, "--help")) {
            return Ok(help_args());
        } else if in_options && is_text(&arg, "--") {
            in_options = false;
        } else if in_options && starts_with_text(&arg, "--") {
            let k = find_char(&arg, '=', 0);
            let key = slice_chars(&arg, 0, k);
            match value_option(&key) {
                Some(opt) => {
                    match take_value(args, i, &arg) {
                        Some((v, n)) => {
                            apply_value(&mut global, opt, v);
                            used = n;
                        },
                        None => {
                            return Err(ParseError::of_kind(ParseErrorKind::MissingValue(opt)));
                        },
                    }
                },
                None => {
                    if !apply_switch(&mut global, &key) {
                        return Err(
                            ParseError {
                                kind: ParseErrorKind::InvalidOption,
                                token: args[i].clone(),
                            },
                        );
                    }
                },
            }
        } else if in_options && starts_with_text(&arg, "-") && arg.len() > 1 {
            match read_cluster(&arg, &mut op, &mut flags) {
                Err(e) => {
                    return Err(e);
                },
                Ok(()) => {},
            }
        } else {
            targets.push(args[i].clone());
            proof {
                assert(views(targets@) =~= st.targets.push(arg@));
            }
        }
        proof {
            assert(step(tokens, i as int, st) == Ok::<Step, ParseErrorModel>(
                Step::Next(
                    ScanState {
                        op,
                        flags: flags@,
                        targets: views(targets@),
                        in_options,
                        global: global@,
                    },
                    used as int,
                ),
            ));
        }
        i = i + used;
    }
    let ghost st = ScanState {
        op,
        flags: flags@,
        targets: views(targets@),
        in_options,
        global: global@,
    };
    let r = finish(op, flags, targets, global, Ghost(st));
    r
}

} // verus!
