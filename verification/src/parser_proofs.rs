//! What holds of every command line: facts about the parser that follow
//! from its definition, proved once for all token sequences.

use vstd::prelude::*;
use crate::cli::{plain_error, Operation, ParseErrorKind, ParseErrorModel, ParsedModel};
use crate::parser::{
    count_of, first_bad_flag, flag_allowed, flag_error, initial_state, operation_of, parse, scan,
    scan_cluster, scan_from, select, step, well_formed, Scan, ScanState, Step,
};
use crate::text::has_prefix;

verus! {

/// Selecting the operation that is already selected changes nothing, and
/// selecting a different one is refused.
pub proof fn lemma_select_twice(a: Operation, b: Operation)
    ensures
        select(Some(a), a) == Ok::<Option<Operation>, ParseErrorKind>(Some(a)),
        a != b ==> select(Some(a), b) == Err::<Option<Operation>, ParseErrorKind>(
            ParseErrorKind::OnlyOneOperation,
        ),
        select(None, a) == Ok::<Option<Operation>, ParseErrorKind>(Some(a)),
{
}

/// In a short cluster, the letter of the operation that is already selected
/// is passed over: the rest of the cluster is read as if it were not there.
pub proof fn lemma_same_letter_is_skipped(arg: Seq<char>, j: int, a: Operation, flags: Seq<char>)
    requires
        0 <= j < arg.len(),
        operation_of(arg[j]) == Some(a),
    ensures
        scan_cluster(arg, j, Some(a), flags) == scan_cluster(arg, j + 1, Some(a), flags),
        scan_cluster(arg, j, None, flags) == scan_cluster(arg, j + 1, Some(a), flags),
{
}

/// Once an operation is selected, a short cluster that holds the letter of
/// another one at or after index `from` is refused.
pub proof fn lemma_other_letter_refused(
    arg: Seq<char>,
    from: int,
    j: int,
    a: Operation,
    flags: Seq<char>,
)
    requires
        0 <= from <= j < arg.len(),
        operation_of(arg[j]) is Some,
        operation_of(arg[j]) != Some(a),
    ensures
        scan_cluster(arg, from, Some(a), flags) == Err::<
            (Option<Operation>, Seq<char>),
            ParseErrorKind,
        >(ParseErrorKind::OnlyOneOperation),
    decreases j - from,
{
    if from < j {
        match operation_of(arg[from]) {
            Some(o) => {
                if o == a {
                    lemma_other_letter_refused(arg, from + 1, j, a, flags);
                }
            },
            None => {
                lemma_other_letter_refused(arg, from + 1, j, a, flags.push(arg[from]));
            },
        }
    }
}

/// A short cluster that holds the letters of two different operations is
/// refused, whatever was selected before it.
pub proof fn lemma_two_letters_refused(
    arg: Seq<char>,
    from: int,
    j1: int,
    j2: int,
    op: Option<Operation>,
    flags: Seq<char>,
)
    requires
        0 <= from <= j1 < j2 < arg.len(),
        operation_of(arg[j1]) is Some,
        operation_of(arg[j2]) is Some,
        operation_of(arg[j1]) != operation_of(arg[j2]),
    ensures
        scan_cluster(arg, from, op, flags) == Err::<(Option<Operation>, Seq<char>), ParseErrorKind>(
            ParseErrorKind::OnlyOneOperation,
        ),
    decreases j1 - from,
{
    if from == j1 {
        let a = operation_of(arg[j1])->Some_0;
        match select(op, a) {
            Err(_) => {},
            Ok(op2) => {
                assert(op2 == Some(a));
                lemma_other_letter_refused(arg, from + 1, j2, a, flags);
            },
        }
    } else {
        match operation_of(arg[from]) {
            Some(o) => {
                match select(op, o) {
                    Err(_) => {},
                    Ok(op2) => {
                        lemma_two_letters_refused(arg, from + 1, j1, j2, op2, flags);
                    },
                }
            },
            None => {
                lemma_two_letters_refused(arg, from + 1, j1, j2, op, flags.push(arg[from]));
            },
        }
    }
}

/// Token `i` is read as a short cluster in state `st`.
pub open spec fn read_as_cluster(tokens: Seq<Seq<char>>, i: int, st: ScanState) -> bool {
    let arg = tokens[i];
    &&& 0 <= i < tokens.len()
    &&& st.in_options
    &&& arg != "--doctor"@
    &&& arg != "--history"@
    &&& !(i == 0 && arg == "doctor"@)
    &&& !(i == 0 && arg == "history"@)
    &&& arg != "-h"@
    &&& arg != "--help"@
    &&& arg != "--"@
    &&& !has_prefix(arg, "--"@)
    &&& has_prefix(arg, "-"@)
    &&& arg.len() > 1
}

/// A command line on which the scan, with operation `a` selected, comes to a
/// short cluster that holds the letter of a different operation does not
/// parse: the error is that only one operation may be used.
pub proof fn lemma_second_operation_refused(
    tokens: Seq<Seq<char>>,
    i: int,
    st: ScanState,
    j: int,
    a: Operation,
)
    requires
        scan(tokens) == scan_from(tokens, i, st),
        read_as_cluster(tokens, i, st),
        st.op == Some(a),
        1 <= j < tokens[i].len(),
        operation_of(tokens[i][j]) is Some,
        operation_of(tokens[i][j]) != Some(a),
    ensures
        parse(tokens) == Err::<ParsedModel, ParseErrorModel>(
            plain_error(ParseErrorKind::OnlyOneOperation),
        ),
{
    lemma_other_letter_refused(tokens[i], 1, j, a, st.flags);
}

/// A command line on which the scan comes to a short cluster that holds the
/// letters of two different operations does not parse: the error is that
/// only one operation may be used.
pub proof fn lemma_two_operations_refused(
    tokens: Seq<Seq<char>>,
    i: int,
    st: ScanState,
    j1: int,
    j2: int,
)
    requires
        scan(tokens) == scan_from(tokens, i, st),
        read_as_cluster(tokens, i, st),
        1 <= j1 < j2 < tokens[i].len(),
        operation_of(tokens[i][j1]) is Some,
        operation_of(tokens[i][j2]) is Some,
        operation_of(tokens[i][j1]) != operation_of(tokens[i][j2]),
    ensures
        parse(tokens) == Err::<ParsedModel, ParseErrorModel>(
            plain_error(ParseErrorKind::OnlyOneOperation),
        ),
{
    lemma_two_letters_refused(tokens[i], 1, j1, j2, st.op, st.flags);
}

/// A command line on which the scan, with an operation selected, comes to
/// the long option of a different pseudo-operation does not parse: the
/// error is that only one operation may be used.
pub proof fn lemma_second_pseudo_operation_refused(
    tokens: Seq<Seq<char>>,
    i: int,
    st: ScanState,
    a: Operation,
)
    requires
        0 <= i < tokens.len(),
        scan(tokens) == scan_from(tokens, i, st),
        st.in_options,
        st.op == Some(a),
        (tokens[i] == "--doctor"@ && a != Operation::Doctor) || (tokens[i] == "--history"@ && a
            != Operation::History),
    ensures
        parse(tokens) == Err::<ParsedModel, ParseErrorModel>(
            plain_error(ParseErrorKind::OnlyOneOperation),
        ),
{
    reveal_strlit("--doctor");
    reveal_strlit("--history");
    assert("--doctor"@ != "--history"@) by {
        assert("--doctor"@[2] == 'd');
        assert("--history"@[2] == 'h');
    }
}

/// Reading a cluster from index `k + 1` on is reading, from index `k` on,
/// the cluster without its character at an index `j` up to `k`.
pub proof fn lemma_cluster_without(
    arg: Seq<char>,
    j: int,
    k: int,
    op: Option<Operation>,
    flags: Seq<char>,
)
    requires
        0 <= j <= k < arg.len(),
    ensures
        scan_cluster(arg, k + 1, op, flags) == scan_cluster(arg.remove(j), k, op, flags),
    decreases arg.len() - k,
{
    let less = arg.remove(j);
    if k + 1 < arg.len() {
        assert(less[k] == arg[k + 1]);
        match operation_of(arg[k + 1]) {
            Some(o) => {
                match select(op, o) {
                    Err(_) => {},
                    Ok(op2) => {
                        lemma_cluster_without(arg, j, k + 1, op2, flags);
                    },
                }
            },
            None => {
                lemma_cluster_without(arg, j, k + 1, op, flags.push(arg[k + 1]));
            },
        }
    }
}

/// Selecting the selected operation again is idempotent: a cluster that
/// repeats the letter of the operation that is already selected reads as
/// the cluster without that letter.
pub proof fn lemma_repeated_letter_is_idle(arg: Seq<char>, j: int, a: Operation, flags: Seq<char>)
    requires
        0 <= j < arg.len(),
        operation_of(arg[j]) == Some(a),
    ensures
        scan_cluster(arg, j, Some(a), flags) == scan_cluster(arg.remove(j), j, Some(a), flags),
{
    lemma_cluster_without(arg, j, j, Some(a), flags);
}

/// Every command that the parser accepts breaks no rule.
pub proof fn lemma_parsed_is_well_formed(tokens: Seq<Seq<char>>)
    ensures
        parse(tokens) is Ok ==> well_formed(parse(tokens)->Ok_0),
{
}

/// In an accepted sync command, the search and info modes never stand
/// together with a refresh or an upgrade.
pub proof fn lemma_sync_modes_exclusive(tokens: Seq<Seq<char>>)
    ensures
        parse(tokens) matches Ok(p) ==> (p.op == Operation::Sync ==> !((p.sync.search
            || p.sync.info) && (p.sync.refresh || p.sync.upgrade))),
{
}

/// A sync command line whose sub-flags ask for search or info together with
/// refresh or upgrade never parses.
pub proof fn lemma_sync_conflict_refused(tokens: Seq<Seq<char>>, st: ScanState)
    requires
        tokens.len() > 0,
        scan(tokens) == Ok::<Scan, ParseErrorModel>(Scan::Done(st)),
        st.op == Some(Operation::Sync),
        st.flags.contains('s') || st.flags.contains('i'),
        st.flags.contains('y') || st.flags.contains('u'),
    ensures
        parse(tokens) is Err,
{
}

/// If `c` occurs among the first `upto` characters of `s`, its count there
/// is at least one.
pub proof fn lemma_count_positive(s: Seq<char>, c: char, upto: int, k: int)
    requires
        0 <= k < upto <= s.len(),
        s[k] == c,
    ensures
        count_of(s, c, upto) >= 1,
    decreases upto,
{
    if k < upto - 1 {
        lemma_count_positive(s, c, upto - 1, k);
    }
}

/// In an accepted command with strict mode set, no dependency bypass, no
/// scriptlet suppression and no overwrite pattern is in force.
pub proof fn lemma_strict_is_safe(tokens: Seq<Seq<char>>)
    ensures
        parse(tokens) matches Ok(p) ==> (p.global.strict ==> p.global.nodeps == 0
            && !p.global.noscriptlet && p.global.overwrite.len() == 0),
{
}

/// A command line that sets strict mode and also asks for a dependency
/// bypass (by option or by a `d` sub-flag), for scriptlet suppression or for
/// an overwrite pattern never parses: the request is refused, not dropped.
pub proof fn lemma_strict_conflict_refused(tokens: Seq<Seq<char>>, st: ScanState)
    requires
        tokens.len() > 0,
        scan(tokens) == Ok::<Scan, ParseErrorModel>(Scan::Done(st)),
        st.global.strict,
        st.global.nodeps > 0 || st.flags.contains('d') || st.global.noscriptlet
            || st.global.overwrite.len() > 0,
    ensures
        parse(tokens) is Err,
{
    lemma_scan_never_selects_help(tokens, 0, initial_state());
    if st.op is Some {
        let op = st.op->Some_0;
        if flag_error(op, st.flags) is None {
            if st.flags.contains('d') {
                let k = choose|k: int| 0 <= k < st.flags.len() && st.flags[k] == 'd';
                lemma_count_positive(st.flags, 'd', st.flags.len() as int, k);
                if op == Operation::Query {
                    lemma_bad_flag_found(op, st.flags, 0, k);
                }
            }
        }
    }
}

/// If the character at index `k` is no sub-flag of `op`, the first such
/// character at or after `from` stands at or before `k`.
pub proof fn lemma_bad_flag_found(op: Operation, flags: Seq<char>, from: int, k: int)
    requires
        0 <= from <= k < flags.len(),
        !flag_allowed(op, flags[k]),
    ensures
        first_bad_flag(op, flags, from) <= k,
    decreases k - from,
{
    if from < k {
        lemma_bad_flag_found(op, flags, from + 1, k);
    }
}

/// Reading a short cluster never selects the help pseudo-operation.
pub proof fn lemma_cluster_never_selects_help(
    arg: Seq<char>,
    j: int,
    op: Option<Operation>,
    flags: Seq<char>,
)
    requires
        0 <= j,
        op != Some(Operation::Help),
    ensures
        scan_cluster(arg, j, op, flags) matches Ok((op2, _)) ==> op2 != Some(Operation::Help),
    decreases arg.len() - j,
{
    if j < arg.len() {
        match operation_of(arg[j]) {
            Some(o) => {
                match select(op, o) {
                    Err(_) => {},
                    Ok(op2) => {
                        lemma_cluster_never_selects_help(arg, j + 1, op2, flags);
                    },
                }
            },
            None => {
                lemma_cluster_never_selects_help(arg, j + 1, op, flags.push(arg[j]));
            },
        }
    }
}

/// The scan never selects the help pseudo-operation: a help request ends
/// the scan instead.
pub proof fn lemma_scan_never_selects_help(tokens: Seq<Seq<char>>, i: int, st: ScanState)
    requires
        0 <= i,
        st.op != Some(Operation::Help),
    ensures
        scan_from(tokens, i, st) matches Ok(Scan::Done(end)) ==> end.op != Some(Operation::Help),
    decreases tokens.len() - i,
{
    if i < tokens.len() {
        lemma_cluster_never_selects_help(tokens[i], 1, st.op, st.flags);
        match step(tokens, i, st) {
            Ok(Step::Next(st2, used)) => {
                if used >= 1 {
                    lemma_scan_never_selects_help(tokens, i + used, st2);
                }
            },
            _ => {},
        }
    }
}

/// The scan never takes back strict mode, a dependency bypass, scriptlet
/// suppression or an overwrite pattern that an earlier token has set.
pub proof fn lemma_scan_keeps_requests(tokens: Seq<Seq<char>>, i: int, st: ScanState)
    requires
        0 <= i,
    ensures
        scan_from(tokens, i, st) matches Ok(Scan::Done(end)) ==> {
            &&& st.global.strict ==> end.global.strict
            &&& st.global.noscriptlet ==> end.global.noscriptlet
            &&& st.global.nodeps > 0 ==> end.global.nodeps > 0
            &&& st.global.overwrite.len() > 0 ==> end.global.overwrite.len() > 0
        },
    decreases tokens.len() - i,
{
    if i < tokens.len() {
        match step(tokens, i, st) {
            Ok(Step::Next(st2, used)) => {
                if used >= 1 {
                    lemma_scan_keeps_requests(tokens, i + used, st2);
                }
            },
            _ => {},
        }
    }
}

} // verus!
