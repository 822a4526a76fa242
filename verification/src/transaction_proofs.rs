//! What holds of every transaction session, whatever the outside work
//! reports.

use vstd::prelude::*;
use crate::transaction::{
    exit_code_of, initial, next, release_actions, released, run, Action, Event, Exit, Notice,
    Pending, Phase, Plan, Preflight, Status, TransactionSession,
};

verus! {

/// Releasing is idempotent: a second release changes nothing and asks for
/// no call of the package library, and so does the release of a session
/// that is already closed.
pub proof fn lemma_release_idempotent(s: TransactionSession)
    ensures
        released(released(s).0) == (released(s).0, false),
        released(s).0.phase == Phase::Closed,
        !released(s).0.held,
        released(s).1 == s.held,
        s.phase == Phase::Closed && s.pending == Pending::Nothing && !s.held ==> released(s) == (
            s,
            false,
        ),
{
}

/// An empty changeset is a no-op: the transaction is released, the history
/// gets an entry with status `noop`, and the operation succeeds with exit
/// code 0. Nothing is committed.
pub proof fn lemma_empty_changeset_is_noop(s: TransactionSession)
    requires
        s.pending == Pending::Summarize,
    ensures
        next(s, Event::Summarized(0)).1 == release_actions(s) + seq![
            Action::Say(Notice::NothingToDo),
            Action::Record(Status::Noop),
            Action::Exit(Exit::Success),
        ],
        next(s, Event::Summarized(0)).0.status == Some(Status::Noop),
        next(s, Event::Summarized(0)).0.phase == Phase::Closed,
        !next(s, Event::Summarized(0)).0.held,
        !next(s, Event::Summarized(0)).1.contains(Action::Commit),
        !next(s, Event::Summarized(0)).1.contains(Action::Exit(Exit::Failure)),
        exit_code_of(Exit::Success) == 0,
{
    let acts = next(s, Event::Summarized(0)).1;
    let tail = seq![
        Action::Say(Notice::NothingToDo),
        Action::Record(Status::Noop),
        Action::Exit(Exit::Success),
    ];
    assert forall|i: int| 0 <= i < acts.len() implies acts[i] != Action::Commit && acts[i]
        != Action::Exit(Exit::Failure) by {
        if s.held {
            if i >= 1 {
                assert(acts[i] == tail[i - 1]);
            }
        } else {
            assert(acts[i] == tail[i]);
        }
    }
}

/// Declining the confirmation cancels: the transaction is released, the
/// history gets an entry with status `cancelled`, and the operation
/// succeeds with exit code 0. No commit is asked for.
pub proof fn lemma_decline_is_cancelled(s: TransactionSession)
    requires
        s.pending == Pending::Confirm,
    ensures
        next(s, Event::Answered(false)).1 == release_actions(s) + seq![
            Action::Record(Status::Cancelled),
            Action::Exit(Exit::Success),
        ],
        next(s, Event::Answered(false)).0.status == Some(Status::Cancelled),
        next(s, Event::Answered(false)).0.phase == Phase::Closed,
        !next(s, Event::Answered(false)).0.held,
        !next(s, Event::Answered(false)).1.contains(Action::Commit),
        !next(s, Event::Answered(false)).1.contains(Action::Exit(Exit::Failure)),
        exit_code_of(Exit::Success) == 0,
{
    let acts = next(s, Event::Answered(false)).1;
    let tail = seq![Action::Record(Status::Cancelled), Action::Exit(Exit::Success)];
    assert forall|i: int| 0 <= i < acts.len() implies acts[i] != Action::Commit && acts[i]
        != Action::Exit(Exit::Failure) by {
        if s.held {
            if i >= 1 {
                assert(acts[i] == tail[i - 1]);
            }
        } else {
            assert(acts[i] == tail[i]);
        }
    }
}

/// What holds of a session at every point of every run.
pub open spec fn consistent(s: TransactionSession) -> bool {
    &&& s.phase == Phase::Closed <==> s.pending == Pending::Nothing
    &&& s.phase == Phase::Closed ==> !s.held
    &&& s.held ==> s.phase == Phase::Open || s.phase == Phase::Populated || s.phase
        == Phase::Prepared
    &&& s.status is Some ==> s.phase == Phase::Closed
    &&& s.status == Some(Status::Cancelled) || s.status == Some(Status::Noop) || s.status == Some(
        Status::DryRun,
    ) ==> !s.commit_requested
    &&& s.pending == Pending::Confirm ==> !s.plan.dry_run && !s.commit_requested
    &&& s.pending == Pending::Commit <==> s.commit_requested && s.phase != Phase::Closed
    &&& s.pending == Pending::Begin || s.pending == Pending::Preflight || s.pending
        == Pending::Refresh || s.pending == Pending::Init ==> s.phase == Phase::Uninitialized
        && !s.held && !s.commit_requested
}

/// One step keeps a session consistent.
pub proof fn lemma_step_consistent(s: TransactionSession, e: Event)
    requires
        consistent(s),
    ensures
        consistent(next(s, e).0),
{
}

/// Every session of every run is consistent.
pub proof fn lemma_run_consistent(plan: Plan, events: Seq<Event>)
    ensures
        consistent(run(plan, events).0),
    decreases events.len(),
{
    if events.len() > 0 {
        lemma_run_consistent(plan, events.drop_last());
        lemma_step_consistent(run(plan, events.drop_last()).0, events.last());
    }
}

/// What one step asks for, in terms of the session before and after it: a
/// commit only by marking it as asked for, a release only of a transaction
/// that is held and at most once, and an exit only from a closed session.
pub proof fn lemma_step_actions(s: TransactionSession, e: Event)
    requires
        consistent(s),
    ensures
        next(s, e).1.contains(Action::Commit) ==> !s.commit_requested && next(
            s,
            e,
        ).0.commit_requested,
        s.commit_requested ==> next(s, e).0.commit_requested,
        next(s, e).1.contains(Action::Release) ==> s.held && !next(s, e).0.held,
        forall|i: int, j: int|
            0 <= i < j < next(s, e).1.len() ==> !(next(s, e).1[i] == Action::Release && next(
                s,
                e,
            ).1[j] == Action::Release),
        forall|x: Exit| #[trigger]
            next(s, e).1.contains(Action::Exit(x)) ==> next(s, e).0.phase == Phase::Closed && !next(
                s,
                e,
            ).0.held,
        s.phase == Phase::Closed ==> next(s, e) == (s, Seq::<Action>::empty()),
{
    let acts = next(s, e).1;
    assert forall|i: int| 0 <= i < acts.len() && #[trigger] acts[i] == Action::Release implies s.held
        && (i == 0 || (i == 1 && acts[0] == Action::Say(Notice::SkippingCommit))) && !next(
        s,
        e,
    ).0.held by {
        lemma_release_position(s, e, i);
    }
    assert forall|i: int| 0 <= i < acts.len() && #[trigger] acts[i] == Action::Commit implies
        !s.commit_requested && next(s, e).0.commit_requested by {
        lemma_commit_position(s, e, i);
    }
    assert forall|x: Exit| #[trigger] acts.contains(Action::Exit(x)) implies next(s, e).0.phase
        == Phase::Closed && !next(s, e).0.held by {
        let i = choose|i: int| 0 <= i < acts.len() && acts[i] == Action::Exit(x);
        lemma_exit_position(s, e, i);
    }
}

/// A release stands first among the actions of a step, and only when the
/// transaction is held.
pub proof fn lemma_release_position(s: TransactionSession, e: Event, i: int)
    requires
        consistent(s),
        0 <= i < next(s, e).1.len(),
        next(s, e).1[i] == Action::Release,
    ensures
        s.held,
        !next(s, e).0.held,
        i == 0 || (i == 1 && next(s, e).1[0] == Action::Say(Notice::SkippingCommit)),
{
}

/// A step that asks for a commit marks it as asked for.
pub proof fn lemma_commit_position(s: TransactionSession, e: Event, i: int)
    requires
        consistent(s),
        0 <= i < next(s, e).1.len(),
        next(s, e).1[i] == Action::Commit,
    ensures
        !s.commit_requested,
        next(s, e).0.commit_requested,
{
}

/// A step that asks for the exit leaves the session closed.
pub proof fn lemma_exit_position(s: TransactionSession, e: Event, i: int)
    requires
        consistent(s),
        0 <= i < next(s, e).1.len(),
        next(s, e).1[i] is Exit,
    ensures
        next(s, e).0.phase == Phase::Closed,
        !next(s, e).0.held,
{
}

/// An action of `a + b` is an action of `a` or of `b`.
pub proof fn lemma_contains_either(a: Seq<Action>, b: Seq<Action>, x: Action)
    ensures
        (a + b).contains(x) <==> a.contains(x) || b.contains(x),
{
    if (a + b).contains(x) {
        let i = choose|i: int| 0 <= i < (a + b).len() && (a + b)[i] == x;
        if i < a.len() {
            assert(a[i] == x);
        } else {
            assert(b[i - a.len()] == x);
        }
    }
    if a.contains(x) {
        let i = choose|i: int| 0 <= i < a.len() && a[i] == x;
        assert((a + b)[i] == x);
    }
    if b.contains(x) {
        let i = choose|i: int| 0 <= i < b.len() && b[i] == x;
        assert((a + b)[a.len() + i] == x);
    }
}

/// What the actions of a run say of its session: a run that asked for a
/// commit has it marked, one that asked for a release holds nothing any
/// more, and one that asked for the exit is closed.
pub proof fn lemma_run_actions(plan: Plan, events: Seq<Event>)
    ensures
        consistent(run(plan, events).0),
        run(plan, events).1.contains(Action::Commit) ==> run(plan, events).0.commit_requested,
        run(plan, events).1.contains(Action::Release) ==> !run(plan, events).0.held && run(
            plan,
            events,
        ).0.phase != Phase::Uninitialized,
        forall|x: Exit| #[trigger]
            run(plan, events).1.contains(Action::Exit(x)) ==> run(plan, events).0.phase
                == Phase::Closed,
    decreases events.len(),
{
    lemma_run_consistent(plan, events);
    if events.len() > 0 {
        let (s, done) = run(plan, events.drop_last());
        let e = events.last();
        let (s2, more) = next(s, e);
        lemma_run_actions(plan, events.drop_last());
        lemma_step_actions(s, e);
        lemma_contains_either(done, more, Action::Commit);
        lemma_contains_either(done, more, Action::Release);
        assert forall|x: Exit| #[trigger] run(plan, events).1.contains(Action::Exit(x)) implies run(
            plan,
            events,
        ).0.phase == Phase::Closed by {
            lemma_contains_either(done, more, Action::Exit(x));
        }
        lemma_release_closes_soon(plan, events.drop_last());
    }
}

/// After a release was asked for, nothing is held, and the session is
/// closed.
pub proof fn lemma_release_closes_soon(plan: Plan, events: Seq<Event>)
    ensures
        run(plan, events).1.contains(Action::Release) ==> run(plan, events).0.phase
            == Phase::Closed,
    decreases events.len(),
{
    lemma_run_consistent(plan, events);
    if events.len() > 0 {
        let (s, done) = run(plan, events.drop_last());
        let e = events.last();
        let (s2, more) = next(s, e);
        lemma_run_consistent(plan, events.drop_last());
        lemma_release_closes_soon(plan, events.drop_last());
        lemma_step_actions(s, e);
        lemma_contains_either(done, more, Action::Release);
        if more.contains(Action::Release) {
            let i = choose|i: int| 0 <= i < more.len() && more[i] == Action::Release;
            lemma_release_closes(s, e, i);
        }
    }
}

/// A step that asks for a release closes the session.
pub proof fn lemma_release_closes(s: TransactionSession, e: Event, i: int)
    requires
        consistent(s),
        0 <= i < next(s, e).1.len(),
        next(s, e).1[i] == Action::Release,
    ensures
        next(s, e).0.phase == Phase::Closed,
{
}

/// A run that ended as cancelled, as a dry run or as a no-op never asked
/// for a commit.
pub proof fn lemma_uncommitted_run_never_commits(plan: Plan, events: Seq<Event>)
    requires
        run(plan, events).0.status == Some(Status::Cancelled) || run(plan, events).0.status
            == Some(Status::Noop) || run(plan, events).0.status == Some(Status::DryRun),
    ensures
        !run(plan, events).1.contains(Action::Commit),
{
    lemma_run_actions(plan, events);
}

/// No run asks for the release of its transaction twice.
pub proof fn lemma_release_at_most_once(plan: Plan, events: Seq<Event>)
    ensures
        forall|i: int, j: int|
            0 <= i < j < run(plan, events).1.len() ==> !(run(plan, events).1[i] == Action::Release
                && run(plan, events).1[j] == Action::Release),
    decreases events.len(),
{
    if events.len() > 0 {
        let (s, done) = run(plan, events.drop_last());
        let e = events.last();
        let (s2, more) = next(s, e);
        let all = done + more;
        lemma_release_at_most_once(plan, events.drop_last());
        lemma_run_actions(plan, events.drop_last());
        lemma_release_closes_soon(plan, events.drop_last());
        lemma_step_actions(s, e);
        assert forall|i: int, j: int| 0 <= i < j < all.len() implies !(all[i] == Action::Release
            && all[j] == Action::Release) by {
            if all[i] == Action::Release && all[j] == Action::Release {
                if j < done.len() {
                    assert(done[i] == all[i] && done[j] == all[j]);
                } else if i >= done.len() {
                    assert(more[i - done.len()] == all[i] && more[j - done.len()] == all[j]);
                } else {
                    assert(done[i] == Action::Release);
                    assert(done.contains(Action::Release));
                    assert(more[j - done.len()] == Action::Release);
                    assert(more.contains(Action::Release));
                }
            }
        }
    }
}

/// Every run that returns to its caller has closed its session, and a run
/// that opened its transaction has asked for its release by then.
pub proof fn lemma_exit_means_closed(plan: Plan, events: Seq<Event>, x: Exit)
    requires
        run(plan, events).1.contains(Action::Exit(x)),
    ensures
        run(plan, events).0.phase == Phase::Closed,
        !run(plan, events).0.held,
        run(plan, events).1.contains(Action::Populate) ==> run(plan, events).1.contains(
            Action::Release,
        ),
{
    lemma_run_actions(plan, events);
    lemma_opened_then_released(plan, events);
}

/// A run that went as far as adding targets either still holds its
/// transaction or has asked for its release.
pub proof fn lemma_opened_then_released(plan: Plan, events: Seq<Event>)
    ensures
        run(plan, events).1.contains(Action::Populate) ==> run(plan, events).0.held || run(
            plan,
            events,
        ).1.contains(Action::Release),
    decreases events.len(),
{
    if events.len() > 0 {
        let (s, done) = run(plan, events.drop_last());
        let e = events.last();
        let (s2, more) = next(s, e);
        lemma_opened_then_released(plan, events.drop_last());
        lemma_run_consistent(plan, events.drop_last());
        lemma_contains_either(done, more, Action::Populate);
        lemma_contains_either(done, more, Action::Release);
        if more.contains(Action::Populate) {
            let i = choose|i: int| 0 <= i < more.len() && more[i] == Action::Populate;
            lemma_populate_holds(s, e, i);
        } else if s.held && !s2.held {
            lemma_unhold_releases(s, e);
        }
    } else {
        assert(run(plan, events).1 =~= Seq::<Action>::empty());
    }
}

/// A step that asks to add the targets holds the transaction.
pub proof fn lemma_populate_holds(s: TransactionSession, e: Event, i: int)
    requires
        consistent(s),
        0 <= i < next(s, e).1.len(),
        next(s, e).1[i] == Action::Populate,
    ensures
        next(s, e).0.held,
{
}

/// A step after which a transaction is no longer held asks for its
/// release.
pub proof fn lemma_unhold_releases(s: TransactionSession, e: Event)
    requires
        consistent(s),
        s.held,
        !next(s, e).0.held,
    ensures
        next(s, e).1.contains(Action::Release),
{
    let acts = next(s, e).1;
    if acts.len() > 0 && acts[0] == Action::Release {
    } else {
        assert(acts.len() > 1 && acts[1] == Action::Release);
    }
}

/// A failed check ends the operation at once: no transaction is opened,
/// nothing is released or recorded, and the operation fails.
pub proof fn lemma_failed_preflight_opens_nothing(s: TransactionSession)
    requires
        consistent(s),
        s.pending == Pending::Preflight,
    ensures
        next(s, Event::Checked(false)).1 == seq![Action::Exit(Exit::Failure)],
        next(s, Event::Checked(false)).0.phase == Phase::Closed,
        !next(s, Event::Checked(false)).0.held,
        next(s, Event::Checked(false)).0.status is None,
{
    assert(release_actions(s) + seq![Action::Exit(Exit::Failure)] =~= seq![
        Action::Exit(Exit::Failure),
    ]);
}

/// With checks in its plan, an operation asks for them first and for
/// nothing else.
pub proof fn lemma_preflight_comes_first(plan: Plan)
    requires
        plan.preflight != Preflight::Nothing,
    ensures
        next(initial(plan), Event::Begin).1 == seq![Action::Preflight(plan.preflight)],
        next(initial(plan), Event::Begin).0.phase == Phase::Uninitialized,
{
}

} // verus!
