//! The transaction orchestrator: the decisions that carry one mutating
//! operation from its start to a closed session.
//!
//! The work on the package database itself is done elsewhere. This module
//! decides: it is told how each piece of outside work ended (an [`Event`]),
//! and says what to do next (a list of [`Action`]s). Whoever drives it
//! performs the actions in order and reports the result of the last one.

use vstd::prelude::*;

verus! {

/// The kind of a mutating operation.
#[derive(Clone, Copy, Debug, PartialEq, Eq, Structural)]
pub enum Kind {
    /// Install named packages from the repositories.
    Install,
    /// Install package files.
    InstallLocal,
    /// Remove installed packages.
    Remove,
    /// Refresh the databases, upgrade the system, install named packages.
    Sync,
}

/// Where a session stands.
///
/// `Cancelled` covers every end without a commit that is no failure: the
/// user declined, the run was a dry run, or there was nothing to do.
#[derive(Clone, Copy, Debug, PartialEq, Eq, Structural)]
pub enum Phase {
    Uninitialized,
    Open,
    Populated,
    Prepared,
    Committed,
    Cancelled,
    Failed,
    Closed,
}

/// How an operation ended, as the history ledger names it.
#[derive(Clone, Copy, Debug, PartialEq, Eq, Structural)]
pub enum Status {
    Success,
    Failed,
    Cancelled,
    DryRun,
    Noop,
}

/// What has to be checked before the work may start.
#[derive(Clone, Copy, Debug, PartialEq, Eq, Structural)]
pub enum Preflight {
    /// Nothing.
    Nothing,
    /// The package database must not be locked.
    Unlocked,
    /// The database must not be locked, and the keyring and the keyring
    /// packages must be in place.
    Full,
}

/// The outside work whose result a session waits for.
#[derive(Clone, Copy, Debug, PartialEq, Eq, Structural)]
pub enum Pending {
    Begin,
    Preflight,
    Refresh,
    Init,
    Populate,
    Prepare,
    Summarize,
    Confirm,
    Commit,
    Nothing,
}

/// A message to the user that goes with a step.
#[derive(Clone, Copy, Debug, PartialEq, Eq, Structural)]
pub enum Notice {
    Synchronizing,
    SkippingDatabaseUpdate,
    StartingUpgrade,
    ResolvingDependencies,
    CheckingDependencies,
    LookingForConflicts,
    NothingToDo,
    SkippingCommit,
}

/// How the operation returns to its caller.
#[derive(Clone, Copy, Debug, PartialEq, Eq, Structural)]
pub enum Exit {
    /// The operation succeeded; a cancellation, a dry run and a no-op do.
    Success,
    /// The operation failed: the error of the step that failed is handed
    /// on unchanged.
    Failure,
}

/// What the driver of a session is to do.
#[derive(Clone, Copy, Debug, PartialEq, Eq, Structural)]
pub enum Action {
    /// Run the checks before a transaction; report `Checked`. Nothing of
    /// the transaction exists yet.
    Preflight(Preflight),
    /// Show a message.
    Say(Notice),
    /// Synchronise the package databases; report `Refreshed`.
    Refresh,
    /// Open the transaction with the flags of the plan; report `Opened`.
    Init,
    /// Resolve every target and add it, after marking the system upgrade
    /// if the plan asks for one; report `Populated`.
    Populate,
    /// Resolve dependencies and conflicts; report `Prepared`.
    Prepare,
    /// Show the summary of the changeset; report `Summarized` with its size.
    Summarize,
    /// Ask the user whether to go on; report `Answered`.
    Confirm,
    /// Apply the transaction; report `Committed`.
    Commit,
    /// Release the transaction.
    Release,
    /// Set the install reason that was asked for on each target; a failure
    /// to do so changes nothing.
    ApplyReasons,
    /// Append an entry with this status to the history ledger.
    Record(Status),
    /// Return to the caller.
    Exit(Exit),
}

/// How a piece of outside work ended.
#[derive(Clone, Copy, Debug, PartialEq, Eq, Structural)]
pub enum Event {
    /// The operation starts.
    Begin,
    /// The checks before the transaction passed, or one failed.
    Checked(bool),
    /// The databases were synchronised, or could not be.
    Refreshed(bool),
    /// The transaction was opened, or could not be.
    Opened(bool),
    /// Every target was resolved and added, or one was not.
    Populated(bool),
    /// Dependencies and conflicts were resolved, or could not be.
    Prepared(bool),
    /// The changeset holds this many packages.
    Summarized(usize),
    /// The user agreed, or declined.
    Answered(bool),
    /// The transaction was applied, or failed.
    Committed(bool),
}

/// What is fixed about an operation before it starts.
#[derive(Clone, Copy, Debug, PartialEq, Eq, Structural)]
pub struct Plan {
    pub kind: Kind,
    /// What is checked before anything else is done.
    pub preflight: Preflight,
    /// Synchronise the databases first (sync only).
    pub refresh: bool,
    /// Upgrade the whole system (sync only).
    pub upgrade: bool,
    /// Whether any target was named.
    pub has_targets: bool,
    /// Go as far as the summary and commit nothing.
    pub dry_run: bool,
    /// Do not ask for confirmation.
    pub noconfirm: bool,
    /// Keep the messages to the summary lines.
    pub compact: bool,
    /// An install reason was asked for.
    pub set_reason: bool,
}

/// One transaction against the package database, from before it is opened
/// until it is closed.
#[derive(Clone, Copy, Debug, PartialEq, Eq, Structural)]
pub struct TransactionSession {
    pub plan: Plan,
    pub phase: Phase,
    pub pending: Pending,
    /// Whether the transaction is open at the package library and has to be
    /// released.
    pub held: bool,
    /// Whether a commit was ever asked for.
    pub commit_requested: bool,
    /// The phase from which the session was closed.
    pub ended: Option<Phase>,
    /// The status that was recorded in the history ledger.
    pub status: Option<Status>,
}

/// The session of an operation that has not started.
pub open spec fn initial(plan: Plan) -> TransactionSession {
    TransactionSession {
        plan,
        phase: Phase::Uninitialized,
        pending: Pending::Begin,
        held: false,
        commit_requested: false,
        ended: None,
        status: None,
    }
}

/// The session closed: nothing is held and nothing is waited for.
pub open spec fn closed_session(s: TransactionSession) -> TransactionSession {
    TransactionSession { phase: Phase::Closed, pending: Pending::Nothing, held: false, ..s }
}

/// The actions that release the transaction if it is held.
pub open spec fn release_actions(s: TransactionSession) -> Seq<Action> {
    if s.held {
        seq![Action::Release]
    } else {
        Seq::empty()
    }
}

/// The session ends without a history entry: a failure before the commit,
/// or nothing that was asked for.
pub open spec fn end_unrecorded(s: TransactionSession, ended: Option<Phase>, exit: Exit) -> (
    TransactionSession,
    Seq<Action>,
) {
    (
        TransactionSession { ended, ..closed_session(s) },
        release_actions(s) + seq![Action::Exit(exit)],
    )
}

/// What follows the refresh step, with `said` as the messages so far: an
/// operation with nothing more to do returns, any other opens the
/// transaction.
pub open spec fn after_refresh(s: TransactionSession, said: Seq<Action>) -> (
    TransactionSession,
    Seq<Action>,
) {
    if s.plan.kind == Kind::Sync && !s.plan.upgrade && !s.plan.has_targets {
        (closed_session(s), said + seq![Action::Exit(Exit::Success)])
    } else {
        (TransactionSession { pending: Pending::Init, ..s }, said + seq![Action::Init])
    }
}

/// The start of an operation: the checks come first, and nothing else is
/// done before they have passed.
pub open spec fn begin(s: TransactionSession) -> (TransactionSession, Seq<Action>) {
    if s.plan.preflight == Preflight::Nothing {
        start(s)
    } else {
        (
            TransactionSession { pending: Pending::Preflight, ..s },
            seq![Action::Preflight(s.plan.preflight)],
        )
    }
}

/// What follows the checks: after a failure, a locked database above all,
/// the operation ends before any transaction is opened.
pub open spec fn after_preflight(s: TransactionSession, ok: bool) -> (
    TransactionSession,
    Seq<Action>,
) {
    if ok {
        start(s)
    } else {
        end_unrecorded(s, Some(Phase::Failed), Exit::Failure)
    }
}

/// The first step after the checks. A sync that asks for a refresh
/// synchronises the databases first, unless it is a dry run, which says
/// that it skips that step.
pub open spec fn start(s: TransactionSession) -> (TransactionSession, Seq<Action>) {
    if s.plan.kind == Kind::Sync && s.plan.refresh {
        let heading = if s.plan.compact {
            Seq::<Action>::empty()
        } else {
            seq![Action::Say(Notice::Synchronizing)]
        };
        if s.plan.dry_run {
            after_refresh(s, heading + seq![Action::Say(Notice::SkippingDatabaseUpdate)])
        } else {
            (
                TransactionSession { pending: Pending::Refresh, ..s },
                heading + seq![Action::Refresh],
            )
        }
    } else {
        after_refresh(s, Seq::empty())
    }
}

/// The messages that go before the populate step.
pub open spec fn populate_notices(plan: Plan) -> Seq<Action> {
    if plan.kind == Kind::Sync && plan.upgrade && !plan.compact {
        seq![Action::Say(Notice::StartingUpgrade)]
    } else {
        Seq::empty()
    }
}

/// The messages that go before the prepare step.
pub open spec fn prepare_notices(plan: Plan) -> Seq<Action> {
    if plan.compact {
        Seq::empty()
    } else if plan.kind == Kind::Remove {
        seq![Action::Say(Notice::CheckingDependencies), Action::Say(Notice::LookingForConflicts)]
    } else {
        seq![Action::Say(Notice::ResolvingDependencies), Action::Say(Notice::LookingForConflicts)]
    }
}

/// The end of a dry run: nothing is committed.
pub open spec fn end_dry_run(s: TransactionSession) -> (TransactionSession, Seq<Action>) {
    (
        TransactionSession {
            ended: Some(Phase::Cancelled),
            status: Some(Status::DryRun),
            ..closed_session(s)
        },
        seq![Action::Say(Notice::SkippingCommit)] + release_actions(s) + seq![
            Action::Record(Status::DryRun),
            Action::Exit(Exit::Success),
        ],
    )
}

/// The commit is asked for.
pub open spec fn request_commit(s: TransactionSession) -> (TransactionSession, Seq<Action>) {
    (
        TransactionSession { pending: Pending::Commit, commit_requested: true, ..s },
        seq![Action::Commit],
    )
}

/// What follows the summary of a changeset of `size` packages.
pub open spec fn after_summary(s: TransactionSession, size: usize) -> (
    TransactionSession,
    Seq<Action>,
) {
    if size == 0 {
        (
            TransactionSession {
                ended: Some(Phase::Cancelled),
                status: Some(Status::Noop),
                ..closed_session(s)
            },
            release_actions(s) + seq![
                Action::Say(Notice::NothingToDo),
                Action::Record(Status::Noop),
                Action::Exit(Exit::Success),
            ],
        )
    } else if !s.plan.dry_run && !s.plan.noconfirm {
        (TransactionSession { pending: Pending::Confirm, ..s }, seq![Action::Confirm])
    } else if s.plan.dry_run {
        end_dry_run(s)
    } else {
        request_commit(s)
    }
}

/// What follows the user's answer.
pub open spec fn after_answer(s: TransactionSession, yes: bool) -> (
    TransactionSession,
    Seq<Action>,
) {
    if !yes {
        (
            TransactionSession {
                ended: Some(Phase::Cancelled),
                status: Some(Status::Cancelled),
                ..closed_session(s)
            },
            release_actions(s) + seq![
                Action::Record(Status::Cancelled),
                Action::Exit(Exit::Success),
            ],
        )
    } else if s.plan.dry_run {
        end_dry_run(s)
    } else {
        request_commit(s)
    }
}

/// What follows the commit: the transaction is released at once, then the
/// outcome is recorded. After a success the install reason that was asked
/// for is set last: whatever comes of that, the recorded status stands.
pub open spec fn after_commit(s: TransactionSession, ok: bool) -> (
    TransactionSession,
    Seq<Action>,
) {
    if ok {
        (
            TransactionSession {
                ended: Some(Phase::Committed),
                status: Some(Status::Success),
                ..closed_session(s)
            },
            release_actions(s) + seq![Action::Record(Status::Success)] + (if s.plan.set_reason
                && s.plan.kind != Kind::Remove {
                seq![Action::ApplyReasons]
            } else {
                Seq::<Action>::empty()
            }) + seq![Action::Exit(Exit::Success)],
        )
    } else {
        (
            TransactionSession {
                ended: Some(Phase::Failed),
                status: Some(Status::Failed),
                ..closed_session(s)
            },
            release_actions(s) + seq![
                Action::Record(Status::Failed),
                Action::Exit(Exit::Failure),
            ],
        )
    }
}

/// What follows the attempt to synchronise the databases.
pub open spec fn after_refreshed(s: TransactionSession, ok: bool) -> (
    TransactionSession,
    Seq<Action>,
) {
    if ok {
        after_refresh(s, Seq::empty())
    } else {
        end_unrecorded(s, Some(Phase::Failed), Exit::Failure)
    }
}

/// What follows the attempt to open the transaction.
pub open spec fn after_open(s: TransactionSession, ok: bool) -> (TransactionSession, Seq<Action>) {
    if ok {
        (
            TransactionSession { phase: Phase::Open, pending: Pending::Populate, held: true, ..s },
            populate_notices(s.plan) + seq![Action::Populate],
        )
    } else {
        end_unrecorded(s, Some(Phase::Failed), Exit::Failure)
    }
}

/// What follows the attempt to resolve and add the targets: one target
/// that is not found ends the operation.
pub open spec fn after_populate(s: TransactionSession, ok: bool) -> (
    TransactionSession,
    Seq<Action>,
) {
    if ok {
        (
            TransactionSession { phase: Phase::Populated, pending: Pending::Prepare, ..s },
            prepare_notices(s.plan) + seq![Action::Prepare],
        )
    } else {
        end_unrecorded(s, Some(Phase::Failed), Exit::Failure)
    }
}

/// What follows the attempt to resolve dependencies and conflicts: after a
/// failure the transaction is released before the error is handed on.
pub open spec fn after_prepare(s: TransactionSession, ok: bool) -> (
    TransactionSession,
    Seq<Action>,
) {
    if ok {
        (
            TransactionSession { phase: Phase::Prepared, pending: Pending::Summarize, ..s },
            seq![Action::Summarize],
        )
    } else {
        end_unrecorded(s, Some(Phase::Failed), Exit::Failure)
    }
}

/// The session after the event `e`, and what to do next. An event that the
/// session does not wait for changes nothing and asks for nothing.
pub open spec fn next(s: TransactionSession, e: Event) -> (TransactionSession, Seq<Action>) {
    match (s.pending, e) {
        (Pending::Begin, Event::Begin) => begin(s),
        (Pending::Preflight, Event::Checked(ok)) => after_preflight(s, ok),
        (Pending::Refresh, Event::Refreshed(ok)) => after_refreshed(s, ok),
        (Pending::Init, Event::Opened(ok)) => after_open(s, ok),
        (Pending::Populate, Event::Populated(ok)) => after_populate(s, ok),
        (Pending::Prepare, Event::Prepared(ok)) => after_prepare(s, ok),
        (Pending::Summarize, Event::Summarized(size)) => after_summary(s, size),
        (Pending::Confirm, Event::Answered(yes)) => after_answer(s, yes),
        (Pending::Commit, Event::Committed(ok)) => after_commit(s, ok),
        _ => (s, Seq::empty()),
    }
}

/// The session after the events `events`, one after the other, and all the
/// actions that were asked for on the way.
pub open spec fn run(plan: Plan, events: Seq<Event>) -> (TransactionSession, Seq<Action>)
    decreases events.len(),
{
    if events.len() == 0 {
        (initial(plan), Seq::empty())
    } else {
        let (s, done) = run(plan, events.drop_last());
        let (s2, more) = next(s, events.last());
        (s2, done + more)
    }
}

/// The session after a release: closed, with nothing held. The second
/// component tells whether the package library has to be called, which is
/// the case only when the transaction was held.
pub open spec fn released(s: TransactionSession) -> (TransactionSession, bool) {
    (closed_session(s), s.held)
}

/// The exit code of the process for the way an operation returned.
pub open spec fn exit_code_of(exit: Exit) -> u8 {
    match exit {
        Exit::Success => 0u8,
        Exit::Failure => 1u8,
    }
}

/// The exit code of the process for the way an operation returned.
pub fn exit_code(exit: Exit) -> (r: u8)
    ensures
        r == exit_code_of(exit),
{
    match exit {
        Exit::Success => 0,
        Exit::Failure => 1,
    }
}

impl TransactionSession {
    /// The session of an operation that has not started.
    pub fn new(plan: Plan) -> (s: TransactionSession)
        ensures
            s == initial(plan),
    {
        TransactionSession {
            plan,
            phase: Phase::Uninitialized,
            pending: Pending::Begin,
            held: false,
            commit_requested: false,
            ended: None,
            status: None,
        }
    }

    /// Releases the session. Safe to call at any time and any number of
    /// times: the result tells whether the package library has to be
    /// called, which it has at most once.
    pub fn release(&mut self) -> (call_library: bool)
        ensures
            (*final(self), call_library) == released(*old(self)),
    {
        let held = self.held;
        self.phase = Phase::Closed;
        self.pending = Pending::Nothing;
        self.held = false;
        held
    }

    /// Takes in how the last piece of outside work ended and says what to
    /// do next.
    pub fn advance(&mut self, e: Event) -> (actions: Vec<Action>)
        ensures
            (*final(self), actions@) == next(*old(self), e),
    {
        match (self.pending, e) {
            (Pending::Begin, Event::Begin) => self.on_begin(),
            (Pending::Preflight, Event::Checked(ok)) => self.on_checked(ok),
            (Pending::Refresh, Event::Refreshed(ok)) => self.on_refreshed(ok),
            (Pending::Init, Event::Opened(ok)) => self.on_opened(ok),
            (Pending::Populate, Event::Populated(ok)) => self.on_populated(ok),
            (Pending::Prepare, Event::Prepared(ok)) => self.on_prepared(ok),
            (Pending::Summarize, Event::Summarized(size)) => self.on_summarized(size),
            (Pending::Confirm, Event::Answered(yes)) => self.on_answered(yes),
            (Pending::Commit, Event::Committed(ok)) => self.on_committed(ok),
            _ => Vec::new(),
        }
    }

    fn on_begin(&mut self) -> (acts: Vec<Action>)
        ensures
            (*final(self), acts@) == begin(*old(self)),
    {
        match self.plan.preflight {
            Preflight::Nothing => self.on_start(),
            level => {
                let mut acts: Vec<Action> = Vec::new();
                self.pending = Pending::Preflight;
                acts.push(Action::Preflight(level));
                proof {
                    assert(acts@ =~= seq![Action::Preflight(level)]);
                }
                acts
            },
        }
    }

    fn on_checked(&mut self, ok: bool) -> (acts: Vec<Action>)
        ensures
            (*final(self), acts@) == after_preflight(*old(self), ok),
    {
        if ok {
            self.on_start()
        } else {
            let mut acts: Vec<Action> = Vec::new();
            self.fail(&mut acts);
            acts
        }
    }

    fn on_start(&mut self) -> (acts: Vec<Action>)
        ensures
            (*final(self), acts@) == start(*old(self)),
    {
        let mut acts: Vec<Action> = Vec::new();
        if matches_kind(self.plan.kind, Kind::Sync) && self.plan.refresh {
            if !self.plan.compact {
                acts.push(Action::Say(Notice::Synchronizing));
            }
            if self.plan.dry_run {
                acts.push(Action::Say(Notice::SkippingDatabaseUpdate));
                proof {
                    assert(acts@ =~= (if self.plan.compact {
                        Seq::<Action>::empty()
                    } else {
                        seq![Action::Say(Notice::Synchronizing)]
                    }) + seq![Action::Say(Notice::SkippingDatabaseUpdate)]);
                }
                self.go_on_after_refresh(&mut acts);
            } else {
                acts.push(Action::Refresh);
                self.pending = Pending::Refresh;
                proof {
                    assert(acts@ =~= start(*old(self)).1);
                }
            }
        } else {
            proof {
                assert(acts@ =~= Seq::<Action>::empty());
            }
            self.go_on_after_refresh(&mut acts);
        }
        acts
    }

    fn on_refreshed(&mut self, ok: bool) -> (acts: Vec<Action>)
        ensures
            (*final(self), acts@) == after_refreshed(*old(self), ok),
    {
        let mut acts: Vec<Action> = Vec::new();
        proof {
            assert(acts@ =~= Seq::<Action>::empty());
        }
        if ok {
            self.go_on_after_refresh(&mut acts);
        } else {
            self.fail(&mut acts);
        }
        acts
    }

    fn on_opened(&mut self, ok: bool) -> (acts: Vec<Action>)
        ensures
            (*final(self), acts@) == after_open(*old(self), ok),
    {
        let mut acts: Vec<Action> = Vec::new();
        if ok {
            self.phase = Phase::Open;
            self.pending = Pending::Populate;
            self.held = true;
            if matches_kind(self.plan.kind, Kind::Sync) && self.plan.upgrade
                && !self.plan.compact {
                acts.push(Action::Say(Notice::StartingUpgrade));
            }
            acts.push(Action::Populate);
            proof {
                assert(acts@ =~= after_open(*old(self), ok).1);
            }
        } else {
            self.fail(&mut acts);
        }
        acts
    }

    fn on_populated(&mut self, ok: bool) -> (acts: Vec<Action>)
        ensures
            (*final(self), acts@) == after_populate(*old(self), ok),
    {
        let mut acts: Vec<Action> = Vec::new();
        if ok {
            self.phase = Phase::Populated;
            self.pending = Pending::Prepare;
            if !self.plan.compact {
                if matches_kind(self.plan.kind, Kind::Remove) {
                    acts.push(Action::Say(Notice::CheckingDependencies));
                } else {
                    acts.push(Action::Say(Notice::ResolvingDependencies));
                }
                acts.push(Action::Say(Notice::LookingForConflicts));
            }
            acts.push(Action::Prepare);
            proof {
                assert(acts@ =~= after_populate(*old(self), ok).1);
            }
        } else {
            self.fail(&mut acts);
        }
        acts
    }

    fn on_prepared(&mut self, ok: bool) -> (acts: Vec<Action>)
        ensures
            (*final(self), acts@) == after_prepare(*old(self), ok),
    {
        let mut acts: Vec<Action> = Vec::new();
        if ok {
            self.phase = Phase::Prepared;
            self.pending = Pending::Summarize;
            acts.push(Action::Summarize);
            proof {
                assert(acts@ =~= after_prepare(*old(self), ok).1);
            }
        } else {
            self.fail(&mut acts);
        }
        acts
    }

    fn on_summarized(&mut self, size: usize) -> (acts: Vec<Action>)
        ensures
            (*final(self), acts@) == after_summary(*old(self), size),
    {
        let mut acts: Vec<Action> = Vec::new();
        if size == 0 {
            self.end(&mut acts, Some(Phase::Cancelled), Some(Status::Noop));
            acts.push(Action::Say(Notice::NothingToDo));
            acts.push(Action::Record(Status::Noop));
            acts.push(Action::Exit(Exit::Success));
            proof {
                assert(acts@ =~= after_summary(*old(self), size).1);
            }
        } else if !self.plan.dry_run && !self.plan.noconfirm {
            self.pending = Pending::Confirm;
            acts.push(Action::Confirm);
            proof {
                assert(acts@ =~= after_summary(*old(self), size).1);
            }
        } else if self.plan.dry_run {
            proof {
                assert(acts@ =~= Seq::<Action>::empty());
            }
            self.finish_dry_run(&mut acts);
            proof {
                assert(acts@ =~= after_summary(*old(self), size).1);
            }
        } else {
            self.ask_commit(&mut acts);
        }
        acts
    }

    fn on_answered(&mut self, yes: bool) -> (acts: Vec<Action>)
        ensures
            (*final(self), acts@) == after_answer(*old(self), yes),
    {
        let mut acts: Vec<Action> = Vec::new();
        if !yes {
            self.end(&mut acts, Some(Phase::Cancelled), Some(Status::Cancelled));
            acts.push(Action::Record(Status::Cancelled));
            acts.push(Action::Exit(Exit::Success));
            proof {
                assert(acts@ =~= after_answer(*old(self), yes).1);
            }
        } else if self.plan.dry_run {
            proof {
                assert(acts@ =~= Seq::<Action>::empty());
            }
            self.finish_dry_run(&mut acts);
            proof {
                assert(acts@ =~= after_answer(*old(self), yes).1);
            }
        } else {
            self.ask_commit(&mut acts);
        }
        acts
    }

    fn on_committed(&mut self, ok: bool) -> (acts: Vec<Action>)
        ensures
            (*final(self), acts@) == after_commit(*old(self), ok),
    {
        let mut acts: Vec<Action> = Vec::new();
        if ok {
            self.end(&mut acts, Some(Phase::Committed), Some(Status::Success));
            acts.push(Action::Record(Status::Success));
            if self.plan.set_reason && !matches_kind(self.plan.kind, Kind::Remove) {
                acts.push(Action::ApplyReasons);
            }
            acts.push(Action::Exit(Exit::Success));
        } else {
            self.end(&mut acts, Some(Phase::Failed), Some(Status::Failed));
            acts.push(Action::Record(Status::Failed));
            acts.push(Action::Exit(Exit::Failure));
        }
        proof {
            assert(acts@ =~= after_commit(*old(self), ok).1);
        }
        acts
    }

    /// Asks for the commit.
    fn ask_commit(&mut self, acts: &mut Vec<Action>)
        requires
            old(acts)@.len() == 0,
        ensures
            (*final(self), final(acts)@) == request_commit(*old(self)),
    {
        self.pending = Pending::Commit;
        self.commit_requested = true;
        acts.push(Action::Commit);
        proof {
            assert(acts@ =~= seq![Action::Commit]);
        }
    }

    /// Ends the session after a step that failed before the commit.
    fn fail(&mut self, acts: &mut Vec<Action>)
        requires
            old(acts)@.len() == 0,
        ensures
            (*final(self), final(acts)@) == end_unrecorded(
                *old(self),
                Some(Phase::Failed),
                Exit::Failure,
            ),
    {
        self.end(acts, Some(Phase::Failed), None);
        acts.push(Action::Exit(Exit::Failure));
        proof {
            assert(acts@ =~= release_actions(*old(self)) + seq![Action::Exit(Exit::Failure)]);
        }
    }

    /// Closes the session from phase `ended` with status `status`, asking
    /// for the release if the transaction is held.
    fn end(&mut self, acts: &mut Vec<Action>, ended: Option<Phase>, status: Option<Status>)
        ensures
            *final(self) == (TransactionSession {
                ended,
                status: match status {
                    Some(_) => status,
                    None => old(self).status,
                },
                ..closed_session(*old(self))
            }),
            final(acts)@ == old(acts)@ + release_actions(*old(self)),
    {
        if self.held {
            acts.push(Action::Release);
        }
        proof {
            assert(acts@ =~= old(acts)@ + release_actions(*old(self)));
        }
        self.phase = Phase::Closed;
        self.pending = Pending::Nothing;
        self.held = false;
        self.ended = ended;
        match status {
            Some(_) => {
                self.status = status;
            },
            None => {},
        }
    }

    /// Ends a dry run.
    fn finish_dry_run(&mut self, acts: &mut Vec<Action>)
        ensures
            *final(self) == end_dry_run(*old(self)).0,
            final(acts)@ == old(acts)@ + end_dry_run(*old(self)).1,
    {
        acts.push(Action::Say(Notice::SkippingCommit));
        self.end(acts, Some(Phase::Cancelled), Some(Status::DryRun));
        acts.push(Action::Record(Status::DryRun));
        acts.push(Action::Exit(Exit::Success));
        proof {
            assert(acts@ =~= old(acts)@ + end_dry_run(*old(self)).1);
        }
    }

    /// Goes on after the refresh step.
    fn go_on_after_refresh(&mut self, acts: &mut Vec<Action>)
        ensures
            *final(self) == after_refresh(*old(self), old(acts)@).0,
            final(acts)@ == after_refresh(*old(self), old(acts)@).1,
    {
        if matches_kind(self.plan.kind, Kind::Sync) && !self.plan.upgrade
            && !self.plan.has_targets {
            self.phase = Phase::Closed;
            self.pending = Pending::Nothing;
            self.held = false;
            acts.push(Action::Exit(Exit::Success));
        } else {
            self.pending = Pending::Init;
            acts.push(Action::Init);
        }
        proof {
            assert(acts@ =~= after_refresh(*old(self), old(acts)@).1);
        }
    }
}

/// Whether two kinds are the same.
fn matches_kind(a: Kind, b: Kind) -> (r: bool)
    ensures
        r == (a == b),
{
    a == b
}

} // verus!
