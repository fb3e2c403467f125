//! The executor: applies a batch of transformations to the target store, one
//! statement at a time, and collects one change entry for each.
//!
//! The executor decides; the caller runs each statement and reports what the
//! store answered. No transaction spans the batch: when a step fails, the
//! steps before it stay applied and the steps after it are never issued.

use vstd::prelude::*;
use vstd::string::*;
use crate::error::{EngineError, ErrorView, MATCHED_NOTHING, MISSING_FIELD, UNKNOWN_KIND};
use crate::models::transformation::{
    copy_transformations, parse_kind, Kind, Transformation, TransformationView,
};
use crate::statements::{delete_statement, delete_text, update_statement, update_text};
use crate::text::texts_of;

verus! {

/// What the store answered to one statement.
#[derive(Debug)]
pub enum StoreReply {
    /// The statement ran and changed this many rows.
    Affected(u64),
    /// The store failed; holds its message.
    Failed(String),
}

/// The mathematical value of a [`StoreReply`].
pub enum ReplyView {
    Affected(u64),
    Failed(Seq<char>),
}

impl View for StoreReply {
    type V = ReplyView;

    open spec fn view(&self) -> ReplyView {
        match self {
            StoreReply::Affected(n) => ReplyView::Affected(*n),
            StoreReply::Failed(m) => ReplyView::Failed(m@),
        }
    }
}

/// What the executor wants done next.
#[derive(Debug)]
pub enum Step {
    /// Run this statement against the target store and report the answer.
    Run(String),
    /// The batch is applied; holds one change entry for each transformation,
    /// in the order of the batch.
    Finished(Vec<String>),
    /// The batch failed with this error; nothing more is to be run.
    Aborted(EngineError),
}

/// The mathematical value of a [`Step`].
pub enum StepView {
    Run(Seq<char>),
    Finished(Seq<Seq<char>>),
    Aborted(ErrorView),
}

impl View for Step {
    type V = StepView;

    open spec fn view(&self) -> StepView {
        match self {
            Step::Run(statement) => StepView::Run(statement@),
            Step::Finished(changes) => StepView::Finished(texts_of(changes@)),
            Step::Aborted(error) => StepView::Aborted(error@),
        }
    }
}

/// The transformation can be turned into a statement: table, predicate and
/// kind are given, the kind is known, and a modification has its changes.
pub open spec fn is_runnable(t: TransformationView) -> bool {
    &&& t.table_name is Some
    &&& t.predicate is Some
    &&& t.kind() is Some
    &&& t.kind() == Some(Kind::Modification) ==> t.changes is Some
}

/// Why a transformation cannot be turned into a statement: an unknown kind
/// where table, predicate and kind are given, an absent field otherwise.
pub open spec fn refusal_of(t: TransformationView) -> ErrorView
    recommends
        !is_runnable(t),
{
    if t.table_name is Some && t.predicate is Some && t.transform_type is Some && t.kind() is None {
        ErrorView::InvalidInput(UNKNOWN_KIND@)
    } else {
        ErrorView::InvalidInput(MISSING_FIELD@)
    }
}

/// The assignment that a transformation makes: its own changes for a
/// modification, the placeholder assignment for a decorrelation.
pub open spec fn assignment_of(t: TransformationView, placeholder: Seq<char>) -> Seq<char>
    recommends
        is_runnable(t),
{
    if t.kind() == Some(Kind::Modification) {
        t.changes->0
    } else {
        placeholder
    }
}

/// The statement that applies a transformation.
pub open spec fn statement_of(t: TransformationView, placeholder: Seq<char>) -> Seq<char>
    recommends
        is_runnable(t),
{
    if t.kind() == Some(Kind::Removal) {
        delete_text(t.table_name->0, t.predicate->0)
    } else {
        update_text(t.table_name->0, assignment_of(t, placeholder), t.predicate->0)
    }
}

/// The change entry of a transformation: empty for a removal, the assignment
/// that was made otherwise.
pub open spec fn change_of(t: TransformationView, placeholder: Seq<char>) -> Seq<char>
    recommends
        is_runnable(t),
{
    if t.kind() == Some(Kind::Removal) {
        Seq::empty()
    } else {
        assignment_of(t, placeholder)
    }
}

/// The change entries of a whole batch, in its order.
pub open spec fn changes_of(batch: Seq<TransformationView>, placeholder: Seq<char>) -> Seq<
    Seq<char>,
> {
    Seq::new(batch.len(), |i: int| change_of(batch[i], placeholder))
}

/// The statement that applies a transformation and its change entry, or the
/// reason why there is none.
pub fn plan_statement(t: &Transformation, placeholder_pred: &str) -> (plan: Result<
    (String, String),
    EngineError,
>)
    ensures
        is_runnable(t@) ==> plan is Ok && plan->Ok_0.0@ == statement_of(t@, placeholder_pred@)
            && plan->Ok_0.1@ == change_of(t@, placeholder_pred@),
        !is_runnable(t@) ==> plan is Err && plan->Err_0@ == refusal_of(t@),
{
    let (table, predicate, name) = match (&t.table_name, &t.predicate, &t.transform_type) {
        (Some(table), Some(predicate), Some(name)) => (table, predicate, name),
        _ => { return Err(EngineError::invalid_input(MISSING_FIELD)); },
    };
    match parse_kind(name.as_str()) {
        Some(Kind::Removal) => {
            Ok((delete_statement(table.as_str(), predicate.as_str()), String::new()))
        },
        Some(Kind::Modification) => {
            match &t.changes {
                Some(changes) => Ok(
                    (
                        update_statement(table.as_str(), changes.as_str(), predicate.as_str()),
                        changes.clone(),
                    ),
                ),
                None => Err(EngineError::invalid_input(MISSING_FIELD)),
            }
        },
        Some(Kind::Decorrelation) => Ok(
            (
                update_statement(table.as_str(), placeholder_pred, predicate.as_str()),
                String::from_str(placeholder_pred),
            ),
        ),
        None => Err(EngineError::invalid_input(UNKNOWN_KIND)),
    }
}

/// The state of a run of the executor.
pub struct ExecutorState {
    /// The transformations to apply, in order.
    pub batch: Seq<TransformationView>,
    /// The assignment that a decorrelation makes.
    pub placeholder: Seq<char>,
    /// How many transformations are applied.
    pub applied: nat,
    /// The error that ended the run, if one did.
    pub failure: Option<ErrorView>,
}

impl ExecutorState {
    /// The state before anything is applied.
    pub open spec fn initial(batch: Seq<TransformationView>, placeholder: Seq<char>) -> ExecutorState {
        ExecutorState { batch, placeholder, applied: 0, failure: None }
    }

    /// What the executor wants done in this state.
    pub open spec fn next(self) -> StepView {
        if self.failure is Some {
            StepView::Aborted(self.failure->0)
        } else if self.applied >= self.batch.len() {
            StepView::Finished(changes_of(self.batch, self.placeholder))
        } else if is_runnable(self.batch[self.applied as int]) {
            StepView::Run(statement_of(self.batch[self.applied as int], self.placeholder))
        } else {
            StepView::Aborted(refusal_of(self.batch[self.applied as int]))
        }
    }

    /// The state after the store's answer to the statement that was issued:
    /// one more transformation is applied where the statement changed a row;
    /// the run has failed otherwise. Where no statement was issued the state
    /// stays as it is.
    pub open spec fn after(self, reply: ReplyView) -> ExecutorState {
        if self.next() is Run {
            match reply {
                ReplyView::Affected(n) => if n >= 1 {
                    ExecutorState { applied: self.applied + 1, ..self }
                } else {
                    ExecutorState {
                        failure: Some(ErrorView::InvalidInput(MATCHED_NOTHING@)),
                        ..self
                    }
                },
                ReplyView::Failed(message) => ExecutorState {
                    failure: Some(ErrorView::Store(message)),
                    ..self
                },
            }
        } else {
            self
        }
    }

    /// The state after a series of answers, each given to the step that the
    /// state before it asked for.
    pub open spec fn after_all(self, replies: Seq<ReplyView>) -> ExecutorState
        decreases replies.len(),
    {
        if replies.len() == 0 {
            self
        } else {
            self.after_all(replies.drop_last()).after(replies.last())
        }
    }

    /// The statements that were issued while the answers came in, in order:
    /// one for each answer that was given to a `Run` step.
    pub open spec fn issued(self, replies: Seq<ReplyView>) -> Seq<Seq<char>>
        decreases replies.len(),
    {
        if replies.len() == 0 {
            Seq::empty()
        } else {
            let before = self.after_all(replies.drop_last());
            match before.next() {
                StepView::Run(statement) => self.issued(replies.drop_last()).push(statement),
                _ => self.issued(replies.drop_last()),
            }
        }
    }
}

/// The answer lets the run go on: the statement changed at least one row.
pub open spec fn is_success(reply: ReplyView) -> bool {
    reply matches ReplyView::Affected(n) && n >= 1
}

/// A finished run hands out exactly one change entry for each transformation
/// of the batch, in the order of the batch: the empty text for every removal,
/// the transformation's own changes for every modification, and the
/// placeholder assignment, as the caller gave it, for every decorrelation.
pub proof fn lemma_finished_changes(state: ExecutorState)
    requires
        state.next() is Finished,
    ensures
        state.next()->Finished_0.len() == state.batch.len(),
        forall|i: int|
            0 <= i < state.batch.len() ==> state.next()->Finished_0[i] == change_of(
                #[trigger] state.batch[i],
                state.placeholder,
            ),
        forall|i: int|
            0 <= i < state.batch.len() && (#[trigger] state.batch[i]).kind() == Some(Kind::Removal)
                ==> state.next()->Finished_0[i] == Seq::<char>::empty(),
        forall|i: int|
            0 <= i < state.batch.len() && (#[trigger] state.batch[i]).kind() == Some(
                Kind::Modification,
            ) ==> state.next()->Finished_0[i] == state.batch[i].changes->0,
        forall|i: int|
            0 <= i < state.batch.len() && (#[trigger] state.batch[i]).kind() == Some(
                Kind::Decorrelation,
            ) ==> state.next()->Finished_0[i] == state.placeholder,
{
}

/// Once a run asks for no statement, no answer changes it and nothing more
/// is issued.
pub proof fn lemma_stopped_run_stays(state: ExecutorState, replies: Seq<ReplyView>, k: int)
    requires
        0 <= k <= replies.len(),
        !(state.after_all(replies.take(k)).next() is Run),
    ensures
        state.after_all(replies) == state.after_all(replies.take(k)),
        state.issued(replies) == state.issued(replies.take(k)),
    decreases replies.len(),
{
    if k == replies.len() {
        assert(replies.take(k) =~= replies);
    } else {
        assert(replies.drop_last().take(k) =~= replies.take(k));
        lemma_stopped_run_stays(state, replies.drop_last(), k);
    }
}

/// The `j`-th statement that was issued while the answers came in is the
/// statement of the `j`-th transformation counted from the first one that
/// was not yet applied.
pub open spec fn issued_as_planned(state: ExecutorState, replies: Seq<ReplyView>, j: int) -> bool {
    &&& state.applied + j < state.batch.len()
    &&& is_runnable(state.batch[state.applied + j])
    &&& state.issued(replies)[j] == statement_of(state.batch[state.applied + j], state.placeholder)
}

/// The statements of a run are those of the batch, in its order and from
/// the first transformation that was not yet applied, each issued once; an
/// answer that is no success leaves its transformation unapplied and ends the
/// run.
pub proof fn lemma_run_in_order(state: ExecutorState, replies: Seq<ReplyView>)
    requires
        state.failure is None,
    ensures
        state.after_all(replies).batch == state.batch,
        state.after_all(replies).placeholder == state.placeholder,
        state.after_all(replies).applied >= state.applied,
        state.issued(replies).len() == state.after_all(replies).applied - state.applied + (if state.after_all(
            replies,
        ).failure is Some {
            1int
        } else {
            0int
        }),
        state.issued(replies).len() <= replies.len(),
        forall|j: int|
            0 <= j < state.issued(replies).len() ==> #[trigger] issued_as_planned(state, replies, j),
    decreases replies.len(),
{
    if replies.len() > 0 {
        let earlier = replies.drop_last();
        lemma_run_in_order(state, earlier);
        assert forall|j: int| 0 <= j < state.issued(replies).len() implies #[trigger] issued_as_planned(
            state,
            replies,
            j,
        ) by {
            if j < state.issued(earlier).len() {
                assert(issued_as_planned(state, earlier, j));
                assert(state.issued(replies)[j] == state.issued(earlier)[j]);
            }
        }
    } else {
        assert(state.issued(replies).len() == 0);
    }
}

/// First error aborts: when the answer to a statement is no success, that
/// statement is the last one that the run issues, whatever answers follow,
/// and the run ends aborted with no further transformation applied. The
/// transformations after the failed one are never sent to the store.
pub proof fn lemma_first_failure_aborts(state: ExecutorState, replies: Seq<ReplyView>, k: int)
    requires
        0 <= k < replies.len(),
        state.after_all(replies.take(k)).next() is Run,
        !is_success(replies[k]),
    ensures
        state.issued(replies) == state.issued(replies.take(k)).push(
            state.after_all(replies.take(k)).next()->Run_0,
        ),
        state.after_all(replies).next() is Aborted,
        state.after_all(replies).applied == state.after_all(replies.take(k)).applied,
{
    let upto = replies.take(k + 1);
    assert(upto.drop_last() =~= replies.take(k));
    assert(upto.last() == replies[k]);
    assert(state.after_all(upto) == state.after_all(replies.take(k)).after(replies[k]));
    assert(state.after_all(upto).failure is Some);
    lemma_stopped_run_stays(state, replies, k + 1);
}

/// A run that has failed stays failed: it asks for nothing more and issues
/// nothing, whatever answers come in.
pub proof fn lemma_failure_is_final(state: ExecutorState, replies: Seq<ReplyView>)
    requires
        state.failure is Some,
    ensures
        state.after_all(replies) == state,
        state.issued(replies) == Seq::<Seq<char>>::empty(),
        state.next() == StepView::Aborted(state.failure->0),
{
    assert(replies.take(0) =~= Seq::<ReplyView>::empty());
    lemma_stopped_run_stays(state, replies, 0);
}

/// A run of the executor over one batch.
pub struct Executor {
    placeholder: String,
    batch: Vec<Transformation>,
    changes: Vec<String>,
    failure: Option<EngineError>,
}

impl View for Executor {
    type V = ExecutorState;

    closed spec fn view(&self) -> ExecutorState {
        ExecutorState {
            batch: self.batch.deep_view(),
            placeholder: self.placeholder@,
            applied: self.changes@.len(),
            failure: self.failure.deep_view(),
        }
    }
}

impl Executor {
    #[verifier::type_invariant]
    spec fn inv(self) -> bool {
        &&& self.changes@.len() <= self.batch@.len()
        &&& forall|i: int|
            0 <= i < self.changes@.len() ==> (#[trigger] self.changes@[i])@ == change_of(
                self.batch@[i]@,
                self.placeholder@,
            )
    }

    /// A run over `transformations`, with `placeholder_pred` as the
    /// assignment that a decorrelation makes.
    pub fn new(placeholder_pred: &str, transformations: &Vec<Transformation>) -> (run: Executor)
        ensures
            run@ == ExecutorState::initial(transformations.deep_view(), placeholder_pred@),
    {
        Executor {
            placeholder: String::from_str(placeholder_pred),
            batch: copy_transformations(transformations),
            changes: Vec::new(),
            failure: None,
        }
    }

    /// What is to be done next.
    pub fn next(&self) -> (step: Step)
        ensures
            step@ == self@.next(),
    {
        proof {
            use_type_invariant(self);
        }
        match &self.failure {
            Some(error) => { return Step::Aborted(error.clone()); },
            None => {},
        }
        if self.changes.len() >= self.batch.len() {
            let mut changes: Vec<String> = Vec::new();
            let mut i: usize = 0;
            while i < self.changes.len()
                invariant
                    i <= self.changes.len(),
                    changes.len() == i,
                    forall|j: int| 0 <= j < i ==> changes@[j]@ == self.changes@[j]@,
                decreases self.changes.len() - i,
            {
                changes.push(self.changes[i].clone());
                i = i + 1;
            }
            assert(texts_of(changes@) =~= changes_of(self@.batch, self@.placeholder));
            return Step::Finished(changes);
        }
        match plan_statement(&self.batch[self.changes.len()], self.placeholder.as_str()) {
            Ok((statement, _)) => Step::Run(statement),
            Err(error) => Step::Aborted(error),
        }
    }

    /// Takes the store's answer to the statement that `next` asked for.
    pub fn record(&mut self, reply: StoreReply)
        ensures
            final(self)@ == old(self)@.after(reply@),
    {
        proof {
            use_type_invariant(&*self);
        }
        if self.failure.is_some() || self.changes.len() >= self.batch.len() {
            return ;
        }
        match plan_statement(&self.batch[self.changes.len()], self.placeholder.as_str()) {
            Ok((_, change)) => {
                match reply {
                    StoreReply::Affected(n) => {
                        if n >= 1 {
                            let mut changes: Vec<String> = Vec::new();
                            core::mem::swap(&mut self.changes, &mut changes);
                            changes.push(change);
                            self.changes = changes;
                        } else {
                            self.failure = Some(EngineError::invalid_input(MATCHED_NOTHING));
                        }
                    },
                    StoreReply::Failed(message) => {
                        self.failure = Some(EngineError::Store(message));
                    },
                }
            },
            Err(_) => {},
        }
    }
}

} // verus!
