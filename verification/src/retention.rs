//! The retention sweep: clears old disguises out of the vault.
//!
//! A swept disguise can no longer be recovered, so the rows that its
//! decorrelations left pointing at a placeholder are deleted for good. For
//! each disguise the sweep first deletes those rows from the target store and
//! only then the disguise's undo steps from the vault; the headers go last.
//! The sweep decides; the caller runs each step and reports the outcome.

use vstd::prelude::*;
use vstd::string::*;
use crate::error::{EngineError, ErrorView, MISSING_FIELD};
use crate::models::transformation::{parse_kind, Kind};
use crate::models::vault::{DisguiseFromDB, DisguiseFromDBView, Function, FunctionView};
use crate::statements::{delete_statement, delete_text};

verus! {

/// The decorrelations among the undo steps, in their order.
pub open spec fn decorrelations_of(steps: Seq<FunctionView>) -> Seq<FunctionView>
    decreases steps.len(),
{
    if steps.len() == 0 {
        Seq::empty()
    } else if steps.last().kind() == Some(Kind::Decorrelation) {
        decorrelations_of(steps.drop_last()).push(steps.last())
    } else {
        decorrelations_of(steps.drop_last())
    }
}

/// The decorrelations among the undo steps, in their order.
pub fn decorrelations(steps: &Vec<Function>) -> (found: Vec<Function>)
    ensures
        found.deep_view() == decorrelations_of(steps.deep_view()),
{
    let mut found: Vec<Function> = Vec::new();
    let mut i: usize = 0;
    while i < steps.len()
        invariant
            i <= steps.len(),
            found.deep_view() == decorrelations_of(steps.deep_view().take(i as int)),
        decreases steps.len() - i,
    {
        let ghost upto = steps.deep_view().take(i + 1);
        assert(upto.drop_last() =~= steps.deep_view().take(i as int));
        assert(upto.last() == steps@[i as int]@);
        let is_decorrelation = match &steps[i].function_type {
            Some(name) => match parse_kind(name.as_str()) {
                Some(Kind::Decorrelation) => true,
                _ => false,
            },
            None => false,
        };
        if is_decorrelation {
            let ghost before = found.deep_view();
            found.push(steps[i].clone());
            assert(found.deep_view() =~= before.push(steps@[i as int]@));
        }
        i = i + 1;
    }
    assert(steps.deep_view().take(steps.len() as int) =~= steps.deep_view());
    found
}

/// What the stores answered to a step of the sweep.
#[derive(Debug)]
pub enum SweepAnswer {
    /// The undo steps of the disguise that was asked for.
    Functions(Vec<Function>),
    /// The statement ran.
    Done,
    /// The store failed; holds its message.
    Failed(String),
}

/// The mathematical value of a [`SweepAnswer`].
pub enum SweepAnswerView {
    Functions(Seq<FunctionView>),
    Done,
    Failed(Seq<char>),
}

impl View for SweepAnswer {
    type V = SweepAnswerView;

    open spec fn view(&self) -> SweepAnswerView {
        match self {
            SweepAnswer::Functions(steps) => SweepAnswerView::Functions(steps.deep_view()),
            SweepAnswer::Done => SweepAnswerView::Done,
            SweepAnswer::Failed(message) => SweepAnswerView::Failed(message@),
        }
    }
}

/// What the sweep wants done next.
#[derive(Debug)]
pub enum SweepStep {
    /// Read from the vault the undo steps of the disguise with this id.
    ListFunctions(Option<i32>),
    /// Run this statement against the target store.
    PurgeRows(String),
    /// Delete from the vault the undo steps of the disguise with this id.
    ForgetFunctions(Option<i32>),
    /// Delete from the vault the headers that were selected.
    ForgetDisguises,
    /// The sweep is done.
    Finished,
    /// The sweep failed with this error; nothing more is to be run.
    Aborted(EngineError),
}

/// The mathematical value of a [`SweepStep`].
pub enum SweepStepView {
    ListFunctions(Option<i32>),
    PurgeRows(Seq<char>),
    ForgetFunctions(Option<i32>),
    ForgetDisguises,
    Finished,
    Aborted(ErrorView),
}

impl View for SweepStep {
    type V = SweepStepView;

    open spec fn view(&self) -> SweepStepView {
        match self {
            SweepStep::ListFunctions(id) => SweepStepView::ListFunctions(*id),
            SweepStep::PurgeRows(statement) => SweepStepView::PurgeRows(statement@),
            SweepStep::ForgetFunctions(id) => SweepStepView::ForgetFunctions(*id),
            SweepStep::ForgetDisguises => SweepStepView::ForgetDisguises,
            SweepStep::Finished => SweepStepView::Finished,
            SweepStep::Aborted(error) => SweepStepView::Aborted(error@),
        }
    }
}

/// The state of a sweep.
pub struct SweepState {
    /// The headers of the disguises to sweep, in order.
    pub headers: Seq<DisguiseFromDBView>,
    /// How many disguises are swept.
    pub position: nat,
    /// The decorrelations of the current disguise, once they are known.
    pub pending: Option<Seq<FunctionView>>,
    /// How many of them have had their rows deleted.
    pub purged: nat,
    /// The headers are deleted.
    pub cleared: bool,
    /// The error that ended the sweep, if one did.
    pub failure: Option<ErrorView>,
}

impl SweepState {
    /// The state before anything is swept.
    pub open spec fn initial(headers: Seq<DisguiseFromDBView>) -> SweepState {
        SweepState {
            headers,
            position: 0,
            pending: None,
            purged: 0,
            cleared: false,
            failure: None,
        }
    }

    /// What the sweep wants done in this state. For each disguise in turn:
    /// its undo steps are read, the rows of each of its decorrelations are
    /// deleted from the target store, and then its undo steps are deleted
    /// from the vault. After the last disguise the headers are deleted. A
    /// decorrelation without table or predicate ends the sweep.
    pub open spec fn next(self) -> SweepStepView {
        if self.failure is Some {
            SweepStepView::Aborted(self.failure->0)
        } else if self.position >= self.headers.len() {
            if self.cleared {
                SweepStepView::Finished
            } else {
                SweepStepView::ForgetDisguises
            }
        } else {
            let id = self.headers[self.position as int].disguise_id;
            match self.pending {
                None => SweepStepView::ListFunctions(id),
                Some(steps) => if self.purged >= steps.len() {
                    SweepStepView::ForgetFunctions(id)
                } else {
                    let step = steps[self.purged as int];
                    if step.table_name is Some && step.predicate is Some {
                        SweepStepView::PurgeRows(
                            delete_text(step.table_name->0, step.predicate->0),
                        )
                    } else {
                        SweepStepView::Aborted(ErrorView::InvalidInput(MISSING_FIELD@))
                    }
                },
            }
        }
    }

    /// The state after the stores' answer to the step that was asked for. A
    /// failure of a store ends the sweep and is handed on as it is. An
    /// answer of another kind than was asked for changes nothing.
    pub open spec fn after(self, answer: SweepAnswerView) -> SweepState {
        match (self.next(), answer) {
            (SweepStepView::ListFunctions(_), SweepAnswerView::Functions(steps)) => SweepState {
                pending: Some(decorrelations_of(steps)),
                purged: 0,
                ..self
            },
            (SweepStepView::PurgeRows(_), SweepAnswerView::Done) => SweepState {
                purged: self.purged + 1,
                ..self
            },
            (SweepStepView::ForgetFunctions(_), SweepAnswerView::Done) => SweepState {
                position: self.position + 1,
                pending: None,
                purged: 0,
                ..self
            },
            (SweepStepView::ForgetDisguises, SweepAnswerView::Done) => SweepState {
                cleared: true,
                ..self
            },
            (SweepStepView::ListFunctions(_), SweepAnswerView::Failed(message)) => self.failed(
                message,
            ),
            (SweepStepView::PurgeRows(_), SweepAnswerView::Failed(message)) => self.failed(message),
            (SweepStepView::ForgetFunctions(_), SweepAnswerView::Failed(message)) => self.failed(
                message,
            ),
            (SweepStepView::ForgetDisguises, SweepAnswerView::Failed(message)) => self.failed(
                message,
            ),
            _ => self,
        }
    }

    /// The state with the store's failure as the end of the sweep.
    pub open spec fn failed(self, message: Seq<char>) -> SweepState {
        SweepState { failure: Some(ErrorView::Store(message)), ..self }
    }

    /// The state can be reached by a sweep: no more decorrelations are
    /// counted as purged than there are.
    pub open spec fn wf(self) -> bool {
        &&& self.pending is Some ==> self.purged <= self.pending->0.len()
        &&& self.pending is None ==> self.purged == 0
        &&& self.position <= self.headers.len()
        &&& self.cleared ==> self.position >= self.headers.len()
    }
}

/// Every state of a sweep can be reached: the first state can, and every
/// answer leads from a state that can to one that can.
pub proof fn lemma_sweep_stays_reachable(state: SweepState, answer: SweepAnswerView)
    requires
        state.wf(),
    ensures
        SweepState::initial(state.headers).wf(),
        state.after(answer).wf(),
        state.after(answer).headers == state.headers,
{
}

/// Target rows before vault records: the sweep asks to delete a disguise's
/// undo steps only when the rows of all of its decorrelations are deleted
/// from the target store, and to delete the headers only when the undo steps
/// of every disguise are deleted. While a decorrelation's rows are yet to be
/// deleted, the sweep asks for exactly that.
pub proof fn lemma_targets_before_ledger(state: SweepState)
    requires
        state.wf(),
    ensures
        state.next() is ForgetFunctions ==> state.pending is Some && state.purged
            == state.pending->0.len(),
        state.next() is ForgetDisguises ==> state.position == state.headers.len(),
        state.next() is Finished ==> state.cleared && state.position == state.headers.len(),
        state.failure is None && state.position < state.headers.len() && state.pending is Some
            && state.purged < state.pending->0.len() ==> state.next() is PurgeRows
            || state.next() is Aborted,
{
}

/// A sweep over the disguises whose headers were selected.
pub struct Sweep {
    headers: Vec<DisguiseFromDB>,
    position: usize,
    pending: Option<Vec<Function>>,
    purged: usize,
    cleared: bool,
    failure: Option<EngineError>,
}

impl View for Sweep {
    type V = SweepState;

    closed spec fn view(&self) -> SweepState {
        SweepState {
            headers: self.headers.deep_view(),
            position: self.position as nat,
            pending: self.pending.deep_view(),
            purged: self.purged as nat,
            cleared: self.cleared,
            failure: self.failure.deep_view(),
        }
    }
}

impl Sweep {
    /// A sweep over the disguises with the given headers.
    pub fn new(headers: Vec<DisguiseFromDB>) -> (sweep: Sweep)
        ensures
            sweep@ == SweepState::initial(headers.deep_view()),
    {
        Sweep { headers, position: 0, pending: None, purged: 0, cleared: false, failure: None }
    }

    /// What is to be done next.
    pub fn next(&self) -> (step: SweepStep)
        ensures
            step@ == self@.next(),
    {
        match &self.failure {
            Some(error) => { return SweepStep::Aborted(error.clone()); },
            None => {},
        }
        if self.position >= self.headers.len() {
            if self.cleared {
                return SweepStep::Finished;
            } else {
                return SweepStep::ForgetDisguises;
            }
        }
        let id = self.headers[self.position].disguise_id;
        match &self.pending {
            None => SweepStep::ListFunctions(id),
            Some(steps) => {
                if self.purged >= steps.len() {
                    SweepStep::ForgetFunctions(id)
                } else {
                    let step = &steps[self.purged];
                    match (&step.table_name, &step.predicate) {
                        (Some(table), Some(predicate)) => SweepStep::PurgeRows(
                            delete_statement(table.as_str(), predicate.as_str()),
                        ),
                        _ => SweepStep::Aborted(EngineError::invalid_input(MISSING_FIELD)),
                    }
                }
            },
        }
    }

    /// Takes the stores' answer to the step that `next` asked for.
    pub fn record(&mut self, answer: SweepAnswer)
        ensures
            final(self)@ == old(self)@.after(answer@),
    {
        let step = self.next();
        match (step, answer) {
            (SweepStep::ListFunctions(_), SweepAnswer::Functions(steps)) => {
                self.pending = Some(decorrelations(&steps));
                self.purged = 0;
            },
            (SweepStep::PurgeRows(_), SweepAnswer::Done) => {
                assert(self@.next() is PurgeRows);
                assert(self.pending is Some && self.purged < self.pending->0.len());
                self.purged = self.purged + 1;
            },
            (SweepStep::ForgetFunctions(_), SweepAnswer::Done) => {
                assert(self@.next() is ForgetFunctions);
                assert(self.position < self.headers.len());
                self.position = self.position + 1;
                self.pending = None;
                self.purged = 0;
            },
            (SweepStep::ForgetDisguises, SweepAnswer::Done) => {
                self.cleared = true;
            },
            (SweepStep::ListFunctions(_), SweepAnswer::Failed(message)) => {
                self.failure = Some(EngineError::Store(message));
            },
            (SweepStep::PurgeRows(_), SweepAnswer::Failed(message)) => {
                self.failure = Some(EngineError::Store(message));
            },
            (SweepStep::ForgetFunctions(_), SweepAnswer::Failed(message)) => {
                self.failure = Some(EngineError::Store(message));
            },
            (SweepStep::ForgetDisguises, SweepAnswer::Failed(message)) => {
                self.failure = Some(EngineError::Store(message));
            },
            _ => {},
        }
    }
}

} // verus!
