//! The recovery engine: undoes a recorded disguise.
//!
//! The undo steps are replayed in the reverse of the order in which they
//! were recorded. Dependent rows are recorded before the rows that own them,
//! so an owner row is back in place before any row that refers to it. A
//! removed row is inserted again with the values it had; a modified or
//! decorrelated row has every column assigned the value it had. The engine
//! decides; the caller runs each statement and reports the outcome.

use vstd::prelude::*;
use vstd::string::*;
use crate::error::{EngineError, ErrorView, MISSING_FIELD, SHAPE_MISMATCH};
use crate::models::transformation::{parse_kind, Kind};
use crate::models::vault::{copy_functions, Disguise, Function, FunctionView};
use crate::statements::{
    describe_statement, describe_text, insert_row_statement, insert_row_text, update_statement,
    update_text,
};
use crate::ledger::function_of;
use crate::models::target::{names_of, rendered_values_of, TargetView};
use crate::models::transformation::TransformationView;
use crate::text::{
    concat3, contains_text, free_of, join, join_text, lemma_free_of_comma_space,
    lemma_split_undoes_join, split, split_text, texts_of,
};

verus! {

/// The assignment of one column: its name, "=", and the value.
pub open spec fn assignment_text(column: Seq<char>, value: Seq<char>) -> Seq<char> {
    column + "="@ + value
}

/// The assignments that give the columns, in order, the values in order.
pub open spec fn assignments_of(columns: Seq<Seq<char>>, values: Seq<Seq<char>>) -> Seq<Seq<char>> {
    Seq::new(columns.len(), |i: int| assignment_text(columns[i], values[i]))
}

/// The assignment list that gives every column the value that stands at the
/// column's position in the recorded values, which are separated by ", ";
/// none where there are fewer values than columns.
pub open spec fn restoring_text(columns: Seq<Seq<char>>, recorded: Seq<char>) -> Option<Seq<char>> {
    let values = split_text(recorded, ", "@);
    if values.len() < columns.len() {
        None
    } else {
        Some(join_text(assignments_of(columns, values), ","@))
    }
}

/// The assignment list that gives every column its recorded value; `None`
/// where there are fewer values than columns.
pub fn restoring_assignments(columns: &Vec<String>, recorded: &str) -> (list: Option<String>)
    ensures
        list.deep_view() == restoring_text(texts_of(columns@), recorded@),
{
    let values = split(recorded, ", ");
    if values.len() < columns.len() {
        return None;
    }
    let mut assignments: Vec<String> = Vec::new();
    let mut i: usize = 0;
    while i < columns.len()
        invariant
            i <= columns.len(),
            columns.len() <= values.len(),
            assignments.len() == i,
            forall|j: int|
                0 <= j < i ==> assignments@[j]@ == assignment_text(columns@[j]@, values@[j]@),
        decreases columns.len() - i,
    {
        assignments.push(concat3(columns[i].as_str(), "=", values[i].as_str()));
        i = i + 1;
    }
    assert(texts_of(assignments@) =~= assignments_of(texts_of(columns@), texts_of(values@)));
    Some(join(&assignments, ","))
}

/// What the store answered to a step of the recovery.
#[derive(Debug)]
pub enum RecoveryAnswer {
    /// The names of the columns of the table that was described, in the
    /// table's order.
    Columns(Vec<String>),
    /// The statement ran.
    Done,
    /// The store failed; holds its message.
    Failed(String),
}

/// The mathematical value of a [`RecoveryAnswer`].
pub enum RecoveryAnswerView {
    Columns(Seq<Seq<char>>),
    Done,
    Failed(Seq<char>),
}

impl View for RecoveryAnswer {
    type V = RecoveryAnswerView;

    open spec fn view(&self) -> RecoveryAnswerView {
        match self {
            RecoveryAnswer::Columns(names) => RecoveryAnswerView::Columns(texts_of(names@)),
            RecoveryAnswer::Done => RecoveryAnswerView::Done,
            RecoveryAnswer::Failed(message) => RecoveryAnswerView::Failed(message@),
        }
    }
}

/// What the recovery wants done next.
#[derive(Debug)]
pub enum RecoveryStep {
    /// Run this describe statement and answer with the names of the columns.
    Describe(String),
    /// Run this statement against the target store.
    Run(String),
    /// Every undo step is replayed; the disguise can be deleted from the
    /// vault.
    Finished,
    /// The recovery failed with this error; nothing more is to be run, and
    /// the disguise stays in the vault.
    Aborted(EngineError),
}

/// The mathematical value of a [`RecoveryStep`].
pub enum RecoveryStepView {
    Describe(Seq<char>),
    Run(Seq<char>),
    Finished,
    Aborted(ErrorView),
}

impl View for RecoveryStep {
    type V = RecoveryStepView;

    open spec fn view(&self) -> RecoveryStepView {
        match self {
            RecoveryStep::Describe(statement) => RecoveryStepView::Describe(statement@),
            RecoveryStep::Run(statement) => RecoveryStepView::Run(statement@),
            RecoveryStep::Finished => RecoveryStepView::Finished,
            RecoveryStep::Aborted(error) => RecoveryStepView::Aborted(error@),
        }
    }
}

/// The undo step can be replayed: kind, table, predicate and recorded
/// values are given.
pub open spec fn is_replayable(step: FunctionView) -> bool {
    &&& step.function_type is Some
    &&& step.table_name is Some
    &&& step.predicate is Some
    &&& step.original is Some
}

/// The state of a recovery.
pub struct RecoveryState {
    /// The undo steps in the order in which they were recorded.
    pub functions: Seq<FunctionView>,
    /// How many undo steps are replayed.
    pub undone: nat,
    /// The columns of the current step's table, once they are known.
    pub columns: Option<Seq<Seq<char>>>,
    /// The error that ended the recovery, if one did.
    pub failure: Option<ErrorView>,
}

impl RecoveryState {
    /// The state before anything is replayed.
    pub open spec fn initial(functions: Seq<FunctionView>) -> RecoveryState {
        RecoveryState { functions, undone: 0, columns: None, failure: None }
    }

    /// The position, in the recorded order, of the undo step that is
    /// replayed next: the last one first.
    pub open spec fn position(self) -> int {
        self.functions.len() - 1 - self.undone
    }

    /// What the recovery wants done in this state. The undo step at
    /// `position` is replayed: a removal by inserting the row again, any
    /// other step by reading the columns of the table and then assigning
    /// every column its recorded value in the row that the step's predicate
    /// selects.
    pub open spec fn next(self) -> RecoveryStepView {
        if self.failure is Some {
            RecoveryStepView::Aborted(self.failure->0)
        } else if self.undone >= self.functions.len() {
            RecoveryStepView::Finished
        } else {
            let step = self.functions[self.position()];
            if !is_replayable(step) {
                RecoveryStepView::Aborted(ErrorView::InvalidInput(MISSING_FIELD@))
            } else if step.kind() == Some(Kind::Removal) {
                RecoveryStepView::Run(insert_row_text(step.table_name->0, step.original->0))
            } else {
                match self.columns {
                    None => RecoveryStepView::Describe(describe_text(step.table_name->0)),
                    Some(columns) => match restoring_text(columns, step.original->0) {
                        Some(assignments) => RecoveryStepView::Run(
                            update_text(step.table_name->0, assignments, step.predicate->0),
                        ),
                        None => RecoveryStepView::Aborted(
                            ErrorView::InvalidInput(SHAPE_MISMATCH@),
                        ),
                    },
                }
            }
        }
    }

    /// The state after the store's answer to the step that was asked for. A
    /// failure of the store ends the recovery and is handed on as it is. An
    /// answer of another kind than was asked for changes nothing.
    pub open spec fn after(self, answer: RecoveryAnswerView) -> RecoveryState {
        match (self.next(), answer) {
            (RecoveryStepView::Describe(_), RecoveryAnswerView::Columns(names)) => RecoveryState {
                columns: Some(names),
                ..self
            },
            (RecoveryStepView::Run(_), RecoveryAnswerView::Done) => RecoveryState {
                undone: self.undone + 1,
                columns: None,
                ..self
            },
            (RecoveryStepView::Describe(_), RecoveryAnswerView::Failed(message)) => RecoveryState {
                failure: Some(ErrorView::Store(message)),
                ..self
            },
            (RecoveryStepView::Run(_), RecoveryAnswerView::Failed(message)) => RecoveryState {
                failure: Some(ErrorView::Store(message)),
                ..self
            },
            _ => self,
        }
    }

    /// The state after a series of answers, each given to the step that the
    /// state before it asked for.
    pub open spec fn after_all(self, answers: Seq<RecoveryAnswerView>) -> RecoveryState
        decreases answers.len(),
    {
        if answers.len() == 0 {
            self
        } else {
            self.after_all(answers.drop_last()).after(answers.last())
        }
    }

    /// The positions, in the recorded order, of the undo steps that were
    /// replayed while the answers came in, in the order of their replay.
    pub open spec fn replayed(self, answers: Seq<RecoveryAnswerView>) -> Seq<int>
        decreases answers.len(),
    {
        if answers.len() == 0 {
            Seq::empty()
        } else {
            let before = self.after_all(answers.drop_last());
            if before.next() is Run && answers.last() is Done {
                self.replayed(answers.drop_last()).push(before.position())
            } else {
                self.replayed(answers.drop_last())
            }
        }
    }
}

/// Recovery runs backwards: whatever answers come in, the undo steps are
/// replayed one by one in the reverse of the order in which they were
/// recorded, starting with the last one that was not yet replayed. The
/// `j`-th step that is replayed is the one recorded at position
/// `functions.len() - 1 - (undone + j)`, and it can be replayed.
pub proof fn lemma_replay_in_reverse(state: RecoveryState, answers: Seq<RecoveryAnswerView>)
    ensures
        state.after_all(answers).functions == state.functions,
        state.after_all(answers).undone == state.undone + state.replayed(answers).len(),
        forall|j: int|
            0 <= j < state.replayed(answers).len() ==> #[trigger] state.replayed(answers)[j]
                == state.functions.len() - 1 - (state.undone + j),
        forall|j: int|
            0 <= j < state.replayed(answers).len() ==> 0 <= #[trigger] state.replayed(answers)[j]
                < state.functions.len(),
    decreases answers.len(),
{
    if answers.len() > 0 {
        let earlier = answers.drop_last();
        lemma_replay_in_reverse(state, earlier);
        assert forall|j: int| 0 <= j < state.replayed(answers).len() implies #[trigger] state.replayed(
            answers,
        )[j] == state.functions.len() - 1 - (state.undone + j) by {
            if j < state.replayed(earlier).len() {
                assert(state.replayed(answers)[j] == state.replayed(earlier)[j]);
            }
        }
    } else {
        assert(state.replayed(answers).len() == 0);
    }
}

/// A recovery finishes only when every undo step is replayed: where a
/// recovery that started with the first answer asks for nothing more and has
/// not failed, the steps that were replayed are all the recorded steps, the
/// last one first.
pub proof fn lemma_finished_means_all_replayed(
    functions: Seq<FunctionView>,
    answers: Seq<RecoveryAnswerView>,
)
    requires
        RecoveryState::initial(functions).after_all(answers).next() is Finished,
    ensures
        RecoveryState::initial(functions).replayed(answers).len() == functions.len(),
        forall|j: int|
            0 <= j < functions.len() ==> #[trigger] RecoveryState::initial(functions).replayed(
                answers,
            )[j] == functions.len() - 1 - j,
{
    let start = RecoveryState::initial(functions);
    lemma_replay_in_reverse(start, answers);
    let count = start.replayed(answers).len();
    if count > functions.len() {
        assert(0 <= start.replayed(answers)[count - 1]);
    }
}

/// The undo step that is replayed next is the one that stands at position
/// `undone` in the reverse of the recorded order.
pub proof fn lemma_next_is_reverse_order(state: RecoveryState)
    requires
        state.undone < state.functions.len(),
    ensures
        state.functions[state.position()] == state.functions.reverse()[state.undone as int],
{
}

/// Recorded values come back column by column: where at least as many
/// values as there are columns were joined by ", " and none of them holds
/// ", ", the assignment list gives every column the value at its position.
pub proof fn lemma_restoring_recorded_values(columns: Seq<Seq<char>>, values: Seq<Seq<char>>)
    requires
        values.len() >= 1,
        columns.len() <= values.len(),
        forall|i: int| 0 <= i < values.len() ==> !contains_text(#[trigger] values[i], ", "@),
    ensures
        restoring_text(columns, join_text(values, ", "@)) == Some(
            join_text(assignments_of(columns, values), ","@),
        ),
{
    reveal_strlit(", ");
    assert forall|i: int| 0 <= i < values.len() implies free_of(#[trigger] values[i], ", "@) by {
        lemma_free_of_comma_space(values[i]);
    }
    lemma_split_undoes_join(values, ", "@);
}

/// The values of the row as they stand in a list of values hold no ", ".
pub open spec fn has_plain_values(row: TargetView) -> bool
    recommends
        row.wf(),
{
    forall|i: int|
        0 <= i < row.fields->0.len() ==> !contains_text(
            (#[trigger] row.fields->0[i]).rendered(),
            ", "@,
        )
}

/// Recovery undoes what was recorded of a row. The undo step that the
/// ledger records for a whole row with plain values is replayed as follows.
/// For a removal, the row is inserted again with the values that it had, in
/// the order of its fields. For any other transformation, once the columns of
/// the table are known to be those of the row, every column is assigned the
/// value that it had, in the one row that the row's own primary-key
/// condition selects.
pub proof fn lemma_recovery_restores_row(
    disguise_id: Option<i32>,
    t: TransformationView,
    row: TargetView,
    change: Option<Seq<char>>,
)
    requires
        row.wf(),
        has_plain_values(row),
        t.transform_type is Some,
        t.table_name is Some,
    ensures
        ({
            let step = function_of(disguise_id, t, row, change);
            let fields = row.fields->0;
            let asked = RecoveryState::initial(seq![step]);
            let described = asked.after(RecoveryAnswerView::Columns(names_of(fields)));
            &&& t.kind() == Some(Kind::Removal) ==> asked.next() == RecoveryStepView::Run(
                insert_row_text(t.table_name->0, join_text(rendered_values_of(fields), ", "@)),
            )
            &&& t.kind() != Some(Kind::Removal) ==> asked.next() == RecoveryStepView::Describe(
                describe_text(t.table_name->0),
            ) && described.next() == RecoveryStepView::Run(
                update_text(
                    t.table_name->0,
                    join_text(assignments_of(names_of(fields), rendered_values_of(fields)), ","@),
                    row.primary_key()->0.equation(),
                ),
            )
        }),
{
    let step = function_of(disguise_id, t, row, change);
    let fields = row.fields->0;
    let values = rendered_values_of(fields);
    assert(seq![step][0] == step);
    assert(step.kind() == t.kind());
    assert forall|i: int| 0 <= i < values.len() implies !contains_text(
        #[trigger] values[i],
        ", "@,
    ) by {
        assert(values[i] == fields[i].rendered());
    }
    lemma_restoring_recorded_values(names_of(fields), values);
}

/// A recovery of one disguise.
pub struct Recovery {
    functions: Vec<Function>,
    undone: usize,
    columns: Option<Vec<String>>,
    failure: Option<EngineError>,
}

/// The views of the strings of an optional list.
pub open spec fn optional_texts(list: Option<Vec<String>>) -> Option<Seq<Seq<char>>> {
    match list {
        Some(names) => Some(texts_of(names@)),
        None => None,
    }
}

impl View for Recovery {
    type V = RecoveryState;

    closed spec fn view(&self) -> RecoveryState {
        RecoveryState {
            functions: self.functions.deep_view(),
            undone: self.undone as nat,
            columns: optional_texts(self.columns),
            failure: self.failure.deep_view(),
        }
    }
}

impl Recovery {
    /// A recovery of the disguise; `MISSING_FIELD` where the disguise has no
    /// list of undo steps.
    pub fn new(disguise: &Disguise) -> (recovery: Result<Recovery, EngineError>)
        ensures
            disguise@.functions is Some ==> recovery is Ok && recovery->Ok_0@
                == RecoveryState::initial(disguise@.functions->0),
            disguise@.functions is None ==> recovery is Err && recovery->Err_0@
                == ErrorView::InvalidInput(MISSING_FIELD@),
    {
        match &disguise.functions {
            Some(functions) => Ok(
                Recovery {
                    functions: copy_functions(functions),
                    undone: 0,
                    columns: None,
                    failure: None,
                },
            ),
            None => Err(EngineError::invalid_input(MISSING_FIELD)),
        }
    }

    /// What is to be done next.
    pub fn next(&self) -> (step: RecoveryStep)
        ensures
            step@ == self@.next(),
    {
        match &self.failure {
            Some(error) => { return RecoveryStep::Aborted(error.clone()); },
            None => {},
        }
        if self.undone >= self.functions.len() {
            return RecoveryStep::Finished;
        }
        let step = &self.functions[self.functions.len() - 1 - self.undone];
        let (name, table, predicate, recorded) = match (
            &step.function_type,
            &step.table_name,
            &step.predicate,
            &step.original,
        ) {
            (Some(name), Some(table), Some(predicate), Some(recorded)) => (
                name,
                table,
                predicate,
                recorded,
            ),
            _ => { return RecoveryStep::Aborted(EngineError::invalid_input(MISSING_FIELD)); },
        };
        match parse_kind(name.as_str()) {
            Some(Kind::Removal) => RecoveryStep::Run(
                insert_row_statement(table.as_str(), recorded.as_str()),
            ),
            _ => match &self.columns {
                None => RecoveryStep::Describe(describe_statement(table.as_str())),
                Some(columns) => match restoring_assignments(columns, recorded.as_str()) {
                    Some(assignments) => RecoveryStep::Run(
                        update_statement(table.as_str(), assignments.as_str(), predicate.as_str()),
                    ),
                    None => RecoveryStep::Aborted(EngineError::invalid_input(SHAPE_MISMATCH)),
                },
            },
        }
    }

    /// Takes the store's answer to the step that `next` asked for.
    pub fn record(&mut self, answer: RecoveryAnswer)
        ensures
            final(self)@ == old(self)@.after(answer@),
    {
        let step = self.next();
        match (step, answer) {
            (RecoveryStep::Describe(_), RecoveryAnswer::Columns(names)) => {
                self.columns = Some(names);
            },
            (RecoveryStep::Run(_), RecoveryAnswer::Done) => {
                assert(self@.next() is Run);
                assert(self.undone < self.functions.len());
                self.undone = self.undone + 1;
                self.columns = None;
            },
            (RecoveryStep::Describe(_), RecoveryAnswer::Failed(message)) => {
                self.failure = Some(EngineError::Store(message));
            },
            (RecoveryStep::Run(_), RecoveryAnswer::Failed(message)) => {
                self.failure = Some(EngineError::Store(message));
            },
            _ => {},
        }
    }
}

} // verus!
