//! The vault ledger: what is recorded of an applied disguise, and how the
//! vault is cleared of old disguises.
//!
//! For every row that a transformation affected the ledger holds one undo
//! step. Its predicate is the row's own primary-key condition, never the
//! predicate that selected the row, so that a step always undoes one row.

use vstd::prelude::*;
use vstd::string::*;
use crate::clock::{
    is_notation_of, is_writable, local_time, read_clock, Moment, SHORTEST_NOTATION,
};
use crate::error::{EngineError, ErrorView, MISSING_FIELD, NO_DISGUISE};
use crate::executor::{change_of, changes_of};
use crate::models::requirement::{Requirement, RequirementView};
use crate::models::target::{rendered_values_of, Target, TargetView};
use crate::models::transformation::{Kind, Transformation, TransformationView};
use crate::models::vault::{
    Disguise, DisguiseFromDB, DisguiseFromDBView, DisguiseView, Function, FunctionView,
};
use crate::text::{copy_text, join_text};

verus! {

/// The change entry of the transformation at `position`, where there is one.
pub open spec fn change_at(updated: Seq<Seq<char>>, position: int) -> Option<Seq<char>> {
    if 0 <= position < updated.len() {
        Some(updated[position])
    } else {
        None
    }
}

/// The undo step of one row: the kind and the table of the transformation,
/// the row's own primary-key condition, the row's values before the change,
/// and the change.
pub open spec fn function_of(
    disguise_id: Option<i32>,
    t: TransformationView,
    row: TargetView,
    change: Option<Seq<char>>,
) -> FunctionView
    recommends
        row.wf(),
{
    FunctionView {
        disguise_id,
        function_type: t.transform_type,
        table_name: t.table_name,
        predicate: Some(row.primary_key()->0.equation()),
        original: Some(join_text(rendered_values_of(row.fields->0), ", "@)),
        updated: change,
    }
}

/// The undo steps of one transformation: one for each row that it affected,
/// in the order of the rows.
pub open spec fn row_functions(
    disguise_id: Option<i32>,
    t: TransformationView,
    rows: Seq<TargetView>,
    change: Option<Seq<char>>,
) -> Seq<FunctionView> {
    Seq::new(rows.len(), |k: int| function_of(disguise_id, t, rows[k], change))
}

/// The undo steps of a batch: those of each transformation in turn.
pub open spec fn functions_of(
    disguise_id: Option<i32>,
    batch: Seq<TransformationView>,
    originals: Seq<Seq<TargetView>>,
    updated: Seq<Seq<char>>,
) -> Seq<FunctionView>
    decreases batch.len(),
{
    if batch.len() == 0 {
        Seq::empty()
    } else {
        functions_of(disguise_id, batch.drop_last(), originals, updated) + row_functions(
            disguise_id,
            batch.last(),
            originals[batch.len() - 1],
            change_at(updated, batch.len() - 1),
        )
    }
}

/// The batch can be recorded: every transformation has its kind and its
/// table, and the snapshots of its rows are there and whole.
pub open spec fn recordable(batch: Seq<TransformationView>, originals: Seq<Seq<TargetView>>) -> bool {
    &&& batch.len() <= originals.len()
    &&& forall|i: int|
        0 <= i < batch.len() ==> {
            &&& (#[trigger] batch[i]).transform_type is Some
            &&& batch[i].table_name is Some
        }
    &&& forall|i: int, k: int|
        0 <= i < batch.len() && 0 <= k < originals[i].len() ==> (#[trigger] originals[i][k]).wf()
}

/// The undo steps of one transformation; `MISSING_FIELD` where the
/// transformation lacks its kind or its table or a snapshot is not whole.
pub fn record_rows(
    disguise_id: Option<i32>,
    t: &Transformation,
    rows: &Vec<Target>,
    change: &Option<String>,
) -> (steps: Result<Vec<Function>, EngineError>)
    ensures
        ({
            let fine = t@.transform_type is Some && t@.table_name is Some && forall|k: int|
                0 <= k < rows.len() ==> (#[trigger] rows.deep_view()[k]).wf();
            &&& fine ==> steps is Ok && steps->Ok_0.deep_view() == row_functions(
                disguise_id,
                t@,
                rows.deep_view(),
                change.deep_view(),
            )
            &&& !fine ==> steps is Err && steps->Err_0@ == ErrorView::InvalidInput(MISSING_FIELD@)
        }),
{
    if t.transform_type.is_none() || t.table_name.is_none() {
        return Err(EngineError::invalid_input(MISSING_FIELD));
    }
    let mut steps: Vec<Function> = Vec::new();
    let mut k: usize = 0;
    while k < rows.len()
        invariant
            k <= rows.len(),
            steps.len() == k,
            forall|j: int| 0 <= j < k ==> (#[trigger] rows.deep_view()[j]).wf(),
            forall|j: int|
                0 <= j < k ==> steps@[j]@ == function_of(
                    disguise_id,
                    t@,
                    rows.deep_view()[j],
                    change.deep_view(),
                ),
        decreases rows.len() - k,
    {
        let row = &rows[k];
        assert(rows.deep_view()[k as int] == row@);
        if !row.is_whole() {
            return Err(EngineError::invalid_input(MISSING_FIELD));
        }
        let key = row.primary_key().unwrap();
        steps.push(
            Function {
                disguise_id,
                function_type: copy_text(&t.transform_type),
                table_name: copy_text(&t.table_name),
                predicate: key.equation(),
                original: row.field_values(),
                updated: copy_text(change),
            },
        );
        k = k + 1;
    }
    assert(steps.deep_view() =~= row_functions(
        disguise_id,
        t@,
        rows.deep_view(),
        change.deep_view(),
    ));
    Ok(steps)
}

/// The undo steps to record for an applied batch, given the snapshots that
/// were taken of each transformation's rows before it ran and the change
/// entries that the executor handed out; `MISSING_FIELD` where the batch
/// cannot be recorded.
pub fn record_functions(
    disguise_id: Option<i32>,
    transformations: &Vec<Transformation>,
    originals: &Vec<Vec<Target>>,
    updated: &Vec<String>,
) -> (steps: Result<Vec<Function>, EngineError>)
    ensures
        recordable(transformations.deep_view(), originals.deep_view()) ==> steps is Ok
            && steps->Ok_0.deep_view() == functions_of(
            disguise_id,
            transformations.deep_view(),
            originals.deep_view(),
            updated.deep_view(),
        ),
        !recordable(transformations.deep_view(), originals.deep_view()) ==> steps is Err
            && steps->Err_0@ == ErrorView::InvalidInput(MISSING_FIELD@),
{
    if transformations.len() > originals.len() {
        return Err(EngineError::invalid_input(MISSING_FIELD));
    }
    let mut steps: Vec<Function> = Vec::new();
    let mut i: usize = 0;
    while i < transformations.len()
        invariant
            i <= transformations.len(),
            transformations.len() <= originals.len(),
            recordable(transformations.deep_view().take(i as int), originals.deep_view()),
            steps.deep_view() == functions_of(
                disguise_id,
                transformations.deep_view().take(i as int),
                originals.deep_view(),
                updated.deep_view(),
            ),
        decreases transformations.len() - i,
    {
        let ghost upto = transformations.deep_view().take(i + 1);
        assert(upto.drop_last() =~= transformations.deep_view().take(i as int));
        assert(upto.last() == transformations@[i as int]@);
        assert(originals.deep_view()[i as int] == originals@[i as int].deep_view());
        let change = if i < updated.len() {
            Some(updated[i].clone())
        } else {
            None
        };
        assert(change.deep_view() == change_at(updated.deep_view(), i as int));
        let mut block = match record_rows(disguise_id, &transformations[i], &originals[i], &change) {
            Ok(block) => block,
            Err(error) => {
                assert(!recordable(transformations.deep_view(), originals.deep_view())) by {
                    if recordable(transformations.deep_view(), originals.deep_view()) {
                        assert(transformations.deep_view()[i as int].transform_type is Some);
                        assert forall|k: int| 0 <= k < originals@[i as int].len() implies (
                        #[trigger] originals@[i as int].deep_view()[k]).wf() by {
                            assert(originals.deep_view()[i as int][k].wf());
                        }
                    }
                }
                return Err(error);
            },
        };
        let ghost before = steps.deep_view();
        let ghost added = block.deep_view();
        steps.append(&mut block);
        assert(steps.deep_view() =~= before + added);
        assert(recordable(upto, originals.deep_view())) by {
            assert forall|j: int| 0 <= j < upto.len() implies {
                &&& (#[trigger] upto[j]).transform_type is Some
                &&& upto[j].table_name is Some
            } by {
                if j < i {
                    assert(transformations.deep_view().take(i as int)[j] == upto[j]);
                }
            }
            assert forall|j: int, k: int|
                0 <= j < upto.len() && 0 <= k < originals.deep_view()[j].len() implies (
            #[trigger] originals.deep_view()[j][k]).wf() by {
                if j < i {
                    assert(transformations.deep_view().take(i as int).len() == i);
                } else {
                    assert(originals@[i as int].deep_view()[k].wf());
                }
            }
        }
        i = i + 1;
    }
    assert(transformations.deep_view().take(transformations.len() as int)
        =~= transformations.deep_view());
    Ok(steps)
}

/// The rows that the first `count` transformations affected, all together.
pub open spec fn total_rows(originals: Seq<Seq<TargetView>>, count: int) -> int
    decreases count,
{
    if count <= 0 {
        0
    } else {
        total_rows(originals, count - 1) + originals[count - 1].len()
    }
}

/// One undo step per affected row: the ledger holds as many undo steps as
/// the transformations of the batch affected rows, all together.
pub proof fn lemma_one_function_per_row(
    disguise_id: Option<i32>,
    batch: Seq<TransformationView>,
    originals: Seq<Seq<TargetView>>,
    updated: Seq<Seq<char>>,
)
    ensures
        functions_of(disguise_id, batch, originals, updated).len() == total_rows(
            originals,
            batch.len() as int,
        ),
    decreases batch.len(),
{
    if batch.len() > 0 {
        lemma_one_function_per_row(disguise_id, batch.drop_last(), originals, updated);
    }
}

/// Every undo step of the ledger is the step of one row of one
/// transformation; the lemma hands out the positions of the transformation
/// and of the row.
pub proof fn lemma_function_origin(
    disguise_id: Option<i32>,
    batch: Seq<TransformationView>,
    originals: Seq<Seq<TargetView>>,
    updated: Seq<Seq<char>>,
    position: int,
) -> (at: (int, int))
    requires
        0 <= position < functions_of(disguise_id, batch, originals, updated).len(),
    ensures
        0 <= at.0 < batch.len(),
        0 <= at.1 < originals[at.0].len(),
        functions_of(disguise_id, batch, originals, updated)[position] == function_of(
            disguise_id,
            batch[at.0],
            originals[at.0][at.1],
            change_at(updated, at.0),
        ),
    decreases batch.len(),
{
    let earlier = functions_of(disguise_id, batch.drop_last(), originals, updated);
    if position < earlier.len() {
        lemma_function_origin(disguise_id, batch.drop_last(), originals, updated, position)
    } else {
        (batch.len() - 1, position - earlier.len())
    }
}

/// Undo steps are keyed by row: the predicate of every undo step is the
/// primary-key condition of the one row that the step belongs to, whatever
/// predicate the transformation selected its rows with.
pub proof fn lemma_predicates_are_row_keys(
    disguise_id: Option<i32>,
    batch: Seq<TransformationView>,
    originals: Seq<Seq<TargetView>>,
    updated: Seq<Seq<char>>,
    position: int,
) -> (at: (int, int))
    requires
        0 <= position < functions_of(disguise_id, batch, originals, updated).len(),
    ensures
        0 <= at.0 < batch.len(),
        0 <= at.1 < originals[at.0].len(),
        functions_of(disguise_id, batch, originals, updated)[position].predicate == Some(
            originals[at.0][at.1].primary_key()->0.equation(),
        ),
        functions_of(disguise_id, batch, originals, updated)[position].table_name
            == batch[at.0].table_name,
        functions_of(disguise_id, batch, originals, updated)[position].function_type
            == batch[at.0].transform_type,
{
    lemma_function_origin(disguise_id, batch, originals, updated, position)
}

/// The change of a decorrelation is the placeholder assignment: where the
/// change entries are those that the executor hands out for the batch, every
/// undo step of a decorrelation records the placeholder assignment as the
/// caller gave it, every step of a modification the modification's changes,
/// and every step of a removal the empty text.
pub proof fn lemma_recorded_changes(
    disguise_id: Option<i32>,
    batch: Seq<TransformationView>,
    originals: Seq<Seq<TargetView>>,
    placeholder: Seq<char>,
    position: int,
)
    requires
        0 <= position < functions_of(
            disguise_id,
            batch,
            originals,
            changes_of(batch, placeholder),
        ).len(),
    ensures
        ({
            let step = functions_of(
                disguise_id,
                batch,
                originals,
                changes_of(batch, placeholder),
            )[position];
            &&& step.kind() == Some(Kind::Decorrelation) ==> step.updated == Some(placeholder)
            &&& step.kind() == Some(Kind::Removal) ==> step.updated == Some(Seq::<char>::empty())
            &&& step.kind() == Some(Kind::Modification) ==> exists|i: int|
                0 <= i < batch.len() && step.updated == Some(#[trigger] batch[i].changes->0)
        }),
{
    let at = lemma_function_origin(
        disguise_id,
        batch,
        originals,
        changes_of(batch, placeholder),
        position,
    );
    assert(change_at(changes_of(batch, placeholder), at.0) == Some(
        change_of(batch[at.0], placeholder),
    ));
}

/// The header of a disguise that was applied at the given time: no id yet,
/// the time, and the subject's vault and the policy's name as the request
/// gives them; `MISSING_FIELD` where the request lacks the name, the vault or
/// the transformations.
pub open spec fn header_of(r: RequirementView, time: Option<Seq<char>>) -> Result<
    DisguiseFromDBView,
    ErrorView,
> {
    if r.disguise_name is Some && r.vault_id is Some && r.transformations is Some {
        Ok(
            DisguiseFromDBView {
                disguise_id: None,
                time,
                vault_id: r.vault_id,
                disguise_type: r.disguise_name,
            },
        )
    } else {
        Err(ErrorView::InvalidInput(MISSING_FIELD@))
    }
}

/// The header of a disguise that was applied at the given time.
pub fn header_at(requirement: &Requirement, time: Option<String>) -> (header: Result<
    DisguiseFromDB,
    EngineError,
>)
    ensures
        header_of(requirement@, time.deep_view()) matches Ok(h) ==> header is Ok && header->Ok_0@
            == h,
        header_of(requirement@, time.deep_view()) matches Err(e) ==> header is Err
            && header->Err_0@ == e,
{
    if requirement.disguise_name.is_none() || requirement.vault_id.is_none()
        || requirement.transformations.is_none() {
        return Err(EngineError::invalid_input(MISSING_FIELD));
    }
    Ok(
        DisguiseFromDB {
            disguise_id: None,
            time,
            vault_id: copy_text(&requirement.vault_id),
            disguise_type: copy_text(&requirement.disguise_name),
        },
    )
}

/// The time is the notation of a moment that can be written, at an offset
/// that a zone can have.
pub open spec fn is_time_of_application(time: Seq<char>) -> bool {
    exists|moment: Moment| is_writable(moment) && #[trigger] is_notation_of(time, moment)
}

/// The header of a disguise about to be recorded: the policy's name and the
/// subject's vault as the request gives them, and the present moment in
/// local notation as the time of application. The moment is read from the
/// clock and written at the offset of the machine's zone, so of the time the
/// contract says that it is the notation of a moment, not of which one.
/// `MISSING_FIELD` where the request lacks the name, the vault or the
/// transformations.
pub fn new_header(requirement: &Requirement) -> (header: Result<DisguiseFromDB, EngineError>)
    ensures
        header matches Ok(h) ==> header_of(requirement@, h@.time) == Ok::<
            DisguiseFromDBView,
            ErrorView,
        >(h@),
        header matches Ok(h) ==> (h@.time matches Some(t) ==> is_time_of_application(t) && t.len()
            >= SHORTEST_NOTATION),
        header is Ok <==> header_of(requirement@, None) is Ok,
        header matches Err(e) ==> e@ == ErrorView::InvalidInput(MISSING_FIELD@),
{
    let now = read_clock();
    let time = local_time(now);
    proof {
        if time is Some {
            assert(is_writable(now) && is_notation_of(time->0@, now));
        }
    }
    header_at(requirement, time)
}

/// The disguise that a lookup found: the header with its undo steps in the
/// order in which the vault handed them out; `NO_DISGUISE` where the vault
/// has no header for the policy and the subject.
pub fn assemble(header: Option<DisguiseFromDB>, functions: Vec<Function>) -> (disguise: Result<
    Disguise,
    EngineError,
>)
    ensures
        header is Some ==> disguise is Ok && disguise->Ok_0@ == (DisguiseView {
            disguise_id: header->0@.disguise_id,
            time: header->0@.time,
            vault_id: header->0@.vault_id,
            disguise_type: header->0@.disguise_type,
            functions: Some(functions.deep_view()),
        }),
        header is None ==> disguise is Err && disguise->Err_0@ == ErrorView::NotFound(NO_DISGUISE@),
{
    match header {
        Some(header) => {
            let mut disguise = Disguise::from(header);
            disguise.functions = Some(functions);
            Ok(disguise)
        },
        None => Err(EngineError::not_found(NO_DISGUISE)),
    }
}

} // verus!
