//! The planner: turns an age-based policy into transformations of single
//! rows.
//!
//! A policy names an owner table by a template that carries the name of a
//! timestamp column in place of a predicate, and dependent tables by
//! templates that carry the name of a foreign key and no predicate. The
//! planner selects the owner rows that are older than the cutoff and emits,
//! for the rows that were found, first every transformation of a dependent
//! row and then every transformation of an owner row, so that no dependent
//! row is touched after the row that owns it.

use vstd::prelude::*;
use vstd::string::*;
use crate::clock::{
    cutoff_before_now, cutoff_of, is_notation_of, is_writable, local_time, Moment, Reading,
    SHORTEST_NOTATION,
};
use crate::error::{EngineError, ErrorView, AGE_OUT_OF_RANGE, MISSING_FIELD};
use crate::models::target::{lemma_found_field_is_complete, Target, TargetView};
use crate::models::transformation::{Transformation, TransformationView};
use crate::text::copy_text;

verus! {

/// The predicate that selects the rows whose `column` lies before the
/// cutoff: the column, "<", and the cutoff between double quotes.
pub open spec fn owner_predicate(column: Seq<char>, cutoff_text: Seq<char>) -> Seq<char> {
    column + "<\""@ + cutoff_text + "\""@
}

/// A transformation with no field given.
pub open spec fn empty_transformation() -> TransformationView {
    TransformationView {
        transform_type: None,
        table_name: None,
        predicate: None,
        foreign_key: None,
        changes: None,
    }
}

/// The owner's transformation: the last template that carries a column,
/// with the predicate of the cutoff in the column's place; a transformation
/// with no field where no template carries one.
pub open spec fn owner_of(templates: Seq<TransformationView>, cutoff_text: Seq<char>) -> TransformationView
    decreases templates.len(),
{
    if templates.len() == 0 {
        empty_transformation()
    } else if templates.last().predicate is Some {
        TransformationView {
            predicate: Some(owner_predicate(templates.last().predicate->0, cutoff_text)),
            ..templates.last()
        }
    } else {
        owner_of(templates.drop_last(), cutoff_text)
    }
}

/// The dependents' templates: those that carry no column, in their order.
pub open spec fn dependents_of(templates: Seq<TransformationView>) -> Seq<TransformationView>
    decreases templates.len(),
{
    if templates.len() == 0 {
        Seq::empty()
    } else if templates.last().predicate is None {
        dependents_of(templates.drop_last()).push(templates.last())
    } else {
        dependents_of(templates.drop_last())
    }
}

/// The templates of a policy, told apart.
#[derive(Debug)]
pub struct Selection {
    /// The transformation that selects the old rows of the owner table.
    pub owner: Transformation,
    /// The templates of the dependent tables.
    pub dependents: Vec<Transformation>,
}

/// The mathematical value of a [`Selection`].
pub struct SelectionView {
    pub owner: TransformationView,
    pub dependents: Seq<TransformationView>,
}

impl View for Selection {
    type V = SelectionView;

    open spec fn view(&self) -> SelectionView {
        SelectionView { owner: self.owner@, dependents: self.dependents.deep_view() }
    }
}

/// The selection that the templates and a cutoff stand for.
pub open spec fn selection_of(templates: Seq<TransformationView>, cutoff_text: Seq<char>) -> SelectionView {
    SelectionView {
        owner: owner_of(templates, cutoff_text),
        dependents: dependents_of(templates),
    }
}

/// Tells the owner's template from the dependents' and gives the owner the
/// predicate of the cutoff.
pub fn select_owner(transformations: &Vec<Transformation>, cutoff_text: &str) -> (selection: Selection)
    ensures
        selection@ == selection_of(transformations.deep_view(), cutoff_text@),
{
    let mut owner = Transformation::new_empty();
    let mut dependents: Vec<Transformation> = Vec::new();
    let mut i: usize = 0;
    while i < transformations.len()
        invariant
            i <= transformations.len(),
            owner@ == owner_of(transformations.deep_view().take(i as int), cutoff_text@),
            dependents.deep_view() == dependents_of(transformations.deep_view().take(i as int)),
        decreases transformations.len() - i,
    {
        let ghost upto = transformations.deep_view().take(i + 1);
        assert(upto.drop_last() =~= transformations.deep_view().take(i as int));
        assert(upto.last() == transformations@[i as int]@);
        let t = &transformations[i];
        match &t.predicate {
            Some(column) => {
                let mut predicate = column.clone();
                predicate.append("<\"");
                predicate.append(cutoff_text);
                predicate.append("\"");
                owner =
                Transformation {
                    transform_type: copy_text(&t.transform_type),
                    table_name: copy_text(&t.table_name),
                    predicate: Some(predicate),
                    foreign_key: copy_text(&t.foreign_key),
                    changes: copy_text(&t.changes),
                };
            },
            None => {
                let ghost before = dependents.deep_view();
                dependents.push(t.clone());
                assert(dependents.deep_view() =~= before.push(t@));
            },
        }
        i = i + 1;
    }
    assert(transformations.deep_view().take(transformations.len() as int)
        =~= transformations.deep_view());
    Selection { owner, dependents }
}

/// A selection that was made at a moment: the present moment as it was
/// read from the clock, the cutoff, the cutoff as it is written in the
/// owner's predicate, and the selection.
#[derive(Debug)]
pub struct DatedSelection {
    pub now: Moment,
    pub cutoff: Moment,
    pub cutoff_text: String,
    pub selection: Selection,
}

/// The reading leads to a selection: it has a cutoff, and the cutoff can be
/// written.
pub open spec fn can_be_planned(reading: Reading) -> bool {
    reading.cutoff matches Some(cutoff) && is_writable(cutoff)
}

/// Tells the owner's template from the dependents' and gives the owner the
/// predicate of the cutoff of the reading, written in the machine's local
/// notation. There is a selection if and only if the reading has a cutoff
/// that can be written; `AGE_OUT_OF_RANGE` is returned otherwise. The written
/// cutoff is the notation of the reading's cutoff at the offset of the
/// machine's zone, the selection is the one that the templates and the
/// written cutoff stand for, and the reading and the written cutoff are
/// handed out with it.
pub fn plan_selection_at(transformations: &Vec<Transformation>, reading: Reading) -> (planned:
    Result<DatedSelection, EngineError>)
    ensures
        planned is Ok <==> can_be_planned(reading),
        planned matches Ok(p) ==> {
            &&& p.now == reading.now
            &&& Some(p.cutoff) == reading.cutoff
            &&& is_notation_of(p.cutoff_text@, p.cutoff)
            &&& p.cutoff_text@.len() >= SHORTEST_NOTATION
            &&& p.selection@ == selection_of(transformations.deep_view(), p.cutoff_text@)
        },
        planned matches Err(e) ==> e@ == ErrorView::InvalidInput(AGE_OUT_OF_RANGE@),
{
    let cutoff = match reading.cutoff {
        Some(cutoff) => cutoff,
        None => { return Err(EngineError::invalid_input(AGE_OUT_OF_RANGE)); },
    };
    match local_time(cutoff) {
        Some(text) => {
            let selection = select_owner(transformations, text.as_str());
            Ok(DatedSelection { now: reading.now, cutoff, cutoff_text: text, selection })
        },
        None => Err(EngineError::invalid_input(AGE_OUT_OF_RANGE)),
    }
}

/// Tells the owner's template from the dependents' and gives the owner the
/// predicate of the cutoff that lies `age_years` years of 365 days before
/// the present moment. The present moment is read from the clock, and the
/// cutoff is written in the machine's local notation: both are handed out
/// with the selection. `AGE_OUT_OF_RANGE` is returned where the cutoff cannot
/// be computed or written, which depends on the moment that the clock shows.
pub fn plan_selection(transformations: &Vec<Transformation>, age_years: i64) -> (planned: Result<
    DatedSelection,
    EngineError,
>)
    ensures
        planned matches Ok(p) ==> {
            &&& cutoff_of(p.now, age_years) == Some(p.cutoff)
            &&& is_writable(p.cutoff)
            &&& is_notation_of(p.cutoff_text@, p.cutoff)
            &&& p.cutoff_text@.len() >= SHORTEST_NOTATION
            &&& p.selection@ == selection_of(transformations.deep_view(), p.cutoff_text@)
        },
        planned matches Err(e) ==> e@ == ErrorView::InvalidInput(AGE_OUT_OF_RANGE@),
{
    plan_selection_at(transformations, cutoff_before_now(age_years))
}

/// The transformation of the dependent rows of one owner row: that of the
/// template, with the predicate that selects the rows whose foreign key has
/// the value that the owner row holds in the column of that name.
pub open spec fn dependent_for(row: TargetView, template: TransformationView) -> TransformationView
    recommends
        row.wf(),
        template.foreign_key is Some,
        row.foreign_key(template.foreign_key->0) is Some,
{
    TransformationView {
        transform_type: template.transform_type,
        table_name: template.table_name,
        predicate: Some(row.foreign_key(template.foreign_key->0)->0.equation()),
        foreign_key: template.foreign_key,
        changes: None,
    }
}

/// The transformation of one owner row: that of the owner, with the
/// predicate that selects the row by its primary key.
pub open spec fn owner_for(row: TargetView, owner: TransformationView) -> TransformationView
    recommends
        row.wf(),
{
    TransformationView { predicate: Some(row.primary_key()->0.equation()), ..owner }
}

/// The transformations of the dependent rows of one owner row, in the order
/// of the templates.
pub open spec fn row_dependents(row: TargetView, templates: Seq<TransformationView>) -> Seq<
    TransformationView,
> {
    Seq::new(templates.len(), |d: int| dependent_for(row, templates[d]))
}

/// The transformations of the dependent rows of all owner rows: row by row,
/// and for each row in the order of the templates.
pub open spec fn dependents_block(rows: Seq<TargetView>, templates: Seq<TransformationView>) -> Seq<
    TransformationView,
>
    decreases rows.len(),
{
    if rows.len() == 0 {
        Seq::empty()
    } else {
        dependents_block(rows.drop_last(), templates) + row_dependents(rows.last(), templates)
    }
}

/// The transformations of the owner rows, in the order of the rows.
pub open spec fn owners_block(rows: Seq<TargetView>, owner: TransformationView) -> Seq<
    TransformationView,
> {
    Seq::new(rows.len(), |r: int| owner_for(rows[r], owner))
}

/// The plan: every transformation of a dependent row, then every
/// transformation of an owner row.
pub open spec fn expansion(
    rows: Seq<TargetView>,
    owner: TransformationView,
    templates: Seq<TransformationView>,
) -> Seq<TransformationView> {
    dependents_block(rows, templates) + owners_block(rows, owner)
}

/// The block of the dependents holds one transformation for each pair of an
/// owner row and a template: that of row `r` and template `d` stands at
/// position `r * templates.len() + d`.
pub proof fn lemma_dependents_block_at(
    rows: Seq<TargetView>,
    templates: Seq<TransformationView>,
    r: int,
    d: int,
)
    requires
        0 <= r < rows.len(),
        0 <= d < templates.len(),
    ensures
        dependents_block(rows, templates).len() == rows.len() * templates.len(),
        0 <= r * templates.len() + d < rows.len() * templates.len(),
        dependents_block(rows, templates)[r * templates.len() + d] == dependent_for(
            rows[r],
            templates[d],
        ),
    decreases rows.len(),
{
    lemma_dependents_block_len(rows, templates);
    let width = templates.len() as int;
    let height = rows.len() as int;
    assert(0 <= r * width + d < height * width) by (nonlinear_arith)
        requires
            0 <= r < height,
            0 <= d < width,
    ;
    let earlier = rows.drop_last();
    lemma_dependents_block_len(earlier, templates);
    assert((height - 1) * width == height * width - width) by (nonlinear_arith);
    if r < height - 1 {
        lemma_dependents_block_at(earlier, templates, r, d);
    } else {
        assert(r * width == (height - 1) * width);
    }
}

/// The block of the dependents holds one transformation for each pair of an
/// owner row and a template.
pub proof fn lemma_dependents_block_len(rows: Seq<TargetView>, templates: Seq<TransformationView>)
    ensures
        dependents_block(rows, templates).len() == rows.len() * templates.len(),
    decreases rows.len(),
{
    let width = templates.len() as int;
    let height = rows.len() as int;
    if rows.len() == 0 {
        assert(height * width == 0) by (nonlinear_arith)
            requires
                height == 0,
        ;
    } else {
        lemma_dependents_block_len(rows.drop_last(), templates);
        assert((height - 1) * width + width == height * width) by (nonlinear_arith);
    }
}

/// Dependents before owners: the plan holds, for `R` owner rows and `D`
/// templates, first the `R * D` transformations of dependent rows and then
/// the `R` transformations of owner rows. So the transformation of any
/// dependent row stands strictly before the transformation of any owner row,
/// that of its own owner included.
pub proof fn lemma_dependents_before_owners(
    rows: Seq<TargetView>,
    owner: TransformationView,
    templates: Seq<TransformationView>,
)
    ensures
        expansion(rows, owner, templates).len() == rows.len() * templates.len() + rows.len(),
        forall|r: int, d: int|
            0 <= r < rows.len() && 0 <= d < templates.len() ==> {
                &&& 0 <= r * templates.len() + d < rows.len() * templates.len()
                &&& expansion(rows, owner, templates)[r * templates.len() + d] == #[trigger] dependent_for(
                    rows[r],
                    templates[d],
                )
            },
        forall|r: int|
            0 <= r < rows.len() ==> expansion(rows, owner, templates)[rows.len() * templates.len()
                + r] == #[trigger] owner_for(rows[r], owner),
{
    lemma_dependents_block_len(rows, templates);
    assert forall|r: int, d: int| 0 <= r < rows.len() && 0 <= d < templates.len() implies {
        &&& 0 <= r * templates.len() + d < rows.len() * templates.len()
        &&& expansion(rows, owner, templates)[r * templates.len() + d] == #[trigger] dependent_for(
            rows[r],
            templates[d],
        )
    } by {
        lemma_dependents_block_at(rows, templates, r, d);
    }
}

/// The row can be expanded: it is whole, and it has a field for the foreign
/// key of each template.
pub open spec fn row_expandable(row: TargetView, templates: Seq<TransformationView>) -> bool {
    &&& row.wf()
    &&& forall|d: int|
        0 <= d < templates.len() ==> {
            &&& (#[trigger] templates[d]).foreign_key is Some
            &&& row.foreign_key(templates[d].foreign_key->0) is Some
        }
}

/// Every row can be expanded.
pub open spec fn expandable(rows: Seq<TargetView>, templates: Seq<TransformationView>) -> bool {
    forall|r: int| 0 <= r < rows.len() ==> row_expandable(#[trigger] rows[r], templates)
}

/// The transformations of the dependent rows of one owner row;
/// `MISSING_FIELD` where the row is not whole, a template names no foreign
/// key, or the row has no field of that name.
pub fn expand_row(row: &Target, dependents: &Vec<Transformation>) -> (block: Result<
    Vec<Transformation>,
    EngineError,
>)
    ensures
        row_expandable(row@, dependents.deep_view()) ==> block is Ok && block->Ok_0.deep_view()
            == row_dependents(row@, dependents.deep_view()),
        !row_expandable(row@, dependents.deep_view()) ==> block is Err && block->Err_0@
            == ErrorView::InvalidInput(MISSING_FIELD@),
{
    if !row.is_whole() {
        return Err(EngineError::invalid_input(MISSING_FIELD));
    }
    let mut block: Vec<Transformation> = Vec::new();
    let mut d: usize = 0;
    while d < dependents.len()
        invariant
            d <= dependents.len(),
            row@.wf(),
            block.len() == d,
            forall|j: int|
                0 <= j < d ==> {
                    &&& (#[trigger] dependents.deep_view()[j]).foreign_key is Some
                    &&& row@.foreign_key(dependents.deep_view()[j].foreign_key->0) is Some
                },
            forall|j: int|
                0 <= j < d ==> block@[j]@ == dependent_for(row@, dependents.deep_view()[j]),
        decreases dependents.len() - d,
    {
        let template = &dependents[d];
        assert(dependents.deep_view()[d as int] == template@);
        let name = match &template.foreign_key {
            Some(name) => name,
            None => { return Err(EngineError::invalid_input(MISSING_FIELD)); },
        };
        let key = match row.foreign_key(name.as_str()) {
            Some(key) => key,
            None => { return Err(EngineError::invalid_input(MISSING_FIELD)); },
        };
        proof {
            lemma_found_field_is_complete(row@, name@);
        }
        let predicate = key.equation();
        block.push(
            Transformation {
                transform_type: copy_text(&template.transform_type),
                table_name: copy_text(&template.table_name),
                predicate,
                foreign_key: copy_text(&template.foreign_key),
                changes: None,
            },
        );
        d = d + 1;
    }
    assert(block.deep_view() =~= row_dependents(row@, dependents.deep_view()));
    Ok(block)
}

/// The plan for the owner rows that were found: every transformation of a
/// dependent row, then every transformation of an owner row;
/// `MISSING_FIELD` where a row cannot be expanded.
pub fn expand(owner: &Transformation, dependents: &Vec<Transformation>, rows: &Vec<Target>) -> (plan:
    Result<Vec<Transformation>, EngineError>)
    ensures
        expandable(rows.deep_view(), dependents.deep_view()) ==> plan is Ok
            && plan->Ok_0.deep_view() == expansion(
            rows.deep_view(),
            owner@,
            dependents.deep_view(),
        ),
        !expandable(rows.deep_view(), dependents.deep_view()) ==> plan is Err && plan->Err_0@
            == ErrorView::InvalidInput(MISSING_FIELD@),
{
    let mut plan: Vec<Transformation> = Vec::new();
    let mut owners: Vec<Transformation> = Vec::new();
    let mut r: usize = 0;
    while r < rows.len()
        invariant
            r <= rows.len(),
            owners.len() == r,
            forall|j: int|
                0 <= j < r ==> row_expandable(#[trigger] rows.deep_view()[j], dependents.deep_view()),
            forall|j: int| 0 <= j < r ==> owners@[j]@ == owner_for(rows.deep_view()[j], owner@),
            plan.deep_view() == dependents_block(
                rows.deep_view().take(r as int),
                dependents.deep_view(),
            ),
        decreases rows.len() - r,
    {
        let row = &rows[r];
        assert(rows.deep_view()[r as int] == row@);
        let ghost upto = rows.deep_view().take(r + 1);
        assert(upto.drop_last() =~= rows.deep_view().take(r as int));
        assert(upto.last() == row@);
        let mut block = match expand_row(row, dependents) {
            Ok(block) => block,
            Err(error) => { return Err(error); },
        };
        let key = row.primary_key().unwrap();
        let predicate = key.equation();
        owners.push(
            Transformation {
                transform_type: copy_text(&owner.transform_type),
                table_name: copy_text(&owner.table_name),
                predicate,
                foreign_key: copy_text(&owner.foreign_key),
                changes: copy_text(&owner.changes),
            },
        );
        let ghost before = plan.deep_view();
        let ghost added = block.deep_view();
        plan.append(&mut block);
        assert(plan.deep_view() =~= before + added);
        r = r + 1;
    }
    assert(rows.deep_view().take(rows.len() as int) =~= rows.deep_view());
    assert(owners.deep_view() =~= owners_block(rows.deep_view(), owner@));
    let ghost before = plan.deep_view();
    let ghost added = owners.deep_view();
    plan.append(&mut owners);
    assert(plan.deep_view() =~= before + added);
    Ok(plan)
}

} // verus!
