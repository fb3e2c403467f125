//! The target accessor: reads the columns of a table and snapshots the rows
//! that transformations are about to touch.
//!
//! The accessor decides which statement to run next and turns the store's
//! answers into schemas and row snapshots; the caller runs the statements.

use vstd::prelude::*;
use vstd::string::*;
use crate::clock::{is_notation_of, is_writable, local_time, Moment, SHORTEST_NOTATION};
use crate::error::{EngineError, ErrorView, BAD_SELECTION, MISSING_FIELD, NO_MATCH, SHAPE_MISMATCH};
use crate::models::target::{Field, FieldView, Target, TargetView};
use crate::models::transformation::{copy_transformations, Transformation, TransformationView};
use crate::statements::{describe_statement, describe_text, select_statement, select_text};
use crate::text::{contains, contains_text, decimal, decimal_text, same_text};

verus! {

/// What kind of value a column holds.
#[derive(Clone, Copy, Debug, PartialEq, Eq, Structural)]
pub enum SemanticType {
    /// Character data.
    Text,
    /// Whole numbers.
    Integer,
    /// Points in time.
    Timestamp,
    /// Anything else; rows with such a column cannot be snapshotted.
    Unsupported,
}

/// The kind of value that a column of the given store type holds: text where
/// the type's name holds "varchar", else integer where it holds "int", else
/// timestamp where it holds "time".
pub open spec fn semantic_type_of_text(column_type: Seq<char>) -> SemanticType {
    if contains_text(column_type, "varchar"@) {
        SemanticType::Text
    } else if contains_text(column_type, "int"@) {
        SemanticType::Integer
    } else if contains_text(column_type, "time"@) {
        SemanticType::Timestamp
    } else {
        SemanticType::Unsupported
    }
}

/// The kind of value that a column of the given store type holds.
pub fn semantic_type_of(column_type: &str) -> (kind: SemanticType)
    ensures
        kind == semantic_type_of_text(column_type@),
{
    if contains(column_type, "varchar") {
        SemanticType::Text
    } else if contains(column_type, "int") {
        SemanticType::Integer
    } else if contains(column_type, "time") {
        SemanticType::Timestamp
    } else {
        SemanticType::Unsupported
    }
}

/// One line of the store's answer to a describe statement: the column's
/// name, the store's name for its type, and its key marker ("PRI" for a
/// column of the primary key).
#[derive(Debug)]
pub struct ColumnDescription {
    pub field: String,
    pub column_type: String,
    pub key: String,
}

/// The mathematical value of a [`ColumnDescription`].
pub struct ColumnDescriptionView {
    pub field: Seq<char>,
    pub column_type: Seq<char>,
    pub key: Seq<char>,
}

impl View for ColumnDescription {
    type V = ColumnDescriptionView;

    open spec fn view(&self) -> ColumnDescriptionView {
        ColumnDescriptionView { field: self.field@, column_type: self.column_type@, key: self.key@ }
    }
}

impl DeepView for ColumnDescription {
    type V = ColumnDescriptionView;

    open spec fn deep_view(&self) -> ColumnDescriptionView {
        self.view()
    }
}

/// A column of a table.
#[derive(Debug)]
pub struct Column {
    pub name: String,
    pub column_type: String,
    pub semantic_type: SemanticType,
    pub is_primary_key: bool,
}

/// The mathematical value of a [`Column`].
pub struct ColumnView {
    pub name: Seq<char>,
    pub column_type: Seq<char>,
    pub semantic_type: SemanticType,
    pub is_primary_key: bool,
}

impl View for Column {
    type V = ColumnView;

    open spec fn view(&self) -> ColumnView {
        ColumnView {
            name: self.name@,
            column_type: self.column_type@,
            semantic_type: self.semantic_type,
            is_primary_key: self.is_primary_key,
        }
    }
}

impl DeepView for Column {
    type V = ColumnView;

    open spec fn deep_view(&self) -> ColumnView {
        self.view()
    }
}

impl Clone for Column {
    fn clone(&self) -> (copy: Column)
        ensures
            copy@ == self@,
    {
        Column {
            name: self.name.clone(),
            column_type: self.column_type.clone(),
            semantic_type: self.semantic_type,
            is_primary_key: self.is_primary_key,
        }
    }
}

/// A copy of a list of columns.
pub fn copy_columns(list: &Vec<Column>) -> (copy: Vec<Column>)
    ensures
        copy.deep_view() == list.deep_view(),
{
    let mut copy: Vec<Column> = Vec::new();
    let mut i: usize = 0;
    while i < list.len()
        invariant
            i <= list.len(),
            copy.len() == i,
            forall|j: int| 0 <= j < i ==> copy@[j]@ == list@[j]@,
        decreases list.len() - i,
    {
        copy.push(list[i].clone());
        i = i + 1;
    }
    assert(copy.deep_view() =~= list.deep_view());
    copy
}

/// The column that a line of a describe answer stands for.
pub open spec fn column_of(line: ColumnDescriptionView) -> ColumnView {
    ColumnView {
        name: line.field,
        column_type: line.column_type,
        semantic_type: semantic_type_of_text(line.column_type),
        is_primary_key: line.key == "PRI"@,
    }
}

/// The schema that a describe answer stands for: one column for each line,
/// in order.
pub open spec fn schema_of(listing: Seq<ColumnDescriptionView>) -> Seq<ColumnView> {
    Seq::new(listing.len(), |i: int| column_of(listing[i]))
}

/// The schema that a describe answer stands for.
pub fn describe_schema(listing: &Vec<ColumnDescription>) -> (schema: Vec<Column>)
    ensures
        schema.deep_view() == schema_of(listing.deep_view()),
{
    let mut schema: Vec<Column> = Vec::new();
    let mut i: usize = 0;
    while i < listing.len()
        invariant
            i <= listing.len(),
            schema.len() == i,
            forall|j: int| 0 <= j < i ==> schema@[j]@ == column_of(listing@[j]@),
        decreases listing.len() - i,
    {
        let line = &listing[i];
        schema.push(
            Column {
                name: line.field.clone(),
                column_type: line.column_type.clone(),
                semantic_type: semantic_type_of(line.column_type.as_str()),
                is_primary_key: same_text(line.key.as_str(), "PRI"),
            },
        );
        i = i + 1;
    }
    assert(schema.deep_view() =~= schema_of(listing.deep_view()));
    schema
}

/// The position of the primary key among the columns: that of the last
/// column marked as primary key, 0 where none is marked.
pub open spec fn primary_key_position(schema: Seq<ColumnView>) -> nat
    decreases schema.len(),
{
    if schema.len() == 0 {
        0
    } else if schema.last().is_primary_key {
        (schema.len() - 1) as nat
    } else {
        primary_key_position(schema.drop_last())
    }
}

/// The primary key's position points at a column wherever there is one.
pub proof fn lemma_primary_key_position_in_range(schema: Seq<ColumnView>)
    requires
        schema.len() > 0,
    ensures
        primary_key_position(schema) < schema.len(),
    decreases schema.len(),
{
    if !schema.last().is_primary_key {
        if schema.len() > 1 {
            lemma_primary_key_position_in_range(schema.drop_last());
        } else {
            assert(primary_key_position(schema.drop_last()) == 0);
        }
    }
}

/// The position of the primary key among the columns.
pub fn primary_key_index(schema: &Vec<Column>) -> (index: usize)
    ensures
        index == primary_key_position(schema.deep_view()),
{
    let mut index: usize = 0;
    let mut i: usize = 0;
    while i < schema.len()
        invariant
            i <= schema.len(),
            index == primary_key_position(schema.deep_view().take(i as int)),
        decreases schema.len() - i,
    {
        assert(schema.deep_view().take(i + 1).drop_last() =~= schema.deep_view().take(i as int));
        if schema[i].is_primary_key {
            index = i;
        }
        i = i + 1;
    }
    assert(schema.deep_view().take(schema.len() as int) =~= schema.deep_view());
    index
}

/// The position of the first column of an unsupported type at or after
/// `from`, if there is one.
pub open spec fn first_unsupported_from(schema: Seq<ColumnView>, from: int) -> Option<int>
    decreases schema.len() - from,
{
    if from < 0 || from >= schema.len() {
        None
    } else if schema[from].semantic_type == SemanticType::Unsupported {
        Some(from)
    } else {
        first_unsupported_from(schema, from + 1)
    }
}

/// The position of the first column of an unsupported type, if there is one.
pub open spec fn first_unsupported(schema: Seq<ColumnView>) -> Option<int> {
    first_unsupported_from(schema, 0)
}

/// The position of the first column of an unsupported type, if there is one.
pub fn find_unsupported(schema: &Vec<Column>) -> (found: Option<usize>)
    ensures
        match found {
            Some(at) => at < schema.len() && first_unsupported(schema.deep_view()) == Some(
                at as int,
            ),
            None => first_unsupported(schema.deep_view()) is None,
        },
{
    let mut i: usize = 0;
    while i < schema.len()
        invariant
            i <= schema.len(),
            first_unsupported(schema.deep_view()) == first_unsupported_from(
                schema.deep_view(),
                i as int,
            ),
        decreases schema.len() - i,
    {
        if schema[i].semantic_type == SemanticType::Unsupported {
            return Some(i);
        }
        i = i + 1;
    }
    None
}

/// One value of a row as the store handed it out.
#[derive(Debug)]
pub enum Cell {
    /// Character data, as it is.
    Text(String),
    /// A whole number.
    Integer(i64),
    /// A point in time, written in the store's local notation.
    Timestamp(String),
}

/// The mathematical value of a [`Cell`].
pub enum CellView {
    Text(Seq<char>),
    Integer(i64),
    Timestamp(Seq<char>),
}

impl View for Cell {
    type V = CellView;

    open spec fn view(&self) -> CellView {
        match self {
            Cell::Text(s) => CellView::Text(s@),
            Cell::Integer(v) => CellView::Integer(*v),
            Cell::Timestamp(s) => CellView::Timestamp(s@),
        }
    }
}

impl DeepView for Cell {
    type V = CellView;

    open spec fn deep_view(&self) -> CellView {
        self.view()
    }
}

impl CellView {
    /// The kind of value that the cell holds.
    pub open spec fn semantic_type(self) -> SemanticType {
        match self {
            CellView::Text(_) => SemanticType::Text,
            CellView::Integer(_) => SemanticType::Integer,
            CellView::Timestamp(_) => SemanticType::Timestamp,
        }
    }

    /// The value written as text: decimal notation for a whole number, the
    /// text itself otherwise.
    pub open spec fn display(self) -> Seq<char> {
        match self {
            CellView::Text(s) => s,
            CellView::Integer(v) => decimal_text(v as int),
            CellView::Timestamp(s) => s,
        }
    }
}

impl Cell {
    /// The kind of value that the cell holds.
    pub fn semantic_type(&self) -> (kind: SemanticType)
        ensures
            kind == self@.semantic_type(),
    {
        match self {
            Cell::Text(_) => SemanticType::Text,
            Cell::Integer(_) => SemanticType::Integer,
            Cell::Timestamp(_) => SemanticType::Timestamp,
        }
    }

    /// The value written as text.
    pub fn display(&self) -> (shown: String)
        ensures
            shown@ == self@.display(),
    {
        match self {
            Cell::Text(s) => s.clone(),
            Cell::Integer(v) => decimal(*v),
            Cell::Timestamp(s) => s.clone(),
        }
    }
}

/// One value of a row as it was decoded from the store's answer: a point
/// in time is still a moment, not yet text.
#[derive(Debug)]
pub enum RawCell {
    /// Character data, as it is.
    Text(String),
    /// A whole number.
    Integer(i64),
    /// A point in time.
    Timestamp(Moment),
}

/// The mathematical value of a [`RawCell`].
pub enum RawCellView {
    Text(Seq<char>),
    Integer(i64),
    Timestamp(Moment),
}

impl View for RawCell {
    type V = RawCellView;

    open spec fn view(&self) -> RawCellView {
        match self {
            RawCell::Text(s) => RawCellView::Text(s@),
            RawCell::Integer(v) => RawCellView::Integer(*v),
            RawCell::Timestamp(m) => RawCellView::Timestamp(*m),
        }
    }
}

impl DeepView for RawCell {
    type V = RawCellView;

    open spec fn deep_view(&self) -> RawCellView {
        self.view()
    }
}

/// The cell stands for the decoded value: it holds the same text or the
/// same number, or, where the value is a moment, the notation of that moment
/// at an offset that a zone can have.
pub open spec fn stands_for(cell: CellView, raw: RawCellView) -> bool {
    match raw {
        RawCellView::Text(s) => cell == CellView::Text(s),
        RawCellView::Integer(v) => cell == CellView::Integer(v),
        RawCellView::Timestamp(moment) => cell matches CellView::Timestamp(text)
            && is_notation_of(text, moment) && text.len() >= SHORTEST_NOTATION,
    }
}

/// The decoded value can be shown: it is text, a number, or a moment that
/// can be written.
pub open spec fn can_be_shown(raw: RawCellView) -> bool {
    raw matches RawCellView::Timestamp(moment) ==> is_writable(moment)
}

/// Every value of the decoded row can be shown.
pub open spec fn row_can_be_shown(raw: Seq<RawCellView>) -> bool {
    forall|i: int| 0 <= i < raw.len() ==> can_be_shown(#[trigger] raw[i])
}

/// Every value of the decoded rows can be shown.
pub open spec fn rows_can_be_shown(raw: Seq<Seq<RawCellView>>) -> bool {
    forall|r: int| 0 <= r < raw.len() ==> row_can_be_shown(#[trigger] raw[r])
}

/// The cells stand for the decoded values, one for one.
pub open spec fn row_stands_for(cells: Seq<CellView>, raw: Seq<RawCellView>) -> bool {
    &&& cells.len() == raw.len()
    &&& forall|i: int| 0 <= i < raw.len() ==> stands_for(#[trigger] cells[i], raw[i])
}

/// The rows stand for the decoded rows, one for one.
pub open spec fn rows_stand_for(rows: Seq<Seq<CellView>>, raw: Seq<Seq<RawCellView>>) -> bool {
    &&& rows.len() == raw.len()
    &&& forall|r: int| 0 <= r < raw.len() ==> row_stands_for(#[trigger] rows[r], raw[r])
}

/// The cell of a decoded value: text and numbers as they are, a moment
/// written as the local date and time with its offset from UTC. There is a
/// cell if and only if the value can be shown. The text of a moment is the
/// notation of that moment at the offset of the machine's zone; which offset
/// that is depends on the machine.
pub fn show_cell(raw: &RawCell) -> (cell: Option<Cell>)
    ensures
        cell is Some <==> can_be_shown(raw@),
        cell matches Some(c) ==> stands_for(c@, raw@),
{
    match raw {
        RawCell::Text(s) => Some(Cell::Text(s.clone())),
        RawCell::Integer(v) => Some(Cell::Integer(*v)),
        RawCell::Timestamp(m) => match local_time(*m) {
            Some(text) => Some(Cell::Timestamp(text)),
            None => None,
        },
    }
}

/// The cells of a decoded row, one for one. There are cells if and only if
/// every value of the row can be shown.
pub fn show_row(raw: &Vec<RawCell>) -> (cells: Option<Vec<Cell>>)
    ensures
        cells is Some <==> row_can_be_shown(raw.deep_view()),
        cells matches Some(c) ==> row_stands_for(c.deep_view(), raw.deep_view()),
{
    let mut cells: Vec<Cell> = Vec::new();
    let mut i: usize = 0;
    while i < raw.len()
        invariant
            i <= raw.len(),
            cells.len() == i,
            forall|j: int| 0 <= j < i ==> can_be_shown(#[trigger] raw.deep_view()[j]),
            forall|j: int| 0 <= j < i ==> stands_for(#[trigger] cells@[j]@, raw@[j]@),
        decreases raw.len() - i,
    {
        assert(raw.deep_view()[i as int] == raw@[i as int]@);
        match show_cell(&raw[i]) {
            Some(cell) => {
                cells.push(cell);
            },
            None => {
                assert(!can_be_shown(raw.deep_view()[i as int]));
                return None;
            },
        }
        i = i + 1;
    }
    assert forall|j: int| 0 <= j < raw.len() implies stands_for(
        #[trigger] cells.deep_view()[j],
        raw.deep_view()[j],
    ) by {
        assert(stands_for(cells@[j]@, raw@[j]@));
    }
    Some(cells)
}

/// The cells of decoded rows, one for one. There are cells if and only if
/// every value of every row can be shown.
pub fn show_rows(raw: &Vec<Vec<RawCell>>) -> (rows: Option<Vec<Vec<Cell>>>)
    ensures
        rows is Some <==> rows_can_be_shown(raw.deep_view()),
        rows matches Some(r) ==> rows_stand_for(r.deep_view(), raw.deep_view()),
{
    let mut rows: Vec<Vec<Cell>> = Vec::new();
    let mut r: usize = 0;
    while r < raw.len()
        invariant
            r <= raw.len(),
            rows.len() == r,
            forall|j: int| 0 <= j < r ==> row_can_be_shown(#[trigger] raw.deep_view()[j]),
            forall|j: int|
                0 <= j < r ==> row_stands_for(
                    (#[trigger] rows@[j]).deep_view(),
                    raw@[j].deep_view(),
                ),
        decreases raw.len() - r,
    {
        assert(raw.deep_view()[r as int] == raw@[r as int].deep_view());
        match show_row(&raw[r]) {
            Some(cells) => {
                rows.push(cells);
            },
            None => {
                assert(!row_can_be_shown(raw.deep_view()[r as int]));
                return None;
            },
        }
        r = r + 1;
    }
    assert forall|j: int| 0 <= j < raw.len() implies row_stands_for(
        #[trigger] rows.deep_view()[j],
        raw.deep_view()[j],
    ) by {
        assert(row_stands_for(rows@[j].deep_view(), raw@[j].deep_view()));
    }
    Some(rows)
}

/// The schema has at least one column, and the row has one cell for each
/// column, each of the column's kind.
pub open spec fn row_fits(schema: Seq<ColumnView>, row: Seq<CellView>) -> bool {
    &&& schema.len() > 0
    &&& row.len() == schema.len()
    &&& forall|i: int|
        0 <= i < schema.len() ==> (#[trigger] row[i]).semantic_type() == schema[i].semantic_type
}

/// The field that a cell of a column stands for.
pub open spec fn field_of(column: ColumnView, cell: CellView) -> FieldView {
    FieldView {
        field_name: Some(column.name),
        field_type: Some(column.column_type),
        field_value: Some(cell.display()),
    }
}

/// The snapshot of a row: one field for each column, in the order of the
/// schema, and the position of the primary key.
pub open spec fn target_of(schema: Seq<ColumnView>, row: Seq<CellView>) -> TargetView {
    TargetView {
        primary_key_index: Some(primary_key_position(schema) as usize),
        fields: Some(Seq::new(schema.len(), |i: int| field_of(schema[i], row[i]))),
    }
}

/// The snapshots of the rows, in order.
pub open spec fn targets_of(schema: Seq<ColumnView>, rows: Seq<Seq<CellView>>) -> Seq<TargetView> {
    Seq::new(rows.len(), |r: int| target_of(schema, rows[r]))
}

/// Every snapshot is whole.
pub open spec fn all_whole(targets: Seq<TargetView>) -> bool {
    forall|k: int| 0 <= k < targets.len() ==> (#[trigger] targets[k]).wf()
}

/// Every row fits the schema.
pub open spec fn rows_fit(schema: Seq<ColumnView>, rows: Seq<Seq<CellView>>) -> bool {
    forall|r: int| 0 <= r < rows.len() ==> row_fits(schema, #[trigger] rows[r])
}

/// The snapshot of a row that fits a schema of at least one column is whole:
/// name, type and value of every field are given, and the primary key is one
/// of the fields.
pub proof fn lemma_snapshot_is_whole(schema: Seq<ColumnView>, row: Seq<CellView>)
    requires
        schema.len() > 0,
        schema.len() <= usize::MAX,
    ensures
        target_of(schema, row).wf(),
{
    lemma_primary_key_position_in_range(schema);
}

/// Whether the schema has at least one column and the row has one cell for
/// each column, each of the column's kind.
pub fn check_row(schema: &Vec<Column>, row: &Vec<Cell>) -> (fits: bool)
    ensures
        fits == row_fits(schema.deep_view(), row.deep_view()),
{
    if schema.len() == 0 || row.len() != schema.len() {
        return false;
    }
    let mut i: usize = 0;
    while i < schema.len()
        invariant
            i <= schema.len(),
            row.len() == schema.len(),
            forall|j: int|
                0 <= j < i ==> (#[trigger] row.deep_view()[j]).semantic_type()
                    == schema.deep_view()[j].semantic_type,
        decreases schema.len() - i,
    {
        if row[i].semantic_type() != schema[i].semantic_type {
            assert(row.deep_view()[i as int].semantic_type() != schema.deep_view()[i as int].semantic_type);
            return false;
        }
        i = i + 1;
    }
    true
}

/// The snapshot of a row, which must fit the schema; `SHAPE_MISMATCH`
/// otherwise.
pub fn snapshot_row(schema: &Vec<Column>, row: &Vec<Cell>) -> (snapshot: Result<Target, EngineError>)
    ensures
        row_fits(schema.deep_view(), row.deep_view()) ==> snapshot is Ok && snapshot->Ok_0@
            == target_of(schema.deep_view(), row.deep_view()),
        snapshot matches Ok(target) ==> target@.wf(),
        !row_fits(schema.deep_view(), row.deep_view()) ==> snapshot is Err && snapshot->Err_0@
            == ErrorView::InvalidInput(SHAPE_MISMATCH@),
{
    if !check_row(schema, row) {
        return Err(EngineError::invalid_input(SHAPE_MISMATCH));
    }
    let mut fields: Vec<Field> = Vec::new();
    let mut i: usize = 0;
    while i < schema.len()
        invariant
            i <= schema.len(),
            row.len() == schema.len(),
            fields.len() == i,
            forall|j: int|
                0 <= j < i ==> fields@[j]@ == field_of(schema.deep_view()[j], row.deep_view()[j]),
        decreases schema.len() - i,
    {
        fields.push(
            Field {
                field_name: Some(schema[i].name.clone()),
                field_type: Some(schema[i].column_type.clone()),
                field_value: Some(row[i].display()),
            },
        );
        i = i + 1;
    }
    let target = Target { primary_key_index: Some(primary_key_index(schema)), fields: Some(fields) };
    assert(target@.fields->0 =~= target_of(schema.deep_view(), row.deep_view()).fields->0);
    proof {
        lemma_snapshot_is_whole(schema.deep_view(), row.deep_view());
    }
    Ok(target)
}

/// The snapshots of the rows, all of which must fit the schema;
/// `SHAPE_MISMATCH` otherwise.
pub fn snapshot_rows(schema: &Vec<Column>, rows: &Vec<Vec<Cell>>) -> (snapshots: Result<
    Vec<Target>,
    EngineError,
>)
    ensures
        rows_fit(schema.deep_view(), rows.deep_view()) ==> snapshots is Ok
            && snapshots->Ok_0.deep_view() == targets_of(schema.deep_view(), rows.deep_view()),
        snapshots matches Ok(targets) ==> all_whole(targets.deep_view()),
        !rows_fit(schema.deep_view(), rows.deep_view()) ==> snapshots is Err
            && snapshots->Err_0@ == ErrorView::InvalidInput(SHAPE_MISMATCH@),
{
    let mut targets: Vec<Target> = Vec::new();
    let mut r: usize = 0;
    while r < rows.len()
        invariant
            r <= rows.len(),
            targets.len() == r,
            forall|j: int| 0 <= j < r ==> row_fits(schema.deep_view(), #[trigger] rows.deep_view()[j]),
            forall|j: int|
                0 <= j < r ==> targets@[j]@ == target_of(schema.deep_view(), rows.deep_view()[j]),
            forall|j: int| 0 <= j < r ==> (#[trigger] targets@[j])@.wf(),
        decreases rows.len() - r,
    {
        assert(rows.deep_view()[r as int] == rows@[r as int].deep_view());
        match snapshot_row(schema, &rows[r]) {
            Ok(target) => {
                targets.push(target);
            },
            Err(error) => {
                return Err(error);
            },
        }
        r = r + 1;
    }
    assert(targets.deep_view() =~= targets_of(schema.deep_view(), rows.deep_view()));
    assert forall|k: int| 0 <= k < targets.len() implies (#[trigger] targets.deep_view()[k]).wf() by {
        assert(targets@[k]@.wf());
    }
    Ok(targets)
}

/// A copy of a list of row snapshots.
pub fn copy_targets(list: &Vec<Target>) -> (copy: Vec<Target>)
    ensures
        copy.deep_view() == list.deep_view(),
{
    let mut copy: Vec<Target> = Vec::new();
    let mut i: usize = 0;
    while i < list.len()
        invariant
            i <= list.len(),
            copy.len() == i,
            forall|j: int| 0 <= j < i ==> copy@[j]@ == list@[j]@,
        decreases list.len() - i,
    {
        copy.push(list[i].clone());
        i = i + 1;
    }
    assert(copy.deep_view() =~= list.deep_view());
    copy
}

/// A copy of the snapshots of a batch.
pub fn copy_snapshots(list: &Vec<Vec<Target>>) -> (copy: Vec<Vec<Target>>)
    ensures
        copy.deep_view() == list.deep_view(),
{
    let mut copy: Vec<Vec<Target>> = Vec::new();
    let mut i: usize = 0;
    while i < list.len()
        invariant
            i <= list.len(),
            copy.len() == i,
            forall|j: int| 0 <= j < i ==> copy@[j].deep_view() == list@[j].deep_view(),
        decreases list.len() - i,
    {
        copy.push(copy_targets(&list[i]));
        i = i + 1;
    }
    assert(copy.deep_view() =~= list.deep_view());
    copy
}

/// What the store answered to a statement of the accessor.
#[derive(Debug)]
pub enum Answer {
    /// The columns of a table, in the table's order.
    Listing(Vec<ColumnDescription>),
    /// The rows that a selection found, each with its cells in the order of
    /// the columns.
    Rows(Vec<Vec<Cell>>),
    /// The store failed; holds its message.
    Failed(String),
}

/// The mathematical value of an [`Answer`].
pub enum AnswerView {
    Listing(Seq<ColumnDescriptionView>),
    Rows(Seq<Seq<CellView>>),
    Failed(Seq<char>),
}

impl View for Answer {
    type V = AnswerView;

    open spec fn view(&self) -> AnswerView {
        match self {
            Answer::Listing(listing) => AnswerView::Listing(listing.deep_view()),
            Answer::Rows(rows) => AnswerView::Rows(rows.deep_view()),
            Answer::Failed(message) => AnswerView::Failed(message@),
        }
    }
}

/// What the accessor wants done next.
#[derive(Debug)]
pub enum Request {
    /// Run this describe statement and answer with the listing.
    Describe(String),
    /// Run this selection and answer with the rows, reading each cell as the
    /// kind of its column.
    Select { statement: String, columns: Vec<Column> },
    /// All rows are read; holds, for each transformation in order, the
    /// snapshots of the rows that it selects.
    Finished(Vec<Vec<Target>>),
    /// Reading failed with this error; nothing more is to be run.
    Aborted(EngineError),
}

/// The mathematical value of a [`Request`].
pub enum RequestView {
    Describe(Seq<char>),
    Select { statement: Seq<char>, columns: Seq<ColumnView> },
    Finished(Seq<Seq<TargetView>>),
    Aborted(ErrorView),
}

impl View for Request {
    type V = RequestView;

    open spec fn view(&self) -> RequestView {
        match self {
            Request::Describe(statement) => RequestView::Describe(statement@),
            Request::Select { statement, columns } => RequestView::Select {
                statement: statement@,
                columns: columns.deep_view(),
            },
            Request::Finished(snapshots) => RequestView::Finished(snapshots.deep_view()),
            Request::Aborted(error) => RequestView::Aborted(error@),
        }
    }
}

/// The state of a reading of the rows of a batch.
pub struct SnapshotState {
    /// The transformations whose rows are read, in order.
    pub batch: Seq<TransformationView>,
    /// The snapshots gathered so far: one list for each transformation done.
    pub gathered: Seq<Seq<TargetView>>,
    /// The schema of the current transformation's table, once it is known.
    pub schema: Option<Seq<ColumnView>>,
    /// The error that ended the reading, if one did.
    pub failure: Option<ErrorView>,
}

impl SnapshotState {
    /// The state before anything is read.
    pub open spec fn initial(batch: Seq<TransformationView>) -> SnapshotState {
        SnapshotState { batch, gathered: Seq::empty(), schema: None, failure: None }
    }

    /// What the accessor wants done in this state: for each transformation
    /// in turn, first the columns of its table, then the rows that meet its
    /// predicate. A transformation without table or predicate, and a table
    /// with a column of an unsupported type, end the reading.
    pub open spec fn next(self) -> RequestView {
        if self.failure is Some {
            RequestView::Aborted(self.failure->0)
        } else if self.gathered.len() >= self.batch.len() {
            RequestView::Finished(self.gathered)
        } else {
            let t = self.batch[self.gathered.len() as int];
            if t.table_name is None || t.predicate is None {
                RequestView::Aborted(ErrorView::InvalidInput(MISSING_FIELD@))
            } else {
                match self.schema {
                    None => RequestView::Describe(describe_text(t.table_name->0)),
                    Some(columns) => match first_unsupported(columns) {
                        Some(at) => RequestView::Aborted(
                            ErrorView::Unsupported(columns[at].column_type),
                        ),
                        None => RequestView::Select {
                            statement: select_text(t.table_name->0, t.predicate->0),
                            columns,
                        },
                    },
                }
            }
        }
    }

    /// The state after the store's answer to what was asked. A listing
    /// answers a describe statement and gives the schema; a listing of no
    /// column is a failure (`SHAPE_MISMATCH`). Rows answer a
    /// selection: no row at all is a failure (`NO_MATCH`), rows that do not
    /// fit the schema are one (`SHAPE_MISMATCH`), and rows that fit are
    /// snapshotted. A failure of the store ends the reading: handed on as it
    /// is for a describe statement, as `BAD_SELECTION` for a selection. An
    /// answer of another kind than was asked for changes nothing.
    pub open spec fn after(self, answer: AnswerView) -> SnapshotState {
        match self.next() {
            RequestView::Describe(_) => match answer {
                AnswerView::Listing(listing) => if listing.len() == 0 {
                    SnapshotState {
                        failure: Some(ErrorView::InvalidInput(SHAPE_MISMATCH@)),
                        ..self
                    }
                } else {
                    SnapshotState { schema: Some(schema_of(listing)), ..self }
                },
                AnswerView::Failed(message) => SnapshotState {
                    failure: Some(ErrorView::Store(message)),
                    ..self
                },
                AnswerView::Rows(_) => self,
            },
            RequestView::Select { statement, columns } => match answer {
                AnswerView::Rows(rows) => if rows.len() == 0 {
                    SnapshotState { failure: Some(ErrorView::OperationError(NO_MATCH@)), ..self }
                } else if rows_fit(columns, rows) {
                    SnapshotState {
                        gathered: self.gathered.push(targets_of(columns, rows)),
                        schema: None,
                        ..self
                    }
                } else {
                    SnapshotState {
                        failure: Some(ErrorView::InvalidInput(SHAPE_MISMATCH@)),
                        ..self
                    }
                },
                AnswerView::Failed(_) => SnapshotState {
                    failure: Some(ErrorView::InvalidInput(BAD_SELECTION@)),
                    ..self
                },
                AnswerView::Listing(_) => self,
            },
            _ => self,
        }
    }
}

impl SnapshotState {
    /// The state can be reached by a reading: snapshots are gathered for no
    /// more transformations than the batch has, for each of them at least
    /// one row was found, every snapshot is whole, and a schema that is known
    /// has at least one column.
    pub open spec fn wf(self) -> bool {
        &&& self.gathered.len() <= self.batch.len()
        &&& forall|i: int| 0 <= i < self.gathered.len() ==> (#[trigger] self.gathered[i]).len() >= 1
        &&& forall|i: int| 0 <= i < self.gathered.len() ==> all_whole(#[trigger] self.gathered[i])
        &&& self.schema matches Some(columns) ==> 0 < columns.len() <= usize::MAX
    }
}

/// Every state of a reading can be reached: the first state can, and every
/// answer leads from a state that can to one that can. A listing is as long
/// as a vector can be at most.
pub proof fn lemma_reading_stays_reachable(state: SnapshotState, answer: AnswerView)
    requires
        state.wf(),
        answer matches AnswerView::Listing(listing) ==> listing.len() <= usize::MAX,
    ensures
        SnapshotState::initial(state.batch).wf(),
        state.after(answer).wf(),
        state.after(answer).batch == state.batch,
{
    let next = state.after(answer);
    assert forall|i: int| 0 <= i < next.gathered.len() implies (#[trigger] next.gathered[i]).len()
        >= 1 && all_whole(next.gathered[i]) by {
        if i < state.gathered.len() {
            assert(next.gathered[i] == state.gathered[i]);
        } else {
            let columns = state.schema->0;
            let targets = next.gathered[i];
            assert forall|k: int| 0 <= k < targets.len() implies (#[trigger] targets[k]).wf() by {
                lemma_snapshot_is_whole(columns, answer->Rows_0[k]);
            }
        }
    }
}

/// A finished reading hands out, for every transformation of the batch, the
/// snapshots of at least one row, and every snapshot is whole: a
/// transformation that selects no row ends the reading with a failure
/// instead, and so does a table without columns.
pub proof fn lemma_finished_reading(state: SnapshotState)
    requires
        state.wf(),
        state.next() is Finished,
    ensures
        state.next()->Finished_0.len() == state.batch.len(),
        forall|i: int|
            0 <= i < state.batch.len() ==> (#[trigger] state.next()->Finished_0[i]).len() >= 1,
        forall|i: int|
            0 <= i < state.batch.len() ==> all_whole(#[trigger] state.next()->Finished_0[i]),
{
}

/// A reading of the rows that the transformations of a batch select.
pub struct Snapshot {
    batch: Vec<Transformation>,
    gathered: Vec<Vec<Target>>,
    schema: Option<Vec<Column>>,
    failure: Option<EngineError>,
}

impl View for Snapshot {
    type V = SnapshotState;

    closed spec fn view(&self) -> SnapshotState {
        SnapshotState {
            batch: self.batch.deep_view(),
            gathered: self.gathered.deep_view(),
            schema: self.schema.deep_view(),
            failure: self.failure.deep_view(),
        }
    }
}

impl Snapshot {
    /// A reading of the rows that `transformations` select.
    pub fn new(transformations: &Vec<Transformation>) -> (reading: Snapshot)
        ensures
            reading@ == SnapshotState::initial(transformations.deep_view()),
    {
        let reading = Snapshot {
            batch: copy_transformations(transformations),
            gathered: Vec::new(),
            schema: None,
            failure: None,
        };
        assert(reading.gathered.deep_view() =~= Seq::<Seq<TargetView>>::empty());
        reading
    }

    /// What is to be done next.
    pub fn next(&self) -> (request: Request)
        ensures
            request@ == self@.next(),
    {
        match &self.failure {
            Some(error) => { return Request::Aborted(error.clone()); },
            None => {},
        }
        if self.gathered.len() >= self.batch.len() {
            return Request::Finished(copy_snapshots(&self.gathered));
        }
        let t = &self.batch[self.gathered.len()];
        let (table, predicate) = match (&t.table_name, &t.predicate) {
            (Some(table), Some(predicate)) => (table, predicate),
            _ => { return Request::Aborted(EngineError::invalid_input(MISSING_FIELD)); },
        };
        match &self.schema {
            None => Request::Describe(describe_statement(table.as_str())),
            Some(columns) => match find_unsupported(columns) {
                Some(at) => Request::Aborted(
                    EngineError::unsupported(columns[at].column_type.as_str()),
                ),
                None => Request::Select {
                    statement: select_statement(table.as_str(), predicate.as_str()),
                    columns: copy_columns(columns),
                },
            },
        }
    }

    /// Takes the store's answer to what `next` asked for.
    pub fn record(&mut self, answer: Answer)
        ensures
            final(self)@ == old(self)@.after(answer@),
    {
        if self.failure.is_some() || self.gathered.len() >= self.batch.len() {
            return ;
        }
        let t = &self.batch[self.gathered.len()];
        if t.table_name.is_none() || t.predicate.is_none() {
            return ;
        }
        match &self.schema {
            None => match answer {
                Answer::Listing(listing) => {
                    if listing.len() == 0 {
                        self.failure = Some(EngineError::invalid_input(SHAPE_MISMATCH));
                    } else {
                        self.schema = Some(describe_schema(&listing));
                    }
                },
                Answer::Failed(message) => {
                    self.failure = Some(EngineError::Store(message));
                },
                Answer::Rows(_) => {},
            },
            Some(columns) => {
                if find_unsupported(columns).is_some() {
                    return ;
                }
                match answer {
                    Answer::Rows(rows) => {
                        if rows.len() == 0 {
                            self.failure = Some(EngineError::operation_error(NO_MATCH));
                        } else {
                            match snapshot_rows(columns, &rows) {
                                Ok(targets) => {
                                    let ghost before = self.gathered.deep_view();
                                    self.gathered.push(targets);
                                    assert(self.gathered.deep_view() =~= before.push(
                                        targets.deep_view(),
                                    ));
                                    self.schema = None;
                                },
                                Err(error) => {
                                    self.failure = Some(error);
                                },
                            }
                        }
                    },
                    Answer::Failed(_) => {
                        self.failure = Some(EngineError::invalid_input(BAD_SELECTION));
                    },
                    Answer::Listing(_) => {},
                }
            },
        }
    }
}

} // verus!
