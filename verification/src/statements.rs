//! The statements that the engine asks the store to run.
//!
//! Table names, conditions and assignments are expressions in the store's
//! own language. They are placed into the statements as they are: nothing is
//! checked or escaped.

use vstd::prelude::*;
use vstd::string::*;

verus! {

/// The statement that deletes the rows of `table` that meet `predicate`.
pub open spec fn delete_text(table: Seq<char>, predicate: Seq<char>) -> Seq<char> {
    "DELETE FROM "@ + table + " WHERE "@ + predicate
}

/// The statement that makes `assignments` in the rows of `table` that meet
/// `predicate`.
pub open spec fn update_text(table: Seq<char>, assignments: Seq<char>, predicate: Seq<char>) -> Seq<
    char,
> {
    "UPDATE "@ + table + " SET "@ + assignments + " WHERE "@ + predicate
}

/// The statement that inserts into `table` a row of the given values, one for
/// each column in the table's order.
pub open spec fn insert_row_text(table: Seq<char>, values: Seq<char>) -> Seq<char> {
    "INSERT INTO "@ + table + " VALUES ("@ + values + ")"@
}

/// The statement that inserts into `table` a row with the given values in the
/// given columns.
pub open spec fn insert_columns_text(table: Seq<char>, columns: Seq<char>, values: Seq<char>) -> Seq<
    char,
> {
    "INSERT INTO "@ + table + "("@ + columns + ") VALUES("@ + values + ")"@
}

/// The statement that lists the columns of `table`.
pub open spec fn describe_text(table: Seq<char>) -> Seq<char> {
    "DESC "@ + table
}

/// The statement that reads the rows of `table` that meet `predicate`.
pub open spec fn select_text(table: Seq<char>, predicate: Seq<char>) -> Seq<char> {
    "SELECT * FROM "@ + table + " WHERE "@ + predicate
}

/// The statement that deletes the rows of `table` that meet `predicate`.
pub fn delete_statement(table: &str, predicate: &str) -> (statement: String)
    ensures
        statement@ == delete_text(table@, predicate@),
{
    let mut statement = String::from_str("DELETE FROM ");
    statement.append(table);
    statement.append(" WHERE ");
    statement.append(predicate);
    statement
}

/// The statement that makes `assignments` in the rows of `table` that meet
/// `predicate`.
pub fn update_statement(table: &str, assignments: &str, predicate: &str) -> (statement: String)
    ensures
        statement@ == update_text(table@, assignments@, predicate@),
{
    let mut statement = String::from_str("UPDATE ");
    statement.append(table);
    statement.append(" SET ");
    statement.append(assignments);
    statement.append(" WHERE ");
    statement.append(predicate);
    statement
}

/// The statement that inserts into `table` a row of the given values.
pub fn insert_row_statement(table: &str, values: &str) -> (statement: String)
    ensures
        statement@ == insert_row_text(table@, values@),
{
    let mut statement = String::from_str("INSERT INTO ");
    statement.append(table);
    statement.append(" VALUES (");
    statement.append(values);
    statement.append(")");
    statement
}

/// The statement that inserts into `table` a row with the given values in the
/// given columns.
pub fn insert_columns_statement(table: &str, columns: &str, values: &str) -> (statement: String)
    ensures
        statement@ == insert_columns_text(table@, columns@, values@),
{
    let mut statement = String::from_str("INSERT INTO ");
    statement.append(table);
    statement.append("(");
    statement.append(columns);
    statement.append(") VALUES(");
    statement.append(values);
    statement.append(")");
    statement
}

/// The statement that lists the columns of `table`.
pub fn describe_statement(table: &str) -> (statement: String)
    ensures
        statement@ == describe_text(table@),
{
    let mut statement = String::from_str("DESC ");
    statement.append(table);
    statement
}

/// The statement that reads the rows of `table` that meet `predicate`.
pub fn select_statement(table: &str, predicate: &str) -> (statement: String)
    ensures
        statement@ == select_text(table@, predicate@),
{
    let mut statement = String::from_str("SELECT * FROM ");
    statement.append(table);
    statement.append(" WHERE ");
    statement.append(predicate);
    statement
}

} // verus!
