//! The failures that the engine reports.

use vstd::prelude::*;
use vstd::string::*;

verus! {

/// Message of a failure caused by an absent field of a request or record.
pub const MISSING_FIELD: &'static str = "A required field is missing.";

/// Message of a failure caused by a transformation of an unknown kind.
pub const UNKNOWN_KIND: &'static str =
    "The transform type is not correct, the execution has been terminated.";

/// Message of a failure caused by a statement that changed no row.
pub const MATCHED_NOTHING: &'static str = "The predicate is not correct.";

/// Message of a failure caused by a selection that the store refused.
pub const BAD_SELECTION: &'static str = "The input \"table\" or \"predicate\" is not correct.";

/// Message of a failure caused by a selection that found no row.
pub const NO_MATCH: &'static str = "No data fits the requirement.";

/// Message of a failure caused by a request sent under another policy's name.
pub const WRONG_POLICY: &'static str = "The disguise name is not correct.";

/// Message of a failure caused by a ledger lookup that found no disguise.
pub const NO_DISGUISE: &'static str = "The disguise is not found.";

/// Message of a failure caused by a row that does not fit its table's columns.
pub const SHAPE_MISMATCH: &'static str = "The values do not fit the columns of the table.";

/// Message of a failure caused by an age for which no cutoff can be computed.
pub const AGE_OUT_OF_RANGE: &'static str = "The age is out of range.";

/// A failure of the engine.
#[derive(Debug)]
pub enum EngineError {
    /// The request cannot be carried out as given.
    InvalidInput(String),
    /// A lookup in the vault found nothing.
    NotFound(String),
    /// A selection in the target store matched no row.
    OperationError(String),
    /// A column has a type that the engine cannot snapshot; holds the type's name.
    Unsupported(String),
    /// The store failed; holds the store's own message, unmodified.
    Store(String),
}

/// The mathematical value of an [`EngineError`].
pub enum ErrorView {
    InvalidInput(Seq<char>),
    NotFound(Seq<char>),
    OperationError(Seq<char>),
    Unsupported(Seq<char>),
    Store(Seq<char>),
}

impl View for EngineError {
    type V = ErrorView;

    open spec fn view(&self) -> ErrorView {
        match self {
            EngineError::InvalidInput(m) => ErrorView::InvalidInput(m@),
            EngineError::NotFound(m) => ErrorView::NotFound(m@),
            EngineError::OperationError(m) => ErrorView::OperationError(m@),
            EngineError::Unsupported(m) => ErrorView::Unsupported(m@),
            EngineError::Store(m) => ErrorView::Store(m@),
        }
    }
}

impl DeepView for EngineError {
    type V = ErrorView;

    open spec fn deep_view(&self) -> ErrorView {
        self.view()
    }
}

impl ErrorView {
    /// The text that the failure carries.
    pub open spec fn message(self) -> Seq<char> {
        match self {
            ErrorView::InvalidInput(m) => m,
            ErrorView::NotFound(m) => m,
            ErrorView::OperationError(m) => m,
            ErrorView::Unsupported(m) => m,
            ErrorView::Store(m) => m,
        }
    }
}

impl Clone for EngineError {
    fn clone(&self) -> (copy: EngineError)
        ensures
            copy@ == self@,
    {
        match self {
            EngineError::InvalidInput(m) => EngineError::InvalidInput(m.clone()),
            EngineError::NotFound(m) => EngineError::NotFound(m.clone()),
            EngineError::OperationError(m) => EngineError::OperationError(m.clone()),
            EngineError::Unsupported(m) => EngineError::Unsupported(m.clone()),
            EngineError::Store(m) => EngineError::Store(m.clone()),
        }
    }
}

impl EngineError {
    /// An `InvalidInput` failure with the given message.
    pub fn invalid_input(message: &str) -> (e: EngineError)
        ensures
            e@ == ErrorView::InvalidInput(message@),
    {
        EngineError::InvalidInput(String::from_str(message))
    }

    /// A `NotFound` failure with the given message.
    pub fn not_found(message: &str) -> (e: EngineError)
        ensures
            e@ == ErrorView::NotFound(message@),
    {
        EngineError::NotFound(String::from_str(message))
    }

    /// An `OperationError` failure with the given message.
    pub fn operation_error(message: &str) -> (e: EngineError)
        ensures
            e@ == ErrorView::OperationError(message@),
    {
        EngineError::OperationError(String::from_str(message))
    }

    /// An `Unsupported` failure for a column type of the given name.
    pub fn unsupported(column_type: &str) -> (e: EngineError)
        ensures
            e@ == ErrorView::Unsupported(column_type@),
    {
        EngineError::Unsupported(String::from_str(column_type))
    }

    /// A failure of the store, with the store's own message.
    pub fn store(message: &str) -> (e: EngineError)
        ensures
            e@ == ErrorView::Store(message@),
    {
        EngineError::Store(String::from_str(message))
    }

    /// The text that the failure carries.
    pub fn message(&self) -> (m: String)
        ensures
            m@ == self@.message(),
    {
        match self {
            EngineError::InvalidInput(m) => m.clone(),
            EngineError::NotFound(m) => m.clone(),
            EngineError::OperationError(m) => m.clone(),
            EngineError::Unsupported(m) => m.clone(),
            EngineError::Store(m) => m.clone(),
        }
    }
}

} // verus!
