//! Transformations: the operations that a disguise is made of.

use vstd::prelude::*;
use vstd::string::*;
use crate::text::{copy_text, lowercase, lowercase_text, same_text};

verus! {

/// What a transformation does to the rows it selects.
#[derive(Clone, Copy, Debug, PartialEq, Eq, Structural)]
pub enum Kind {
    /// Deletes the rows.
    Removal,
    /// Assigns new values to columns of the rows.
    Modification,
    /// Repoints the rows from their subject to a placeholder.
    Decorrelation,
}

/// The kind that a lower-case name stands for.
pub open spec fn kind_named(lowered: Seq<char>) -> Option<Kind> {
    if lowered == "removal"@ {
        Some(Kind::Removal)
    } else if lowered == "modification"@ {
        Some(Kind::Modification)
    } else if lowered == "decorrelation"@ {
        Some(Kind::Decorrelation)
    } else {
        None
    }
}

/// The kind that a name stands for, whatever the case of its letters.
pub open spec fn kind_of_text(name: Seq<char>) -> Option<Kind> {
    kind_named(lowercase_text(name))
}

/// The kind that a lower-case name stands for.
pub fn kind_of_lowered(lowered: &str) -> (kind: Option<Kind>)
    ensures
        kind == kind_named(lowered@),
{
    if same_text(lowered, "removal") {
        Some(Kind::Removal)
    } else if same_text(lowered, "modification") {
        Some(Kind::Modification)
    } else if same_text(lowered, "decorrelation") {
        Some(Kind::Decorrelation)
    } else {
        None
    }
}

/// The kind that a name stands for, whatever the case of its letters.
pub fn parse_kind(name: &str) -> (kind: Option<Kind>)
    ensures
        kind == kind_of_text(name@),
{
    let lowered = lowercase(name);
    kind_of_lowered(lowered.as_str())
}

/// One operation of a disguise, as planned or as given in a request.
///
/// The kind is one of "removal", "modification" and "decorrelation", in any
/// case. The predicate and the changes are expressions in the store's own
/// language and are handed on as they are.
#[derive(Debug)]
pub struct Transformation {
    pub transform_type: Option<String>,
    pub table_name: Option<String>,
    pub predicate: Option<String>,
    pub foreign_key: Option<String>,
    pub changes: Option<String>,
}

/// The mathematical value of a [`Transformation`].
pub struct TransformationView {
    pub transform_type: Option<Seq<char>>,
    pub table_name: Option<Seq<char>>,
    pub predicate: Option<Seq<char>>,
    pub foreign_key: Option<Seq<char>>,
    pub changes: Option<Seq<char>>,
}

impl View for Transformation {
    type V = TransformationView;

    open spec fn view(&self) -> TransformationView {
        TransformationView {
            transform_type: self.transform_type.deep_view(),
            table_name: self.table_name.deep_view(),
            predicate: self.predicate.deep_view(),
            foreign_key: self.foreign_key.deep_view(),
            changes: self.changes.deep_view(),
        }
    }
}

impl DeepView for Transformation {
    type V = TransformationView;

    open spec fn deep_view(&self) -> TransformationView {
        self.view()
    }
}

impl TransformationView {
    /// The kind of the transformation, where its name is given and known.
    pub open spec fn kind(self) -> Option<Kind> {
        match self.transform_type {
            Some(name) => kind_of_text(name),
            None => None,
        }
    }
}

impl Clone for Transformation {
    fn clone(&self) -> (copy: Transformation)
        ensures
            copy@ == self@,
    {
        Transformation {
            transform_type: copy_text(&self.transform_type),
            table_name: copy_text(&self.table_name),
            predicate: copy_text(&self.predicate),
            foreign_key: copy_text(&self.foreign_key),
            changes: copy_text(&self.changes),
        }
    }
}

impl Transformation {
    /// A transformation with no field given.
    pub fn new_empty() -> (empty: Transformation)
        ensures
            empty@ == (TransformationView {
                transform_type: None,
                table_name: None,
                predicate: None,
                foreign_key: None,
                changes: None,
            }),
    {
        Transformation {
            transform_type: None,
            table_name: None,
            predicate: None,
            foreign_key: None,
            changes: None,
        }
    }
}

/// A copy of a list of transformations.
pub fn copy_transformations(list: &Vec<Transformation>) -> (copy: Vec<Transformation>)
    ensures
        copy.deep_view() == list.deep_view(),
{
    let mut copy: Vec<Transformation> = Vec::new();
    let mut i: usize = 0;
    while i < list.len()
        invariant
            i <= list.len(),
            copy.len() == i,
            forall|j: int| 0 <= j < i ==> copy@[j]@ == list@[j]@,
        decreases list.len() - i,
    {
        copy.push(list[i].clone());
        i = i + 1;
    }
    assert(copy.deep_view() =~= list.deep_view());
    copy
}

} // verus!
