//! Requests to apply, clear or recover a disguise.

use vstd::prelude::*;
use vstd::string::*;
use crate::models::transformation::{copy_transformations, Transformation, TransformationView};
use crate::text::copy_text;

verus! {

/// What a caller asks for: the policy's name, the subject's vault, and what
/// the policy needs (its transformations, an age in years, or the name of the
/// disguise to clear).
#[derive(Debug)]
pub struct Requirement {
    pub disguise_name: Option<String>,
    pub vault_id: Option<String>,
    pub delete_age: Option<i64>,
    pub delete_name: Option<String>,
    pub transformations: Option<Vec<Transformation>>,
}

/// The mathematical value of a [`Requirement`].
pub struct RequirementView {
    pub disguise_name: Option<Seq<char>>,
    pub vault_id: Option<Seq<char>>,
    pub delete_age: Option<i64>,
    pub delete_name: Option<Seq<char>>,
    pub transformations: Option<Seq<TransformationView>>,
}

impl View for Requirement {
    type V = RequirementView;

    open spec fn view(&self) -> RequirementView {
        RequirementView {
            disguise_name: self.disguise_name.deep_view(),
            vault_id: self.vault_id.deep_view(),
            delete_age: self.delete_age,
            delete_name: self.delete_name.deep_view(),
            transformations: self.transformations.deep_view(),
        }
    }
}

impl DeepView for Requirement {
    type V = RequirementView;

    open spec fn deep_view(&self) -> RequirementView {
        self.view()
    }
}

impl Clone for Requirement {
    fn clone(&self) -> (copy: Requirement)
        ensures
            copy@ == self@,
    {
        let transformations = match &self.transformations {
            Some(list) => Some(copy_transformations(list)),
            None => None,
        };
        Requirement {
            disguise_name: copy_text(&self.disguise_name),
            vault_id: copy_text(&self.vault_id),
            delete_age: self.delete_age,
            delete_name: copy_text(&self.delete_name),
            transformations,
        }
    }
}

} // verus!
