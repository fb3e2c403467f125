//! The policies under which requests come in, and what each asks of a
//! request.

use vstd::prelude::*;
use vstd::string::*;
use crate::error::{EngineError, ErrorView, MISSING_FIELD, WRONG_POLICY};
use crate::models::placeholder::{GeneratePlaceHolder, PlaceholderInfo};
use crate::models::requirement::{Requirement, RequirementView};
use crate::models::vault::{GenerateVault, Vault, VaultView};
use crate::statements::{insert_columns_statement, insert_columns_text};
use crate::text::{copy_text, lowercase, lowercase_text, same_text};

verus! {

/// A policy that can be asked for by name.
#[derive(Clone, Copy, Debug, PartialEq, Eq, Structural)]
pub enum Policy {
    /// Removes a subject's account and decorrelates what they contributed.
    UserScrub,
    /// Decorrelates what a subject contributed.
    Anonymize,
    /// Removes the accounts that were not used for years, with what depends
    /// on them.
    Expiration,
    /// Clears old disguises out of the vault.
    ClearVault,
}

/// The policy that a lower-case name stands for.
pub open spec fn policy_named(lowered: Seq<char>) -> Option<Policy> {
    if lowered == "userscrub"@ {
        Some(Policy::UserScrub)
    } else if lowered == "anonymize"@ {
        Some(Policy::Anonymize)
    } else if lowered == "expiration"@ {
        Some(Policy::Expiration)
    } else if lowered == "clearvault"@ {
        Some(Policy::ClearVault)
    } else {
        None
    }
}

/// The policy that a name stands for, whatever the case of its letters.
pub open spec fn policy_of_text(name: Seq<char>) -> Option<Policy> {
    policy_named(lowercase_text(name))
}

/// The policy that a lower-case name stands for.
pub fn policy_of_lowered(lowered: &str) -> (policy: Option<Policy>)
    ensures
        policy == policy_named(lowered@),
{
    if same_text(lowered, "userscrub") {
        Some(Policy::UserScrub)
    } else if same_text(lowered, "anonymize") {
        Some(Policy::Anonymize)
    } else if same_text(lowered, "expiration") {
        Some(Policy::Expiration)
    } else if same_text(lowered, "clearvault") {
        Some(Policy::ClearVault)
    } else {
        None
    }
}

/// The policy that a name stands for, whatever the case of its letters.
pub fn parse_policy(name: &str) -> (policy: Option<Policy>)
    ensures
        policy == policy_of_text(name@),
{
    let lowered = lowercase(name);
    policy_of_lowered(lowered.as_str())
}

/// The fields that a request under the policy must carry are there: the
/// name in any case; the vault and the transformations for a policy that
/// applies a disguise; and the age for an expiration.
pub open spec fn has_required_fields(r: RequirementView, policy: Policy) -> bool {
    &&& r.disguise_name is Some
    &&& policy != Policy::ClearVault ==> r.vault_id is Some && r.transformations is Some
    &&& policy == Policy::Expiration ==> r.delete_age is Some
}

/// What is wrong with a request that comes in under `policy`, if anything:
/// an absent field first, then a name that stands for another policy.
pub open spec fn refusal_of(r: RequirementView, policy: Policy) -> Option<ErrorView> {
    if !has_required_fields(r, policy) {
        Some(ErrorView::InvalidInput(MISSING_FIELD@))
    } else if policy_of_text(r.disguise_name->0) != Some(policy) {
        Some(ErrorView::InvalidInput(WRONG_POLICY@))
    } else {
        None
    }
}

/// Checks a request that came in under `policy`.
pub fn check_request(requirement: &Requirement, policy: Policy) -> (checked: Result<(), EngineError>)
    ensures
        refusal_of(requirement@, policy) is None ==> checked is Ok,
        refusal_of(requirement@, policy) is Some ==> checked is Err && Some(checked->Err_0@)
            == refusal_of(requirement@, policy),
{
    let name = match &requirement.disguise_name {
        Some(name) => name,
        None => { return Err(EngineError::invalid_input(MISSING_FIELD)); },
    };
    if policy != Policy::ClearVault && (requirement.vault_id.is_none()
        || requirement.transformations.is_none()) {
        return Err(EngineError::invalid_input(MISSING_FIELD));
    }
    if policy == Policy::Expiration && requirement.delete_age.is_none() {
        return Err(EngineError::invalid_input(MISSING_FIELD));
    }
    match parse_policy(name.as_str()) {
        Some(found) => {
            if found == policy {
                Ok(())
            } else {
                Err(EngineError::invalid_input(WRONG_POLICY))
            }
        },
        None => Err(EngineError::invalid_input(WRONG_POLICY)),
    }
}

/// Which disguises a clearing of the vault is about.
#[derive(Debug)]
pub enum Criterion {
    /// Those that were applied more than this many years of 365 days ago.
    OlderThan(i64),
    /// The one of this subject's vault that was applied under this name.
    Named { vault_id: String, name: String },
}

/// The mathematical value of a [`Criterion`].
pub enum CriterionView {
    OlderThan(i64),
    Named { vault_id: Seq<char>, name: Seq<char> },
}

impl View for Criterion {
    type V = CriterionView;

    open spec fn view(&self) -> CriterionView {
        match self {
            Criterion::OlderThan(age) => CriterionView::OlderThan(*age),
            Criterion::Named { vault_id, name } => CriterionView::Named {
                vault_id: vault_id@,
                name: name@,
            },
        }
    }
}

/// The criterion that a request to clear the vault gives, or what is wrong
/// with the request: an age where one is given; the disguise's name and the
/// subject's vault otherwise, both of which must then be there.
pub open spec fn criterion_of(r: RequirementView) -> Result<CriterionView, ErrorView> {
    match refusal_of(r, Policy::ClearVault) {
        Some(error) => Err(error),
        None => match r.delete_age {
            Some(age) => Ok(CriterionView::OlderThan(age)),
            None => if r.delete_name is Some && r.vault_id is Some {
                Ok(CriterionView::Named { vault_id: r.vault_id->0, name: r.delete_name->0 })
            } else {
                Err(ErrorView::InvalidInput(MISSING_FIELD@))
            },
        },
    }
}

/// The criterion that a request to clear the vault gives.
pub fn clear_criterion(requirement: &Requirement) -> (criterion: Result<Criterion, EngineError>)
    ensures
        criterion_of(requirement@) matches Ok(c) ==> criterion is Ok && criterion->Ok_0@ == c,
        criterion_of(requirement@) matches Err(e) ==> criterion is Err && criterion->Err_0@ == e,
{
    match check_request(requirement, Policy::ClearVault) {
        Ok(()) => {},
        Err(error) => { return Err(error); },
    }
    match requirement.delete_age {
        Some(age) => Ok(Criterion::OlderThan(age)),
        None => match (&requirement.delete_name, &requirement.vault_id) {
            (Some(name), Some(vault_id)) => Ok(
                Criterion::Named { vault_id: vault_id.clone(), name: name.clone() },
            ),
            _ => Err(EngineError::invalid_input(MISSING_FIELD)),
        },
    }
}

/// The assignment that a decorrelation makes for a subject: the condition
/// that selects the subject's placeholder row; `MISSING_FIELD` where the
/// placeholder's location lacks it.
pub fn placeholder_assignment(info: &PlaceholderInfo) -> (assignment: Result<String, EngineError>)
    ensures
        info@.pred is Some ==> assignment is Ok && assignment->Ok_0@ == info@.pred->0,
        info@.pred is None ==> assignment is Err && assignment->Err_0@ == ErrorView::InvalidInput(
            MISSING_FIELD@,
        ),
{
    match &info.pred {
        Some(pred) => Ok(pred.clone()),
        None => Err(EngineError::invalid_input(MISSING_FIELD)),
    }
}

/// The statement that creates a placeholder row; `MISSING_FIELD` where the
/// request lacks the table, the columns or the values.
pub fn placeholder_statement(placeholder: &GeneratePlaceHolder) -> (statement: Result<
    String,
    EngineError,
>)
    ensures
        ({
            let p = placeholder@;
            let fine = p.table is Some && p.fields is Some && p.field_values is Some;
            &&& fine ==> statement is Ok && statement->Ok_0@ == insert_columns_text(
                p.table->0,
                p.fields->0,
                p.field_values->0,
            )
            &&& !fine ==> statement is Err && statement->Err_0@ == ErrorView::InvalidInput(
                MISSING_FIELD@,
            )
        }),
{
    match (&placeholder.table, &placeholder.fields, &placeholder.field_values) {
        (Some(table), Some(fields), Some(values)) => Ok(
            insert_columns_statement(table.as_str(), fields.as_str(), values.as_str()),
        ),
        _ => Err(EngineError::invalid_input(MISSING_FIELD)),
    }
}

/// The identity to store for a new subject: the vault and the address of
/// the request, and the location of the subject's placeholder row in the
/// vault's own notation.
pub fn vault_record(request: &GenerateVault, placeholder_info: String) -> (vault: Vault)
    ensures
        vault@ == (VaultView {
            vault_id: request@.vault_id,
            email: request@.email,
            placeholder_info: Some(placeholder_info@),
        }),
{
    Vault {
        vault_id: copy_text(&request.vault_id),
        email: copy_text(&request.email),
        placeholder_info: Some(placeholder_info),
    }
}

} // verus!
