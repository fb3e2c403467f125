//! The records of the vault: identities, disguises and their undo steps.

use vstd::prelude::*;
use vstd::string::*;
use vstd::std_specs::convert::FromSpecImpl;
use crate::models::placeholder::{GeneratePlaceHolder, GeneratePlaceHolderView};
use crate::models::transformation::{kind_of_text, Kind};
use crate::text::copy_text;

verus! {

/// A request to create a vault for a subject, with the placeholder row to
/// create for them.
#[derive(Debug)]
pub struct GenerateVault {
    pub vault_id: Option<String>,
    pub email: Option<String>,
    pub generate_placeholder: Option<GeneratePlaceHolder>,
}

/// The mathematical value of a [`GenerateVault`].
pub struct GenerateVaultView {
    pub vault_id: Option<Seq<char>>,
    pub email: Option<Seq<char>>,
    pub generate_placeholder: Option<GeneratePlaceHolderView>,
}

impl View for GenerateVault {
    type V = GenerateVaultView;

    open spec fn view(&self) -> GenerateVaultView {
        GenerateVaultView {
            vault_id: self.vault_id.deep_view(),
            email: self.email.deep_view(),
            generate_placeholder: self.generate_placeholder.deep_view(),
        }
    }
}

impl DeepView for GenerateVault {
    type V = GenerateVaultView;

    open spec fn deep_view(&self) -> GenerateVaultView {
        self.view()
    }
}

impl Clone for GenerateVault {
    fn clone(&self) -> (copy: GenerateVault)
        ensures
            copy@ == self@,
    {
        let generate_placeholder = match &self.generate_placeholder {
            Some(p) => Some(p.clone()),
            None => None,
        };
        GenerateVault {
            vault_id: copy_text(&self.vault_id),
            email: copy_text(&self.email),
            generate_placeholder,
        }
    }
}

/// A subject's identity in the vault; `placeholder_info` holds the location
/// of their placeholder row in the vault's own notation.
#[derive(Debug)]
pub struct Vault {
    pub vault_id: Option<String>,
    pub email: Option<String>,
    pub placeholder_info: Option<String>,
}

/// The mathematical value of a [`Vault`].
pub struct VaultView {
    pub vault_id: Option<Seq<char>>,
    pub email: Option<Seq<char>>,
    pub placeholder_info: Option<Seq<char>>,
}

impl View for Vault {
    type V = VaultView;

    open spec fn view(&self) -> VaultView {
        VaultView {
            vault_id: self.vault_id.deep_view(),
            email: self.email.deep_view(),
            placeholder_info: self.placeholder_info.deep_view(),
        }
    }
}

impl DeepView for Vault {
    type V = VaultView;

    open spec fn deep_view(&self) -> VaultView {
        self.view()
    }
}

impl Clone for Vault {
    fn clone(&self) -> (copy: Vault)
        ensures
            copy@ == self@,
    {
        Vault {
            vault_id: copy_text(&self.vault_id),
            email: copy_text(&self.email),
            placeholder_info: copy_text(&self.placeholder_info),
        }
    }
}

/// The header of a disguise as the vault stores it.
#[derive(Debug)]
pub struct DisguiseFromDB {
    pub disguise_id: Option<i32>,
    pub time: Option<String>,
    pub vault_id: Option<String>,
    pub disguise_type: Option<String>,
}

/// The mathematical value of a [`DisguiseFromDB`].
pub struct DisguiseFromDBView {
    pub disguise_id: Option<i32>,
    pub time: Option<Seq<char>>,
    pub vault_id: Option<Seq<char>>,
    pub disguise_type: Option<Seq<char>>,
}

impl View for DisguiseFromDB {
    type V = DisguiseFromDBView;

    open spec fn view(&self) -> DisguiseFromDBView {
        DisguiseFromDBView {
            disguise_id: self.disguise_id,
            time: self.time.deep_view(),
            vault_id: self.vault_id.deep_view(),
            disguise_type: self.disguise_type.deep_view(),
        }
    }
}

impl DeepView for DisguiseFromDB {
    type V = DisguiseFromDBView;

    open spec fn deep_view(&self) -> DisguiseFromDBView {
        self.view()
    }
}

impl Clone for DisguiseFromDB {
    fn clone(&self) -> (copy: DisguiseFromDB)
        ensures
            copy@ == self@,
    {
        DisguiseFromDB {
            disguise_id: self.disguise_id,
            time: copy_text(&self.time),
            vault_id: copy_text(&self.vault_id),
            disguise_type: copy_text(&self.disguise_type),
        }
    }
}

/// An applied disguise: its header and its undo steps in the order in which
/// they were recorded.
#[derive(Debug)]
pub struct Disguise {
    pub disguise_id: Option<i32>,
    pub time: Option<String>,
    pub vault_id: Option<String>,
    pub disguise_type: Option<String>,
    pub functions: Option<Vec<Function>>,
}

/// The mathematical value of a [`Disguise`].
pub struct DisguiseView {
    pub disguise_id: Option<i32>,
    pub time: Option<Seq<char>>,
    pub vault_id: Option<Seq<char>>,
    pub disguise_type: Option<Seq<char>>,
    pub functions: Option<Seq<FunctionView>>,
}

impl View for Disguise {
    type V = DisguiseView;

    open spec fn view(&self) -> DisguiseView {
        DisguiseView {
            disguise_id: self.disguise_id,
            time: self.time.deep_view(),
            vault_id: self.vault_id.deep_view(),
            disguise_type: self.disguise_type.deep_view(),
            functions: self.functions.deep_view(),
        }
    }
}

impl DeepView for Disguise {
    type V = DisguiseView;

    open spec fn deep_view(&self) -> DisguiseView {
        self.view()
    }
}

impl Clone for Disguise {
    fn clone(&self) -> (copy: Disguise)
        ensures
            copy@ == self@,
    {
        let functions = match &self.functions {
            Some(list) => Some(copy_functions(list)),
            None => None,
        };
        Disguise {
            disguise_id: self.disguise_id,
            time: copy_text(&self.time),
            vault_id: copy_text(&self.vault_id),
            disguise_type: copy_text(&self.disguise_type),
            functions,
        }
    }
}

impl DisguiseView {
    /// The disguise can be written to the vault as it is: time, vault, name
    /// and undo steps are given, and every undo step is complete.
    pub open spec fn is_complete(self) -> bool {
        &&& self.time is Some
        &&& self.vault_id is Some
        &&& self.disguise_type is Some
        &&& self.functions is Some
        &&& forall|i: int|
            0 <= i < self.functions->0.len() ==> (#[trigger] self.functions->0[i]).is_complete()
    }
}

impl Disguise {
    /// Whether the disguise can be written to the vault as it is.
    pub fn is_complete(&self) -> (complete: bool)
        ensures
            complete == self@.is_complete(),
    {
        if self.time.is_none() || self.vault_id.is_none() || self.disguise_type.is_none() {
            return false;
        }
        match &self.functions {
            None => false,
            Some(functions) => {
                let mut i: usize = 0;
                while i < functions.len()
                    invariant
                        i <= functions.len(),
                        self.functions == Some(*functions),
                        forall|j: int|
                            0 <= j < i ==> (#[trigger] functions.deep_view()[j]).is_complete(),
                    decreases functions.len() - i,
                {
                    if !functions[i].is_complete() {
                        assert(self@.functions->0[i as int] == functions@[i as int]@);
                        return false;
                    }
                    i = i + 1;
                }
                true
            },
        }
    }
}

impl From<DisguiseFromDB> for Disguise {
    fn from(disguise_from_db: DisguiseFromDB) -> (disguise: Disguise) {
        Disguise {
            disguise_id: disguise_from_db.disguise_id,
            time: disguise_from_db.time,
            vault_id: disguise_from_db.vault_id,
            disguise_type: disguise_from_db.disguise_type,
            functions: None,
        }
    }
}

impl FromSpecImpl<DisguiseFromDB> for Disguise {
    open spec fn obeys_from_spec() -> bool {
        true
    }

    open spec fn from_spec(disguise_from_db: DisguiseFromDB) -> Disguise {
        Disguise {
            disguise_id: disguise_from_db.disguise_id,
            time: disguise_from_db.time,
            vault_id: disguise_from_db.vault_id,
            disguise_type: disguise_from_db.disguise_type,
            functions: None,
        }
    }
}

/// One undo step of a disguise: what was done to one row, the condition that
/// selects that row by its primary key, the row's values before, and the
/// change that was made.
#[derive(Debug)]
pub struct Function {
    pub disguise_id: Option<i32>,
    pub function_type: Option<String>,
    pub table_name: Option<String>,
    pub predicate: Option<String>,
    pub original: Option<String>,
    pub updated: Option<String>,
}

/// The mathematical value of a [`Function`].
pub struct FunctionView {
    pub disguise_id: Option<i32>,
    pub function_type: Option<Seq<char>>,
    pub table_name: Option<Seq<char>>,
    pub predicate: Option<Seq<char>>,
    pub original: Option<Seq<char>>,
    pub updated: Option<Seq<char>>,
}

impl View for Function {
    type V = FunctionView;

    open spec fn view(&self) -> FunctionView {
        FunctionView {
            disguise_id: self.disguise_id,
            function_type: self.function_type.deep_view(),
            table_name: self.table_name.deep_view(),
            predicate: self.predicate.deep_view(),
            original: self.original.deep_view(),
            updated: self.updated.deep_view(),
        }
    }
}

impl DeepView for Function {
    type V = FunctionView;

    open spec fn deep_view(&self) -> FunctionView {
        self.view()
    }
}

impl FunctionView {
    /// The kind of the step, where its name is given and known.
    pub open spec fn kind(self) -> Option<Kind> {
        match self.function_type {
            Some(name) => kind_of_text(name),
            None => None,
        }
    }

    /// Kind, table, predicate, values and change are all given.
    pub open spec fn is_complete(self) -> bool {
        &&& self.function_type is Some
        &&& self.table_name is Some
        &&& self.predicate is Some
        &&& self.original is Some
        &&& self.updated is Some
    }
}

impl Clone for Function {
    fn clone(&self) -> (copy: Function)
        ensures
            copy@ == self@,
    {
        Function {
            disguise_id: self.disguise_id,
            function_type: copy_text(&self.function_type),
            table_name: copy_text(&self.table_name),
            predicate: copy_text(&self.predicate),
            original: copy_text(&self.original),
            updated: copy_text(&self.updated),
        }
    }
}

impl Function {
    /// Whether kind, table, predicate, values and change are all given.
    pub fn is_complete(&self) -> (complete: bool)
        ensures
            complete == self@.is_complete(),
    {
        self.function_type.is_some() && self.table_name.is_some() && self.predicate.is_some()
            && self.original.is_some() && self.updated.is_some()
    }
}

/// A copy of a list of undo steps.
pub fn copy_functions(list: &Vec<Function>) -> (copy: Vec<Function>)
    ensures
        copy.deep_view() == list.deep_view(),
{
    let mut copy: Vec<Function> = Vec::new();
    let mut i: usize = 0;
    while i < list.len()
        invariant
            i <= list.len(),
            copy.len() == i,
            forall|j: int| 0 <= j < i ==> copy@[j]@ == list@[j]@,
        decreases list.len() - i,
    {
        copy.push(list[i].clone());
        i = i + 1;
    }
    assert(copy.deep_view() =~= list.deep_view());
    copy
}

} // verus!
