//! Placeholders: the anonymous rows that decorrelated rows point at.

use vstd::prelude::*;
use vstd::string::*;
use crate::text::{concat3, copy_text};

verus! {

/// Where a subject's placeholder row is: its table and the condition that
/// selects it.
#[derive(Debug)]
pub struct PlaceholderInfo {
    pub pred: Option<String>,
    pub table: Option<String>,
}

/// The mathematical value of a [`PlaceholderInfo`].
pub struct PlaceholderInfoView {
    pub pred: Option<Seq<char>>,
    pub table: Option<Seq<char>>,
}

impl View for PlaceholderInfo {
    type V = PlaceholderInfoView;

    open spec fn view(&self) -> PlaceholderInfoView {
        PlaceholderInfoView { pred: self.pred.deep_view(), table: self.table.deep_view() }
    }
}

impl DeepView for PlaceholderInfo {
    type V = PlaceholderInfoView;

    open spec fn deep_view(&self) -> PlaceholderInfoView {
        self.view()
    }
}

impl Clone for PlaceholderInfo {
    fn clone(&self) -> (copy: PlaceholderInfo)
        ensures
            copy@ == self@,
    {
        PlaceholderInfo { pred: copy_text(&self.pred), table: copy_text(&self.table) }
    }
}

impl PlaceholderInfo {
    /// The location of the placeholder row that the store created under the
    /// given id: the condition is the primary key's name, "=", and the id.
    pub fn new(generate_placeholder: GeneratePlaceHolder, id: &str) -> (info: PlaceholderInfo)
        requires
            generate_placeholder.primary_key_name is Some,
        ensures
            info@.pred == Some(generate_placeholder@.primary_key_name->0 + "="@ + id@),
            info@.table == generate_placeholder@.table,
    {
        let name = generate_placeholder.primary_key_name.unwrap();
        PlaceholderInfo {
            pred: Some(concat3(name.as_str(), "=", id)),
            table: generate_placeholder.table,
        }
    }
}

/// A request to create a placeholder row: the table, the name of its primary
/// key, and the columns and values of the row to insert.
#[derive(Debug)]
pub struct GeneratePlaceHolder {
    pub table: Option<String>,
    pub primary_key_name: Option<String>,
    pub fields: Option<String>,
    pub field_values: Option<String>,
}

/// The mathematical value of a [`GeneratePlaceHolder`].
pub struct GeneratePlaceHolderView {
    pub table: Option<Seq<char>>,
    pub primary_key_name: Option<Seq<char>>,
    pub fields: Option<Seq<char>>,
    pub field_values: Option<Seq<char>>,
}

impl View for GeneratePlaceHolder {
    type V = GeneratePlaceHolderView;

    open spec fn view(&self) -> GeneratePlaceHolderView {
        GeneratePlaceHolderView {
            table: self.table.deep_view(),
            primary_key_name: self.primary_key_name.deep_view(),
            fields: self.fields.deep_view(),
            field_values: self.field_values.deep_view(),
        }
    }
}

impl DeepView for GeneratePlaceHolder {
    type V = GeneratePlaceHolderView;

    open spec fn deep_view(&self) -> GeneratePlaceHolderView {
        self.view()
    }
}

impl Clone for GeneratePlaceHolder {
    fn clone(&self) -> (copy: GeneratePlaceHolder)
        ensures
            copy@ == self@,
    {
        GeneratePlaceHolder {
            table: copy_text(&self.table),
            primary_key_name: copy_text(&self.primary_key_name),
            fields: copy_text(&self.fields),
            field_values: copy_text(&self.field_values),
        }
    }
}

} // verus!
