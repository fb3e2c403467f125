//! Row snapshots of the target store.

use vstd::prelude::*;
use vstd::string::*;
use crate::text::{concat3, contains, contains_text, copy_text, join, join_text, same_text, texts_of};

verus! {

/// One column of a row: its name, the store's name for its type, and its
/// value written as text.
#[derive(Debug)]
pub struct Field {
    pub field_name: Option<String>,
    pub field_type: Option<String>,
    pub field_value: Option<String>,
}

/// The mathematical value of a [`Field`].
pub struct FieldView {
    pub field_name: Option<Seq<char>>,
    pub field_type: Option<Seq<char>>,
    pub field_value: Option<Seq<char>>,
}

impl View for Field {
    type V = FieldView;

    open spec fn view(&self) -> FieldView {
        FieldView {
            field_name: self.field_name.deep_view(),
            field_type: self.field_type.deep_view(),
            field_value: self.field_value.deep_view(),
        }
    }
}

impl DeepView for Field {
    type V = FieldView;

    open spec fn deep_view(&self) -> FieldView {
        self.view()
    }
}

impl FieldView {
    /// Name, type and value are all given.
    pub open spec fn is_complete(self) -> bool {
        self.field_name is Some && self.field_type is Some && self.field_value is Some
    }

    /// The value as it stands in a list of values: as it is where the type is
    /// an integer type, between double quotes otherwise.
    pub open spec fn rendered(self) -> Seq<char>
        recommends
            self.is_complete(),
    {
        if contains_text(self.field_type->0, "int"@) {
            self.field_value->0
        } else {
            "\""@ + self.field_value->0 + "\""@
        }
    }

    /// The condition that selects the rows holding this value in this column.
    pub open spec fn equation(self) -> Seq<char>
        recommends
            self.field_name is Some,
            self.field_value is Some,
    {
        self.field_name->0 + "="@ + self.field_value->0
    }
}

impl Clone for Field {
    fn clone(&self) -> (copy: Field)
        ensures
            copy@ == self@,
    {
        Field {
            field_name: copy_text(&self.field_name),
            field_type: copy_text(&self.field_type),
            field_value: copy_text(&self.field_value),
        }
    }
}

impl Field {
    /// Whether name, type and value are all given.
    pub fn is_complete(&self) -> (complete: bool)
        ensures
            complete == self@.is_complete(),
    {
        self.field_name.is_some() && self.field_type.is_some() && self.field_value.is_some()
    }

    /// The condition `name=value`, which selects the rows holding this value
    /// in this column; `None` where the name or the value is not given.
    pub fn equation(&self) -> (condition: Option<String>)
        ensures
            condition.deep_view() == (if self@.field_name is Some && self@.field_value is Some {
                Some(self@.equation())
            } else {
                None::<Seq<char>>
            }),
    {
        match (&self.field_name, &self.field_value) {
            (Some(name), Some(value)) => Some(concat3(name.as_str(), "=", value.as_str())),
            _ => None,
        }
    }
}

/// A row of the target store as it was read: its fields in the order of the
/// table's columns, and the position of the primary key among them.
#[derive(Debug)]
pub struct Target {
    pub primary_key_index: Option<usize>,
    pub fields: Option<Vec<Field>>,
}

/// The mathematical value of a [`Target`].
pub struct TargetView {
    pub primary_key_index: Option<usize>,
    pub fields: Option<Seq<FieldView>>,
}

impl View for Target {
    type V = TargetView;

    open spec fn view(&self) -> TargetView {
        TargetView {
            primary_key_index: self.primary_key_index,
            fields: self.fields.deep_view(),
        }
    }
}

impl DeepView for Target {
    type V = TargetView;

    open spec fn deep_view(&self) -> TargetView {
        self.view()
    }
}

/// The names of the fields, in order.
pub open spec fn names_of(fields: Seq<FieldView>) -> Seq<Seq<char>> {
    Seq::new(fields.len(), |i: int| fields[i].field_name->0)
}

/// The values of the fields as they stand in a list of values, in order.
pub open spec fn rendered_values_of(fields: Seq<FieldView>) -> Seq<Seq<char>> {
    Seq::new(fields.len(), |i: int| fields[i].rendered())
}

/// The position of the first field of the given name, if there is one.
pub open spec fn position_of(fields: Seq<FieldView>, name: Seq<char>, from: int) -> Option<int>
    decreases fields.len() - from,
{
    if from < 0 || from >= fields.len() {
        None
    } else if fields[from].field_name == Some(name) {
        Some(from)
    } else {
        position_of(fields, name, from + 1)
    }
}

impl TargetView {
    /// The snapshot is whole: the fields are given, each with name, type and
    /// value, and the primary key is one of them.
    pub open spec fn wf(self) -> bool {
        &&& self.fields is Some
        &&& self.primary_key_index is Some
        &&& self.primary_key_index->0 < self.fields->0.len()
        &&& forall|i: int| 0 <= i < self.fields->0.len() ==> (#[trigger] self.fields->0[i]).is_complete()
    }

    /// The field of the primary key, where the index points at a field.
    pub open spec fn primary_key(self) -> Option<FieldView>
        recommends
            self.fields is Some,
            self.primary_key_index is Some,
    {
        if self.primary_key_index->0 < self.fields->0.len() {
            Some(self.fields->0[self.primary_key_index->0 as int])
        } else {
            None
        }
    }

    /// The first field of the given name, if there is one.
    pub open spec fn foreign_key(self, name: Seq<char>) -> Option<FieldView>
        recommends
            self.fields is Some,
    {
        match position_of(self.fields->0, name, 0) {
            Some(at) => Some(self.fields->0[at]),
            None => None,
        }
    }

    /// Every field that a search for `name` looks at has a name: the fields
    /// up to the first one of that name, or all of them where none has it.
    pub open spec fn named_until(self, name: Seq<char>) -> bool
        recommends
            self.fields is Some,
    {
        forall|i: int|
            0 <= i < self.fields->0.len() && (position_of(self.fields->0, name, 0) matches Some(at)
                ==> i <= at) ==> (#[trigger] self.fields->0[i]).field_name is Some
    }

    /// Every field has a name.
    pub open spec fn all_named(self) -> bool
        recommends
            self.fields is Some,
    {
        forall|i: int| 0 <= i < self.fields->0.len() ==> (#[trigger] self.fields->0[i]).field_name is Some
    }

    /// Every field has a type and a value.
    pub open spec fn all_valued(self) -> bool
        recommends
            self.fields is Some,
    {
        forall|i: int|
            0 <= i < self.fields->0.len() ==> {
                &&& (#[trigger] self.fields->0[i]).field_type is Some
                &&& self.fields->0[i].field_value is Some
            }
    }
}

/// A field that was found by its name in a whole row has name, type and
/// value.
pub proof fn lemma_found_field_is_complete(row: TargetView, name: Seq<char>)
    requires
        row.wf(),
        row.foreign_key(name) is Some,
    ensures
        row.foreign_key(name)->0.is_complete(),
        row.foreign_key(name)->0.field_name == Some(name),
{
    lemma_position_in_range(row.fields->0, name, 0);
}

/// A position that the search for a name gives lies among the fields, at or
/// after the start of the search, and the field there has that name.
pub proof fn lemma_position_in_range(
    fields: Seq<FieldView>,
    name: Seq<char>,
    from: int,
)
    requires
        position_of(fields, name, from) is Some,
    ensures
        from <= position_of(fields, name, from)->0 < fields.len(),
        0 <= position_of(fields, name, from)->0,
        fields[position_of(fields, name, from)->0].field_name == Some(name),
    decreases fields.len() - from,
{
    if from < 0 || from >= fields.len() {
    } else if fields[from].field_name == Some(name) {
    } else {
        lemma_position_in_range(fields, name, from + 1);
    }
}

impl Clone for Target {
    fn clone(&self) -> (copy: Target)
        ensures
            copy@ == self@,
    {
        let fields = match &self.fields {
            Some(list) => Some(copy_fields(list)),
            None => None,
        };
        Target { primary_key_index: self.primary_key_index, fields }
    }
}

/// A copy of a list of fields.
pub fn copy_fields(list: &Vec<Field>) -> (copy: Vec<Field>)
    ensures
        copy.deep_view() == list.deep_view(),
{
    let mut copy: Vec<Field> = Vec::new();
    let mut i: usize = 0;
    while i < list.len()
        invariant
            i <= list.len(),
            copy.len() == i,
            forall|j: int| 0 <= j < i ==> copy@[j]@ == list@[j]@,
        decreases list.len() - i,
    {
        copy.push(list[i].clone());
        i = i + 1;
    }
    assert(copy.deep_view() =~= list.deep_view());
    copy
}

impl Target {
    /// Whether the snapshot is whole.
    pub fn is_whole(&self) -> (whole: bool)
        ensures
            whole == self@.wf(),
    {
        match (&self.fields, self.primary_key_index) {
            (Some(fields), Some(index)) => {
                if index >= fields.len() {
                    return false;
                }
                let mut i: usize = 0;
                while i < fields.len()
                    invariant
                        i <= fields.len(),
                        self.fields == Some(*fields),
                        forall|j: int| 0 <= j < i ==> (#[trigger] fields.deep_view()[j]).is_complete(),
                    decreases fields.len() - i,
                {
                    if !fields[i].is_complete() {
                        assert(!fields.deep_view()[i as int].is_complete());
                        return false;
                    }
                    i = i + 1;
                }
                true
            },
            _ => false,
        }
    }

    /// The field of the primary key; `None` where the index points past the
    /// fields.
    pub fn primary_key(&self) -> (key: Option<Field>)
        requires
            self.primary_key_index is Some,
            self.fields is Some,
        ensures
            key.deep_view() == self@.primary_key(),
    {
        let index = self.primary_key_index.unwrap();
        let fields = self.fields.as_ref().unwrap();
        if index >= fields.len() {
            None
        } else {
            Some(fields[index].clone())
        }
    }

    /// The first field of the given name; `None` where no field has it.
    pub fn foreign_key(&self, foreign_key_name: &str) -> (key: Option<Field>)
        requires
            self.fields is Some,
            self@.named_until(foreign_key_name@),
        ensures
            key.deep_view() == self@.foreign_key(foreign_key_name@),
    {
        let fields = self.fields.as_ref().unwrap();
        let ghost all = fields.deep_view();
        let mut i: usize = 0;
        while i < fields.len()
            invariant
                i <= fields.len(),
                all == fields.deep_view(),
                self@.fields == Some(all),
                self@.named_until(foreign_key_name@),
                position_of(all, foreign_key_name@, 0) == position_of(all, foreign_key_name@, i as int),
            decreases fields.len() - i,
        {
            proof {
                if position_of(all, foreign_key_name@, i as int) is Some {
                    lemma_position_in_range(all, foreign_key_name@, i as int);
                }
            }
            assert(all[i as int].field_name is Some);
            if same_text(fields[i].field_name.as_ref().unwrap().as_str(), foreign_key_name) {
                assert(all[i as int].field_name == Some(foreign_key_name@));
                return Some(fields[i].clone());
            }
            i = i + 1;
        }
        None
    }

    /// The names of the fields in order, with ", " between them; `None` where
    /// the fields are not given.
    pub fn field_names(&self) -> (names: Option<String>)
        requires
            self.fields is Some ==> self.fields->0.len() > 0 && self@.all_named(),
        ensures
            names.deep_view() == (match self@.fields {
                Some(fields) => Some(join_text(names_of(fields), ", "@)),
                None => None,
            }),
    {
        match &self.fields {
            None => None,
            Some(fields) => {
                let ghost all = fields.deep_view();
                let mut names: Vec<String> = Vec::new();
                let mut i: usize = 0;
                while i < fields.len()
                    invariant
                        i <= fields.len(),
                        all == fields.deep_view(),
                        self@.fields == Some(all),
                        self@.all_named(),
                        names.len() == i,
                        forall|j: int| 0 <= j < i ==> names@[j]@ == all[j].field_name->0,
                    decreases fields.len() - i,
                {
                    assert(all[i as int].field_name is Some);
                    names.push(fields[i].field_name.as_ref().unwrap().clone());
                    i = i + 1;
                }
                assert(texts_of(names@) =~= names_of(all));
                Some(join(&names, ", "))
            },
        }
    }

    /// The values of the fields in order, with ", " between them, each as it
    /// stands in a list of values; `None` where the fields are not given.
    pub fn field_values(&self) -> (values: Option<String>)
        requires
            self.fields is Some ==> self.fields->0.len() > 0 && self@.all_valued(),
        ensures
            values.deep_view() == (match self@.fields {
                Some(fields) => Some(join_text(rendered_values_of(fields), ", "@)),
                None => None,
            }),
    {
        match &self.fields {
            None => None,
            Some(fields) => {
                let ghost all = fields.deep_view();
                let mut values: Vec<String> = Vec::new();
                let mut i: usize = 0;
                while i < fields.len()
                    invariant
                        i <= fields.len(),
                        all == fields.deep_view(),
                        self@.fields == Some(all),
                        self@.all_valued(),
                        values.len() == i,
                        forall|j: int| 0 <= j < i ==> values@[j]@ == all[j].rendered(),
                    decreases fields.len() - i,
                {
                    assert(all[i as int].field_type is Some && all[i as int].field_value is Some);
                    let field = &fields[i];
                    let value = field.field_value.as_ref().unwrap();
                    if contains(field.field_type.as_ref().unwrap().as_str(), "int") {
                        values.push(value.clone());
                    } else {
                        values.push(concat3("\"", value.as_str(), "\""));
                    }
                    i = i + 1;
                }
                assert(texts_of(values@) =~= rendered_values_of(all));
                Some(join(&values, ", "))
            },
        }
    }
}

} // verus!
