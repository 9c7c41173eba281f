//! A column's name together with its data type.

use crate::datatypes::dtype::{DataType, DataTypeView};
use vstd::prelude::*;

verus! {

/// Characterizes the name and the [`DataType`] of a column.
#[derive(Debug, Eq, Hash)]
pub struct Field {
    name: String,
    data_type: DataType,
}

/// Mathematical model of a [`Field`].
pub struct FieldView {
    pub name: Seq<char>,
    pub data_type: DataTypeView,
}

impl View for Field {
    type V = FieldView;

    closed spec fn view(&self) -> FieldView {
        FieldView { name: self.name@, data_type: self.data_type@ }
    }
}

/// The models of a sequence of fields, in order.
pub open spec fn fields_view(fields: Seq<Field>) -> Seq<FieldView> {
    Seq::new(fields.len(), |i: int| fields[i]@)
}

/// The stored names of a sequence of fields, in order.
pub open spec fn names_of(fields: Seq<Field>) -> Seq<String> {
    Seq::new(fields.len(), |i: int| fields[i].spec_name())
}

/// The names of a sequence of fields, in order.
pub open spec fn field_names(fields: Seq<FieldView>) -> Seq<Seq<char>> {
    Seq::new(fields.len(), |i: int| fields[i].name)
}

impl Clone for Field {
    fn clone(&self) -> (r: Self)
        ensures
            r == *self,
    {
        Field { name: self.name.clone(), data_type: self.data_type.clone() }
    }
}

impl PartialEq for Field {
    fn eq(&self, other: &Self) -> (r: bool) {
        self.name == other.name && self.data_type.same_as(&other.data_type)
    }
}

impl vstd::std_specs::cmp::PartialEqSpecImpl for Field {
    open spec fn obeys_eq_spec() -> bool {
        true
    }

    open spec fn eq_spec(&self, other: &Self) -> bool {
        self@ == other@
    }
}

impl Field {
    /// Creates a new `Field`.
    pub fn new(name: &str, data_type: DataType) -> (r: Self)
        ensures
            r@ == (FieldView { name: name@, data_type: data_type@ }),
    {
        Field { name: String::from_str(name), data_type }
    }

    /// The name, as the string that is stored.
    pub closed spec fn spec_name(self) -> String {
        self.name
    }

    /// The stored name spells the name of the model.
    pub proof fn lemma_spec_name(self)
        ensures
            self.spec_name()@ == self@.name,
    {
    }

    /// Returns a reference to the `Field` name.
    pub fn name(&self) -> (r: &String)
        ensures
            r@ == self@.name,
            *r == self.spec_name(),
    {
        &self.name
    }

    /// Returns a reference to the `Field` datatype.
    pub fn data_type(&self) -> (r: &DataType)
        ensures
            r@ == self@.data_type,
    {
        &self.data_type
    }

    /// Sets the `Field` datatype.
    pub fn coerce(&mut self, dtype: DataType)
        ensures
            final(self)@ == (FieldView { name: old(self)@.name, data_type: dtype@ }),
    {
        self.data_type = dtype;
    }

    /// Sets the `Field` name.
    pub fn set_name(&mut self, name: String)
        ensures
            final(self)@ == (FieldView { name: name@, data_type: old(self)@.data_type }),
    {
        self.name = name;
    }
}

} // verus!
