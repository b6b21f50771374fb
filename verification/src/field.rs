//! Fields: the named, already rendered values attached to spans and events.

use vstd::prelude::*;

verus! {

/// One field of a span or an event: its name and the debug rendering of its
/// value.
#[derive(Clone, Debug, PartialEq, Eq)]
pub struct Field {
    pub name: String,
    pub value: String,
}

/// The text of a [`Field`].
pub struct FieldText {
    pub name: Seq<char>,
    pub value: Seq<char>,
}

impl View for Field {
    type V = FieldText;

    open spec fn view(&self) -> FieldText {
        FieldText { name: self.name@, value: self.value@ }
    }
}

/// The texts of a run of fields, in the order presented.
pub open spec fn field_texts(fields: Seq<Field>) -> Seq<FieldText> {
    Seq::new(fields.len(), |i: int| fields[i]@)
}

impl Field {
    /// A field with the given name and rendered value.
    pub fn new(name: &str, value: &str) -> (field: Field)
        ensures
            field@.name == name@,
            field@.value == value@,
    {
        Field { name: name.to_owned(), value: value.to_owned() }
    }
}

} // verus!
