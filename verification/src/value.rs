//! Dynamically typed field values, as the rules see them.

use vstd::prelude::*;
use crate::field_map::FieldMap;

verus! {

/// One field's value.
///
/// A text, an integer, a boolean or null can be the subject of a rule. Every
/// other shape (a list, a nested record, a number that is no 64-bit integer)
/// is `Other`: present, but of no type that a rule on values accepts.
#[derive(Debug)]
pub enum Value {
    Null,
    Bool(bool),
    Int(i64),
    Text(String),
    Other,
}

/// The mathematical content of a [`Value`].
pub enum ValueView {
    Null,
    Bool(bool),
    Int(int),
    Text(Seq<char>),
    Other,
}

impl View for Value {
    type V = ValueView;

    open spec fn view(&self) -> ValueView {
        match *self {
            Value::Null => ValueView::Null,
            Value::Bool(b) => ValueView::Bool(b),
            Value::Int(i) => ValueView::Int(i as int),
            Value::Text(s) => ValueView::Text(s@),
            Value::Other => ValueView::Other,
        }
    }
}

impl Value {
    /// Whether the value is null.
    pub fn is_null(&self) -> (b: bool)
        ensures
            b == (self@ is Null),
    {
        match self {
            Value::Null => true,
            _ => false,
        }
    }
}

impl Clone for Value {
    fn clone(&self) -> (copy: Value)
        ensures
            copy@ == self@,
    {
        match self {
            Value::Null => Value::Null,
            Value::Bool(b) => Value::Bool(*b),
            Value::Int(i) => Value::Int(*i),
            Value::Text(s) => Value::Text(s.clone()),
            Value::Other => Value::Other,
        }
    }
}

/// The fields of an object-shaped input: a value for each field name.
pub type Record = FieldMap<Value>;

/// A caller's input, seen as dynamically typed values.
#[derive(Debug)]
pub enum Document {
    /// An object: named fields.
    Object(Record),
    /// Any other shape. It has no fields.
    Other,
}

impl Document {
    /// The fields that the input holds, each with the content of its value.
    pub open spec fn fields(&self) -> Map<Seq<char>, ValueView> {
        match *self {
            Document::Object(record) => record.map().map_values(|v: Value| v@),
            Document::Other => Map::empty(),
        }
    }
}

} // verus!
