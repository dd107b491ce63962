use vstd::prelude::*;
use crate::json::AtomModel;
use crate::severity::Level;
use crate::trace::AttachedContext;

verus! {

/// A field value as recorded by the tracing framework.
#[derive(Clone, Debug, PartialEq)]
pub enum FieldValue {
    I64(i64),
    U64(u64),
    Bool(bool),
    Str(String),
    /// A value recorded through its debug or display text.
    Debug(String),
}

/// One recorded field of an event or a span.
#[derive(Clone, Debug, PartialEq)]
pub struct Field {
    pub name: String,
    pub value: FieldValue,
}

impl Field {
    pub fn new(name: String, value: FieldValue) -> (r: Field)
        ensures
            r.name == name,
            r.value == value,
    {
        Field { name, value }
    }
}

/// The JSON value a field is written as: numbers as numbers, booleans as
/// booleans, strings and debug text as strings.
pub open spec fn field_atom(v: FieldValue) -> AtomModel {
    match v {
        FieldValue::I64(n) => AtomModel::Int(n as int),
        FieldValue::U64(n) => AtomModel::Int(n as int),
        FieldValue::Bool(b) => AtomModel::Bool(b),
        FieldValue::Str(s) => AtomModel::Text(s@),
        FieldValue::Debug(s) => AtomModel::Text(s@),
    }
}

/// A span in scope: its name, its recorded fields, and the distributed-tracing
/// context attached to it, if any.
#[derive(Clone, Debug, PartialEq)]
pub struct SpanData {
    pub name: String,
    pub fields: Vec<Field>,
    pub attached: Option<AttachedContext>,
}

/// An event to format.
#[derive(Clone, Debug, PartialEq)]
pub struct EventData {
    pub level: Level,
    pub target: String,
    pub file: Option<String>,
    pub line: Option<u32>,
    pub fields: Vec<Field>,
}

/// The spans in scope for an event, innermost first: those of the span the
/// event declares as its parent where there is one, else those of the
/// framework's current span, else none.
pub fn select_scope(declared: Option<Vec<SpanData>>, current: Option<Vec<SpanData>>) -> (r: Vec<
    SpanData,
>)
    ensures
        declared matches Some(d) ==> r == d,
        declared is None && current is Some ==> r == current->0,
        declared is None && current is None ==> r@.len() == 0,
{
    match declared {
        Some(d) => d,
        None => match current {
            Some(c) => c,
            None => Vec::new(),
        },
    }
}

} // verus!
