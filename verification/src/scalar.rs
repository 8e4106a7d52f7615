//! The dynamically tagged scalar values that the host hands across the call
//! boundary: each carries a runtime type tag (integer, real, boolean, or
//! string) and its payload.  A real number is carried as its IEEE-754 bit
//! pattern; this layer routes it without interpreting it.

use vstd::prelude::*;

verus! {

/// A tagged scalar from the untyped call boundary.
#[derive(Debug, Clone)]
pub enum TaggedValue {
    /// An integer-tagged value.
    Int(i32),
    /// A real-tagged value, carried as the bit pattern of the number.
    Real(u64),
    /// A boolean-tagged value.
    Bool(bool),
    /// A string-tagged value.
    Text(String),
}

/// The mathematical model of a tagged scalar: the same tags, with the
/// string payload abstracted to its character sequence.
pub ghost enum ScalarModel {
    Int(i32),
    Real(u64),
    Bool(bool),
    Text(Seq<char>),
}

impl View for TaggedValue {
    type V = ScalarModel;

    open spec fn view(&self) -> ScalarModel {
        match self {
            TaggedValue::Int(i) => ScalarModel::Int(*i),
            TaggedValue::Real(bits) => ScalarModel::Real(*bits),
            TaggedValue::Bool(b) => ScalarModel::Bool(*b),
            TaggedValue::Text(s) => ScalarModel::Text(s@),
        }
    }
}

/// The model of a labelled entry list: each (label, value) pair viewed as
/// (character sequence, scalar model).
pub open spec fn entries_model(s: Seq<(String, TaggedValue)>) -> Seq<(Seq<char>, ScalarModel)> {
    s.map_values(|e: (String, TaggedValue)| (e.0@, e.1@))
}

} // verus!
