//! Scalar values as they stand in a tuple of a `VALUES` list.

use vstd::prelude::*;

verus! {

/// One scalar of a tuple.
#[derive(Clone, Debug)]
pub enum Value {
    Int(i64),
    Text(String),
    Bool(bool),
    Null,
}

/// What a [`Value`] holds, with text as a sequence of characters.
pub enum ValueView {
    Int(i64),
    Text(Seq<char>),
    Bool(bool),
    Null,
}

impl View for Value {
    type V = ValueView;

    open spec fn view(&self) -> ValueView {
        match self {
            Value::Int(n) => ValueView::Int(*n),
            Value::Text(s) => ValueView::Text(s@),
            Value::Bool(b) => ValueView::Bool(*b),
            Value::Null => ValueView::Null,
        }
    }
}

/// A tuple seen as the sequence of what its values hold.
pub open spec fn tuple_view(t: Seq<Value>) -> Seq<ValueView> {
    Seq::new(t.len(), |i: int| t[i]@)
}

/// A list of tuples seen as the sequence of their views.
pub open spec fn tuples_view(ts: Seq<Vec<Value>>) -> Seq<Seq<ValueView>> {
    Seq::new(ts.len(), |i: int| tuple_view(ts[i]@))
}

} // verus!
