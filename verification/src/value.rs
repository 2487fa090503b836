//! The dynamic value a typed lookup hands back, and the ordered
//! coercion that picks which type a value comes out as.

use vstd::prelude::*;

verus! {

/// A value read out of a parse result: a string, a 64-bit float given
/// by its bit pattern, or a boolean.
pub enum Value {
    Str(String),
    /// The IEEE 754 bit pattern of the numeric value.
    NumberBits(u64),
    Bool(bool),
}

/// The spec-level shape of a `Value`.
pub enum ValueView {
    Str(Seq<char>),
    NumberBits(u64),
    Bool(bool),
}

impl View for Value {
    type V = ValueView;

    open spec fn view(&self) -> ValueView {
        match self {
            Value::Str(s) => ValueView::Str(s@),
            Value::NumberBits(n) => ValueView::NumberBits(*n),
            Value::Bool(b) => ValueView::Bool(*b),
        }
    }
}

/// The ordered trial over the three typed lookup outcomes: the string
/// lookup is taken first, then the numeric one, then the boolean one;
/// the first that did not error decides, and when all three error the
/// trial errors.
pub open spec fn coerce_spec(
    s: Result<Option<Seq<char>>, ()>,
    n: Result<Option<u64>, ()>,
    b: Result<Option<bool>, ()>,
) -> Result<Option<ValueView>, ()> {
    match s {
        Ok(Some(x)) => Ok(Some(ValueView::Str(x))),
        Ok(None) => Ok(None),
        Err(_) => match n {
            Ok(Some(x)) => Ok(Some(ValueView::NumberBits(x))),
            Ok(None) => Ok(None),
            Err(_) => match b {
                Ok(Some(x)) => Ok(Some(ValueView::Bool(x))),
                Ok(None) => Ok(None),
                Err(_) => Err(()),
            },
        },
    }
}

} // verus!
