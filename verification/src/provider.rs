use vstd::prelude::*;
use crate::command::TypedValue;

verus! {

/// A named external source of typed properties, as the bridge uses it.
///
/// What a provider answers and how it takes a write is its own business. The
/// two relations give that behaviour a name, so that the bridge can say which
/// property it asked for and which value it handed over; an implementation
/// that claims nothing about itself lets both relations hold always.
pub trait InputProvider {
    /// `answer` is what this provider may give for `property` when asked
    /// with `flag`, leaving it as `after`.
    open spec fn answers(&self, property: Seq<char>, flag: bool, answer: Option<TypedValue>, after: &Self) -> bool {
        true
    }

    /// `after` is how this provider may be left by a write of `value` to
    /// `property`.
    open spec fn accepts(&self, property: Seq<char>, value: TypedValue, after: &Self) -> bool {
        true
    }

    /// The current value of `property`, if the provider has one.
    fn get(&mut self, property: &str, flag: bool) -> (answer: Option<TypedValue>)
        ensures
            old(self).answers(property@, flag, answer, final(self)),
    ;

    /// Writes `value` to `property`.
    fn set_property(&mut self, property: &str, value: &TypedValue)
        ensures
            old(self).accepts(property@, *value, final(self)),
    ;
}

/// The flag with which the bridge asks a provider for a property.
pub const QUERY_FLAG: bool = false;

/// What a script reads as a float from a provider's answer: the stored bit
/// pattern where the answer is a scalar float, and zero otherwise.
pub open spec fn float_reading(answer: Option<TypedValue>) -> u64 {
    match answer {
        Some(TypedValue::Float(bits)) => bits,
        _ => 0,
    }
}

/// What a script reads as an integer from a provider's answer: the stored
/// number where the answer is a scalar integer, and zero otherwise.
pub open spec fn int_reading(answer: Option<TypedValue>) -> i64 {
    match answer {
        Some(TypedValue::Int(number)) => number as i64,
        _ => 0,
    }
}

/// What a script reads as a boolean from a provider's answer: the stored
/// flag where the answer is a boolean, and `false` otherwise.
pub open spec fn bool_reading(answer: Option<TypedValue>) -> bool {
    match answer {
        Some(TypedValue::Bool(flag)) => flag,
        _ => false,
    }
}

/// Reads a provider's answer as a float, given as its bit pattern.
pub fn read_float(answer: Option<TypedValue>) -> (bits: u64)
    ensures
        bits == float_reading(answer),
{
    match answer {
        Some(TypedValue::Float(bits)) => bits,
        _ => 0,
    }
}

/// Reads a provider's answer as an integer.
pub fn read_int(answer: Option<TypedValue>) -> (number: i64)
    ensures
        number == int_reading(answer),
{
    match answer {
        Some(TypedValue::Int(number)) => number as i64,
        _ => 0,
    }
}

/// Reads a provider's answer as a boolean.
pub fn read_bool(answer: Option<TypedValue>) -> (flag: bool)
    ensures
        flag == bool_reading(answer),
{
    match answer {
        Some(TypedValue::Bool(flag)) => flag,
        _ => false,
    }
}

} // verus!
