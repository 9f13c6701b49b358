//! Reading an attribute's JSON value as a string.
use vstd::prelude::*;

verus! {

/// The JSON value of an attribute, as far as string conversion looks at it.
pub enum AttrJsonValue {
    /// A JSON string.
    String(String),
    /// Any other JSON value.
    NotString,
}

/// An attribute value that was expected to be a string (an input error).
#[derive(PartialEq, Eq, Structural, Clone, Copy, Debug)]
pub struct ExpectedStringError {}

impl ExpectedStringError {
    /// The error's message.
    pub fn message(&self) -> (r: &'static str)
        ensures
            r@ == "Expected a string, did not get one"@,
    {
        "Expected a string, did not get one"
    }
}

/// The attribute's value as a string: a JSON string is returned as is; anything else is
/// an input error.
pub fn value_to_string(value: AttrJsonValue) -> (r: Result<String, ExpectedStringError>)
    ensures
        match value {
            AttrJsonValue::String(s) => r matches Ok(t) && t@ == s@,
            AttrJsonValue::NotString => r is Err,
        },
{
    match value {
        AttrJsonValue::String(s) => Ok(s),
        AttrJsonValue::NotString => Err(ExpectedStringError {}),
    }
}

} // verus!
