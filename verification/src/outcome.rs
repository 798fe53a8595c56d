//! The test convention: how the single value returned by an invoked function
//! is interpreted as a pass, a fail, or a descriptive error.

use vstd::prelude::*;
use vstd::string::StringExecFns;
use crate::hexfmt::{hex_upper, spec_hex};
use crate::sig::{is_float_type, is_int_type, TypeView};

verus! {

/// The raw value an invocation returned, already carried across the
/// machine-code boundary: a boolean as itself, an integer widened to its
/// bits, a float as its decimal rendering.
#[derive(Clone, Debug)]
pub enum RawValue {
    Bool(bool),
    Int(u128),
    Float(String),
}

/// The mathematical value of a `RawValue`.
pub enum RawView {
    Bool(bool),
    Int(u128),
    Float(Seq<char>),
}

impl View for RawValue {
    type V = RawView;

    open spec fn view(&self) -> RawView {
        match self {
            RawValue::Bool(b) => RawView::Bool(*b),
            RawValue::Int(v) => RawView::Int(*v),
            RawValue::Float(t) => RawView::Float(t@),
        }
    }
}

/// A raw value of the kind the declared return type calls for: a boolean
/// for a boolean type, widened bits for an integer type, a decimal
/// rendering for a floating-point type.
pub open spec fn kind_matches(t: TypeView, r: RawView) -> bool {
    match r {
        RawView::Bool(_) => t == TypeView::Bool,
        RawView::Int(_) => is_int_type(t),
        RawView::Float(_) => is_float_type(t),
    }
}

/// The mathematical value of a run's outcome.
pub open spec fn res_view(r: Result<(), String>) -> Result<(), Seq<char>> {
    match r {
        Result::Ok(u) => Result::Ok(u),
        Result::Err(m) => Result::Err(m@),
    }
}

/// The error reported when a function under test returns a boolean `false`.
pub open spec fn failed_msg(name: Seq<char>) -> Seq<char> {
    "Failed: "@ + name
}

/// The error reported when a function under test returns an integer: the
/// raw value in uppercase hexadecimal.
pub open spec fn int_msg(v: u128) -> Seq<char> {
    "Function return type is not boolean, return value is 0x"@ + spec_hex(v)
}

/// The error reported when a function under test returns a float: the raw
/// value rendered in decimal.
pub open spec fn float_msg(text: Seq<char>) -> Seq<char> {
    "Function return type is not boolean, return value is "@ + text
}

/// The error reported for a return type the harness has no interpretation
/// rule for.
pub open spec fn unsupported_msg(ty_name: Seq<char>) -> Seq<char> {
    "Function return type not supported for debug-printing yet: "@ + ty_name
}

/// What interpretation decides: a boolean `true` passes; a boolean `false`
/// fails, naming the function; any integer or float is an error carrying
/// the raw value.
pub open spec fn interpret_outcome(raw: RawView, name: Seq<char>) -> Result<(), Seq<char>> {
    match raw {
        RawView::Bool(b) => if b {
            Result::Ok(())
        } else {
            Result::Err(failed_msg(name))
        },
        RawView::Int(v) => Result::Err(int_msg(v)),
        RawView::Float(t) => Result::Err(float_msg(t)),
    }
}

/// Builds the error message for a boolean `false` return.
pub fn failed_message(name: &String) -> (s: String)
    ensures
        s@ == failed_msg(name@),
{
    let mut s = "Failed: ".to_owned();
    s.append(name.as_str());
    s
}

/// Builds the error message for an integer return, in uppercase
/// hexadecimal with a `0x` prefix.
pub fn int_error_message(v: u128) -> (s: String)
    ensures
        s@ == int_msg(v),
{
    let mut s = "Function return type is not boolean, return value is 0x".to_owned();
    let digits = hex_upper(v);
    s.append(digits.as_str());
    s
}

/// Builds the error message for a floating-point return, embedding its
/// decimal rendering.
pub fn float_error_message(text: &String) -> (s: String)
    ensures
        s@ == float_msg(text@),
{
    let mut s = "Function return type is not boolean, return value is ".to_owned();
    s.append(text.as_str());
    s
}

/// Builds the error message for a return type without an interpretation
/// rule.
pub fn unsupported_message(ty_name: &String) -> (s: String)
    ensures
        s@ == unsupported_msg(ty_name@),
{
    let mut s = "Function return type not supported for debug-printing yet: ".to_owned();
    s.append(ty_name.as_str());
    s
}

/// Interprets the raw value an invocation returned: `true` is a pass,
/// `false` a fail naming the function, and any integer or float an error
/// carrying the raw value.
pub fn interpret_returned(raw: RawValue, name: &String) -> (r: Result<(), String>)
    ensures
        res_view(r) == interpret_outcome(raw@, name@),
{
    match raw {
        RawValue::Bool(b) => if b {
            Result::Ok(())
        } else {
            Result::Err(failed_message(name))
        },
        RawValue::Int(v) => Result::Err(int_error_message(v)),
        RawValue::Float(t) => Result::Err(float_error_message(&t)),
    }
}

} // verus!
