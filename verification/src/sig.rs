//! The shape of a function under test: its parameter and return types, its
//! calling convention, and its name, together with the signature validation
//! that precedes any compilation.

use vstd::prelude::*;
use crate::outcome::res_view;

verus! {

/// The closed set of return types the harness can interpret.
#[derive(Debug)]
pub enum ValueType {
    /// A boolean type, whatever its bit width.
    Bool,
    /// 8-bit integer.
    I8,
    /// 16-bit integer.
    I16,
    /// 32-bit integer.
    I32,
    /// 64-bit integer.
    I64,
    /// 128-bit integer.
    I128,
    /// 32-bit floating point.
    F32,
    /// 64-bit floating point.
    F64,
    /// Any other type, carrying its rendered name for error reporting.
    Other(String),
}

/// The mathematical value of a `ValueType`.
pub enum TypeView {
    Bool,
    I8,
    I16,
    I32,
    I64,
    I128,
    F32,
    F64,
    Other(Seq<char>),
}

impl View for ValueType {
    type V = TypeView;

    open spec fn view(&self) -> TypeView {
        match self {
            ValueType::Bool => TypeView::Bool,
            ValueType::I8 => TypeView::I8,
            ValueType::I16 => TypeView::I16,
            ValueType::I32 => TypeView::I32,
            ValueType::I64 => TypeView::I64,
            ValueType::I128 => TypeView::I128,
            ValueType::F32 => TypeView::F32,
            ValueType::F64 => TypeView::F64,
            ValueType::Other(name) => TypeView::Other(name@),
        }
    }
}

impl Clone for ValueType {
    fn clone(&self) -> (r: Self)
        ensures
            r@ == self@,
    {
        match self {
            ValueType::Bool => ValueType::Bool,
            ValueType::I8 => ValueType::I8,
            ValueType::I16 => ValueType::I16,
            ValueType::I32 => ValueType::I32,
            ValueType::I64 => ValueType::I64,
            ValueType::I128 => ValueType::I128,
            ValueType::F32 => ValueType::F32,
            ValueType::F64 => ValueType::F64,
            ValueType::Other(name) => ValueType::Other(name.clone()),
        }
    }
}

/// True of the integer types, whose raw value is reported in hexadecimal.
pub open spec fn is_int_type(t: TypeView) -> bool {
    match t {
        TypeView::I8 | TypeView::I16 | TypeView::I32 | TypeView::I64 | TypeView::I128 => true,
        _ => false,
    }
}

/// True of the floating-point types, whose raw value is reported in decimal.
pub open spec fn is_float_type(t: TypeView) -> bool {
    t == TypeView::F32 || t == TypeView::F64
}

/// True of the types the harness can invoke a function for at all: boolean,
/// integer or floating point. Any other return type is reported as
/// unsupported without invoking the code.
pub open spec fn invocable(t: TypeView) -> bool {
    !(t matches TypeView::Other(_))
}

/// A calling convention tag. A function runs only under the host's default
/// convention, so all the harness ever does with these is compare them.
#[derive(Clone, Copy, Debug, PartialEq, Eq, Structural)]
pub enum CallConv {
    Fast,
    Tail,
    SystemV,
    WindowsFastcall,
    AppleAarch64,
    PreserveAll,
    Probestack,
    Winch,
}

/// What the harness reads of a function under test: its name, the types of
/// its parameters and returns, and its calling convention. The body itself
/// is opaque to the harness; it is handed to the compiler untouched.
pub struct FunctionInfo {
    pub name: String,
    pub params: Vec<ValueType>,
    pub returns: Vec<ValueType>,
    pub call_conv: CallConv,
}

/// The mathematical value of a `FunctionInfo`.
pub struct FnView {
    pub name: Seq<char>,
    pub params: Seq<TypeView>,
    pub returns: Seq<TypeView>,
    pub conv: CallConv,
}

impl View for FunctionInfo {
    type V = FnView;

    open spec fn view(&self) -> FnView {
        FnView {
            name: self.name@,
            params: self.params@.map_values(|t: ValueType| t@),
            returns: self.returns@.map_values(|t: ValueType| t@),
            conv: self.call_conv,
        }
    }
}

/// An accepted signature: no parameters and exactly one return value.
pub open spec fn valid_shape(f: FnView) -> bool {
    f.params.len() == 0 && f.returns.len() == 1
}

/// The error reported for a signature with parameters or without exactly
/// one return value.
pub open spec fn arity_msg() -> Seq<char> {
    "Functions must have a signature like: () -> ty"@
}

/// The error reported for a calling convention other than the host's
/// default.
pub open spec fn conv_msg() -> Seq<char> {
    "Functions only run on the host's default calling convention; remove the specified calling convention in the function signature to use the host's default."@
}

/// What signature validation decides: the shape is checked first, then the
/// calling convention; a signature passes if and only if it has no
/// parameters, exactly one return value, and the host's default convention.
pub open spec fn validation_outcome(f: FnView, host_default: CallConv) -> Result<(), Seq<char>> {
    if !valid_shape(f) {
        Result::Err(arity_msg())
    } else if f.conv != host_default {
        Result::Err(conv_msg())
    } else {
        Result::Ok(())
    }
}

/// Checks a function's signature against the harness's convention: no
/// parameters, exactly one return value, and the host's default calling
/// convention.
pub fn check_signature(f: &FunctionInfo, host_default: CallConv) -> (r: Result<(), String>)
    ensures
        res_view(r) == validation_outcome(f@, host_default),
{
    if !(f.params.len() == 0 && f.returns.len() == 1) {
        return Result::Err("Functions must have a signature like: () -> ty".to_owned());
    }
    if f.call_conv != host_default {
        return Result::Err(
            "Functions only run on the host's default calling convention; remove the specified calling convention in the function signature to use the host's default.".to_owned(),
        );
    }
    Result::Ok(())
}

} // verus!
