//! The typed extraction adapter: converts one dynamic value into the
//! native value a registered parameter asks for, or fails with a typed
//! error naming the argument's position and the expected kind.
use vstd::prelude::*;
use crate::value::CallError;
use crate::value::Extracted;
use crate::value::NativeKind;
use crate::value::ParamKind;
use crate::value::Value;

verus! {

/// True exactly when the dynamic value `v` converts to the kind `k`.
pub open spec fn extract_ok(v: Value, k: ParamKind) -> bool {
    match k {
        ParamKind::F64 => v is Num,
        ParamKind::F32 => v is Num,
        ParamKind::Uint => v is Num,
        ParamKind::Bool => v is Bool,
        ParamKind::Text => v is Text,
        ParamKind::Native(nk) => v matches Value::Native(found, _) && found == nk,
    }
}

/// The native value that extracting `v` at kind `k` produces.
pub open spec fn spec_extracted(v: Value, k: ParamKind) -> Extracted
    recommends
        extract_ok(v, k),
{
    match v {
        Value::Num(bits) => Extracted::Num(bits),
        Value::Bool(b) => Extracted::Bool(b),
        Value::Text(s) => Extracted::Text(s),
        Value::Native(_, idx) => Extracted::Obj(idx),
        Value::Unit => Extracted::Raw(v),
    }
}

/// The error that extracting `v` at kind `k` produces for the argument
/// at position `index`: `WrongNativeKind` when an opaque object of
/// another kind was handed where an opaque object was expected,
/// `TypeMismatch` in every other case.
pub open spec fn spec_extract_err(v: Value, k: ParamKind, index: usize) -> CallError
    recommends
        !extract_ok(v, k),
{
    match (v, k) {
        (Value::Native(found, _), ParamKind::Native(expected)) => CallError::WrongNativeKind {
            index,
            expected,
            found,
        },
        _ => CallError::TypeMismatch { index, expected: k },
    }
}

/// Convert the argument at position `index` to the kind `k`: the
/// conversion succeeds exactly when the value has that kind, the
/// source value is never changed, and a failure identifies the
/// position and the expected kind.
pub fn extract(v: &Value, k: ParamKind, index: usize) -> (r: Result<Extracted, CallError>)
    ensures
        extract_ok(*v, k) ==> r == Ok::<Extracted, CallError>(spec_extracted(*v, k)),
        !extract_ok(*v, k) ==> r == Err::<Extracted, CallError>(spec_extract_err(*v, k, index)),
{
    match k {
        ParamKind::F64 | ParamKind::F32 | ParamKind::Uint => match v {
            Value::Num(bits) => Ok(Extracted::Num(*bits)),
            _ => Err(CallError::TypeMismatch { index, expected: k }),
        },
        ParamKind::Bool => match v {
            Value::Bool(b) => Ok(Extracted::Bool(*b)),
            _ => Err(CallError::TypeMismatch { index, expected: k }),
        },
        ParamKind::Text => match v {
            Value::Text(s) => Ok(Extracted::Text(s.clone())),
            _ => Err(CallError::TypeMismatch { index, expected: k }),
        },
        ParamKind::Native(nk) => match v {
            Value::Native(found, idx) => {
                if *found == nk {
                    Ok(Extracted::Obj(*idx))
                } else {
                    Err(CallError::WrongNativeKind { index, expected: nk, found: *found })
                }
            },
            _ => Err(CallError::TypeMismatch { index, expected: k }),
        },
    }
}

} // verus!
