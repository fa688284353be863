//! The dynamic values exchanged with the embedded script, as the
//! marshalling layer sees them.
use vstd::prelude::*;

verus! {

/// The concrete kind of an opaque native object. The script holds such
/// objects only by reference and never interprets them; every retrieval
/// must name the kind it expects and fails when the kinds differ.
#[derive(Clone, Copy, PartialEq, Eq, Structural, Debug)]
pub enum NativeKind {
    /// A colour the host draws with.
    Color,
    /// A set of texture-drawing parameters.
    DrawParams,
    /// A handle to a requested or loaded sound.
    SoundHandle,
    /// A handle to a requested or loaded texture.
    TextureHandle,
}

/// One dynamic value of the script engine. Numeric payloads carry the
/// bit pattern of the script's 64-bit float: the bridge only checks
/// kinds and routes the bits, the host converts at its own boundary.
/// An opaque native object is carried as its kind together with the
/// index of the payload in the host's table for that kind.
#[derive(PartialEq, Debug)]
pub enum Value {
    /// A number; the field is the bit pattern of the 64-bit float.
    Num(u64),
    /// A boolean.
    Bool(bool),
    /// A piece of text.
    Text(String),
    /// The unit value.
    Unit,
    /// An opaque native object of the given kind, by table index.
    Native(NativeKind, u64),
}

impl Clone for Value {
    /// A clone is the same value.
    fn clone(&self) -> (res: Self)
        ensures
            res == *self,
    {
        match self {
            Value::Num(bits) => Value::Num(*bits),
            Value::Bool(b) => Value::Bool(*b),
            Value::Text(s) => Value::Text(s.clone()),
            Value::Unit => Value::Unit,
            Value::Native(k, idx) => Value::Native(*k, *idx),
        }
    }
}

impl Value {
    /// True exactly when this value is an opaque native object of kind `k`.
    pub fn is_native_of(&self, k: NativeKind) -> (r: bool)
        ensures
            r <==> (self matches Value::Native(k2, _) && k2 == k),
    {
        match self {
            Value::Native(k2, _) => *k2 == k,
            _ => false,
        }
    }
}

/// The native kind a registered parameter asks for. `F64`, `F32` and
/// `Uint` all accept a numeric value and hand its bit pattern through;
/// the descriptor tells the host which narrowing to apply on its side.
#[derive(Clone, Copy, PartialEq, Eq, Structural, Debug)]
pub enum ParamKind {
    /// A 64-bit float.
    F64,
    /// A 32-bit float.
    F32,
    /// A boolean.
    Bool,
    /// An unsigned integer.
    Uint,
    /// UTF-8 text.
    Text,
    /// An opaque native object of exactly this kind.
    Native(NativeKind),
}

/// One argument after extraction: the native value a handler receives.
#[derive(Clone, PartialEq, Debug)]
pub enum Extracted {
    /// The bit pattern of a numeric argument (for `F64`, `F32`, `Uint`).
    Num(u64),
    /// A boolean argument.
    Bool(bool),
    /// A text argument.
    Text(String),
    /// The table index of an opaque native object argument.
    Obj(u64),
    /// An argument passed through unconverted (variadic functions).
    Raw(Value),
}

/// Why a native call was rejected at the call boundary, before the
/// handler could run.
#[derive(Clone, PartialEq, Debug)]
pub enum CallError {
    /// No function is registered under the requested name.
    UnknownFunction,
    /// The argument count differs from the declared arity.
    ArityMismatch { expected: usize, got: usize },
    /// The argument at `index` cannot convert to the declared kind.
    TypeMismatch { index: usize, expected: ParamKind },
    /// The argument at `index` is an opaque object of the wrong kind.
    WrongNativeKind { index: usize, expected: NativeKind, found: NativeKind },
}

} // verus!
