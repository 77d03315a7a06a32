//! The dynamic value that the scripting side hands to a native function, the
//! identities of the concrete types a native signature can mention, and the
//! errors an invocation can end with.
use vstd::prelude::*;

verus! {

/// Identity of a concrete native type, as far as registration cares about it:
/// the closed set of parameter and return types a registered function may use.
///
/// `Str` is an owned string parameter or return; `StrRef` is a string taken by
/// reference (borrowed from the argument slot for the duration of one call).
#[derive(Clone, Copy, PartialEq, Eq, Structural, Debug)]
pub enum TypeKind {
    Boolean,
    Str,
    StrRef,
    Usize,
    Int,
}

/// The scripting environment's single runtime value type: a tagged union over
/// booleans, strings and integers.
#[derive(Debug)]
pub enum YarnValue {
    Boolean(bool),
    Str(String),
    Number(i64),
}

impl YarnValue {
    /// The dynamic kind of this value.
    pub open spec fn kind(&self) -> TypeKind {
        match self {
            YarnValue::Boolean(_) => TypeKind::Boolean,
            YarnValue::Str(_) => TypeKind::Str,
            YarnValue::Number(_) => TypeKind::Int,
        }
    }

    /// The characters of a string value; empty for the other kinds.
    pub open spec fn as_str_seq(&self) -> Seq<char> {
        match self {
            YarnValue::Str(s) => s@,
            _ => Seq::empty(),
        }
    }

    /// Reports the dynamic kind of this value.
    pub fn kind_of(&self) -> (k: TypeKind)
        ensures
            k == self.kind(),
    {
        match self {
            YarnValue::Boolean(_) => TypeKind::Boolean,
            YarnValue::Str(_) => TypeKind::Str,
            YarnValue::Number(_) => TypeKind::Int,
        }
    }
}

impl Clone for YarnValue {
    fn clone(&self) -> (r: Self)
        ensures
            r == *self,
    {
        match self {
            YarnValue::Boolean(b) => YarnValue::Boolean(*b),
            YarnValue::Str(s) => YarnValue::Str(s.clone()),
            YarnValue::Number(n) => YarnValue::Number(*n),
        }
    }
}

impl PartialEq for YarnValue {
    fn eq(&self, other: &Self) -> (r: bool) {
        match (self, other) {
            (YarnValue::Boolean(a), YarnValue::Boolean(b)) => *a == *b,
            (YarnValue::Str(a), YarnValue::Str(b)) => *a == *b,
            (YarnValue::Number(a), YarnValue::Number(b)) => *a == *b,
            _ => false,
        }
    }
}

impl vstd::std_specs::cmp::PartialEqSpecImpl for YarnValue {
    open spec fn obeys_eq_spec() -> bool {
        true
    }

    open spec fn eq_spec(&self, other: &YarnValue) -> bool {
        match (self, other) {
            (YarnValue::Boolean(a), YarnValue::Boolean(b)) => a == b,
            (YarnValue::Str(a), YarnValue::Str(b)) => a@ == b@,
            (YarnValue::Number(a), YarnValue::Number(b)) => a == b,
            _ => false,
        }
    }
}

impl Eq for YarnValue {

}

/// Why an invocation failed. Both variants are contract violations on the
/// caller's side: a correctly validated call site never produces either.
#[derive(Clone, Copy, PartialEq, Eq, Structural, Debug)]
pub enum YarnFnError {
    /// The call supplied a different number of values than the function's
    /// declared arity.
    ArityMismatch { expected: usize, got: usize },
    /// A value's dynamic kind cannot be converted to the concrete type the
    /// parameter slot requires.
    KindMismatch { expected: TypeKind, found: TypeKind },
}

/// A native return type: a concrete type whose values convert into a dynamic
/// value once the native function has produced its result.
pub trait IntoYarnValueFromNonYarnValue: Sized {
    /// Whether this result is representable as a dynamic value.
    spec fn fits(self) -> bool;

    /// The dynamic value this result converts into.
    spec fn to_value(self) -> YarnValue;

    /// The identity of this return type.
    spec fn out_kind() -> TypeKind;

    /// Converts the native result into a dynamic value.
    fn into_untyped_value(self) -> (r: YarnValue)
        requires
            self.fits(),
        ensures
            r == self.to_value(),
    ;

    /// Reports the identity of this return type.
    fn output_kind() -> (k: TypeKind)
        ensures
            k == Self::out_kind(),
    ;
}

impl IntoYarnValueFromNonYarnValue for bool {
    open spec fn fits(self) -> bool {
        true
    }

    open spec fn to_value(self) -> YarnValue {
        YarnValue::Boolean(self)
    }

    open spec fn out_kind() -> TypeKind {
        TypeKind::Boolean
    }

    fn into_untyped_value(self) -> (r: YarnValue) {
        YarnValue::Boolean(self)
    }

    fn output_kind() -> (k: TypeKind) {
        TypeKind::Boolean
    }
}

impl IntoYarnValueFromNonYarnValue for String {
    open spec fn fits(self) -> bool {
        true
    }

    open spec fn to_value(self) -> YarnValue {
        YarnValue::Str(self)
    }

    open spec fn out_kind() -> TypeKind {
        TypeKind::Str
    }

    fn into_untyped_value(self) -> (r: YarnValue) {
        YarnValue::Str(self)
    }

    fn output_kind() -> (k: TypeKind) {
        TypeKind::Str
    }
}

impl IntoYarnValueFromNonYarnValue for i64 {
    open spec fn fits(self) -> bool {
        true
    }

    open spec fn to_value(self) -> YarnValue {
        YarnValue::Number(self)
    }

    open spec fn out_kind() -> TypeKind {
        TypeKind::Int
    }

    fn into_untyped_value(self) -> (r: YarnValue) {
        YarnValue::Number(self)
    }

    fn output_kind() -> (k: TypeKind) {
        TypeKind::Int
    }
}

impl IntoYarnValueFromNonYarnValue for usize {
    open spec fn fits(self) -> bool {
        self <= i64::MAX
    }

    open spec fn to_value(self) -> YarnValue {
        YarnValue::Number(self as i64)
    }

    open spec fn out_kind() -> TypeKind {
        TypeKind::Usize
    }

    fn into_untyped_value(self) -> (r: YarnValue) {
        YarnValue::Number(self as i64)
    }

    fn output_kind() -> (k: TypeKind) {
        TypeKind::Usize
    }
}

} // verus!
