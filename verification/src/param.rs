//! The extraction protocol: how one dynamic value becomes the one concrete
//! argument a parameter slot expects, either as an owned value or as a view
//! borrowed from the slot for the remainder of the call.
use crate::value::TypeKind;
use crate::value::YarnFnError;
use crate::value::YarnValue;
use vstd::prelude::*;

verus! {

/// An owned intermediate produced by converting a dynamic value to one of the
/// concrete parameter types. A borrowed parameter is served by a view into the
/// stored intermediate (a string slice into the owned string).
#[derive(Debug)]
pub enum ConvertedValue {
    Bool(bool),
    Str(String),
    Usize(usize),
    Int(i64),
}

/// Whether a dynamic value can be converted to the concrete type named by
/// `target`. Strings serve both the owned and the borrowed string parameter;
/// a number serves the unsigned size type only when it is in range.
pub open spec fn accepts_as(target: TypeKind, v: YarnValue) -> bool {
    match target {
        TypeKind::Boolean => v is Boolean,
        TypeKind::Str => v is Str,
        TypeKind::StrRef => v is Str,
        TypeKind::Usize => v matches YarnValue::Number(n) && 0 <= n <= usize::MAX,
        TypeKind::Int => v is Number,
    }
}

/// The intermediate that converting `v` to the type named by `target` yields,
/// meaningful when `accepts_as(target, v)` holds.
pub open spec fn converted_as(target: TypeKind, v: YarnValue) -> ConvertedValue {
    match target {
        TypeKind::Boolean => ConvertedValue::Bool(v->Boolean_0),
        TypeKind::Str => ConvertedValue::Str(v->Str_0),
        TypeKind::StrRef => ConvertedValue::Str(v->Str_0),
        TypeKind::Usize => ConvertedValue::Usize(v->Number_0 as usize),
        TypeKind::Int => ConvertedValue::Int(v->Number_0),
    }
}

/// A per-call container for exactly one dynamic value. The value is converted
/// at most once into its target concrete type; after an owned extraction the
/// slot is empty, so a second extraction is ruled out by contract rather than
/// detected at run time.
#[derive(Debug)]
pub struct YarnValueWrapper {
    pub raw: Option<YarnValue>,
    pub converted: Option<ConvertedValue>,
}

impl From<YarnValue> for YarnValueWrapper {
    /// Wraps one dynamic value into a fresh, unconverted slot.
    fn from(value: YarnValue) -> (r: Self) {
        YarnValueWrapper { raw: Some(value), converted: None }
    }
}

impl vstd::std_specs::convert::FromSpecImpl<YarnValue> for YarnValueWrapper {
    open spec fn obeys_from_spec() -> bool {
        true
    }

    open spec fn from_spec(value: YarnValue) -> Self {
        YarnValueWrapper { raw: Some(value), converted: None }
    }
}

impl YarnValueWrapper {
    /// Converts the held dynamic value into the concrete type named by
    /// `target`, storing the owned intermediate in the slot. Succeeds exactly
    /// when the value's kind matches the target; on failure the slot is left
    /// as it was. The slot must not have been converted yet.
    pub fn convert(&mut self, target: TypeKind) -> (r: Result<(), YarnFnError>)
        requires
            old(self).raw is Some,
        ensures
            r is Ok <==> accepts_as(target, old(self).raw->0),
            r is Ok ==> final(self).raw is None && final(self).converted == Some(
                converted_as(target, old(self).raw->0),
            ),
            r matches Err(e) ==> *final(self) == *old(self) && e == (YarnFnError::KindMismatch {
                expected: target,
                found: old(self).raw->0.kind(),
            }),
    {
        let raw = self.raw.take().unwrap();
        match (target, raw) {
            (TypeKind::Boolean, YarnValue::Boolean(b)) => {
                self.converted = Some(ConvertedValue::Bool(b));
                Ok(())
            },
            (TypeKind::Str, YarnValue::Str(s)) => {
                self.converted = Some(ConvertedValue::Str(s));
                Ok(())
            },
            (TypeKind::StrRef, YarnValue::Str(s)) => {
                self.converted = Some(ConvertedValue::Str(s));
                Ok(())
            },
            (TypeKind::Usize, YarnValue::Number(n)) => {
                if n >= 0 && n as u128 <= usize::MAX as u128 {
                    self.converted = Some(ConvertedValue::Usize(n as usize));
                    Ok(())
                } else {
                    self.raw = Some(YarnValue::Number(n));
                    Err(YarnFnError::KindMismatch { expected: target, found: TypeKind::Int })
                }
            },
            (TypeKind::Int, YarnValue::Number(n)) => {
                self.converted = Some(ConvertedValue::Int(n));
                Ok(())
            },
            (t, v) => {
                let found = v.kind_of();
                self.raw = Some(v);
                Err(YarnFnError::KindMismatch { expected: t, found })
            },
        }
    }
}

/// A concrete type that can serve as an owned native parameter: it names its
/// type identity and extracts itself from a slot, consuming the slot's value.
pub trait YarnFnParam: Sized {
    /// The identity of this parameter type.
    spec fn param_kind() -> TypeKind;

    /// Whether a dynamic value converts to this parameter type.
    spec fn accepts_value(v: YarnValue) -> bool;

    /// The concrete argument a dynamic value converts to, meaningful when
    /// `accepts_value(v)` holds.
    spec fn of_value(v: YarnValue) -> Self;

    /// Reports the identity of this parameter type.
    fn declared_kind() -> (k: TypeKind)
        ensures
            k == Self::param_kind(),
    ;

    /// Extracts the owned concrete argument from a fresh slot. Succeeds
    /// exactly when the slot's value converts to this type; the slot is
    /// emptied by success and left as it was by failure.
    fn retrieve(value: &mut YarnValueWrapper) -> (r: Result<Self, YarnFnError>)
        requires
            old(value).raw is Some,
        ensures
            r is Ok <==> Self::accepts_value(old(value).raw->0),
            r matches Ok(p) ==> p == Self::of_value(old(value).raw->0) && final(value).raw is None
                && final(value).converted is None,
            r matches Err(e) ==> *final(value) == *old(value) && e == (YarnFnError::KindMismatch {
                expected: Self::param_kind(),
                found: old(value).raw->0.kind(),
            }),
    ;
}

/// The borrowed extraction strategy: the slot converts its value into an owned
/// string it keeps, and the native function receives a view into that string,
/// valid for the remainder of the call.
pub struct ResRef<'a> {
    pub value: &'a str,
}

impl<'a> ResRef<'a> {
    /// Converts the slot's value and borrows the resulting string view from
    /// the slot. Succeeds exactly when the slot holds a string value; on
    /// failure the slot is left as it was.
    pub fn retrieve(value: &'a mut YarnValueWrapper) -> (r: Result<ResRef<'a>, YarnFnError>)
        requires
            old(value).raw is Some,
        ensures
            r is Ok <==> old(value).raw->0 is Str,
            r matches Ok(rr) ==> rr.value@ == old(value).raw->0.as_str_seq()
                && final(value).raw is None,
            r matches Err(e) ==> *final(value) == *old(value) && e == (YarnFnError::KindMismatch {
                expected: TypeKind::StrRef,
                found: old(value).raw->0.kind(),
            }),
    {
        match value.convert(TypeKind::StrRef) {
            Ok(()) => {},
            Err(e) => {
                return Err(e);
            },
        }
        match &value.converted {
            Some(ConvertedValue::Str(s)) => Ok(ResRef { value: s.as_str() }),
            _ => {
                proof {
                    assert(false);
                }
                Err(
                    YarnFnError::KindMismatch {
                        expected: TypeKind::StrRef,
                        found: TypeKind::StrRef,
                    },
                )
            },
        }
    }
}

/// The owned extraction strategy: the slot's value is converted and handed
/// over by ownership transfer, leaving the slot empty.
pub struct ResOwned<T> {
    pub value: T,
}

impl<T: YarnFnParam> ResOwned<T> {
    /// Extracts the owned concrete argument from the slot, consuming the
    /// slot's value on success and leaving the slot as it was on failure.
    pub fn retrieve(value: &mut YarnValueWrapper) -> (r: Result<ResOwned<T>, YarnFnError>)
        requires
            old(value).raw is Some,
        ensures
            r is Ok <==> T::accepts_value(old(value).raw->0),
            r matches Ok(ro) ==> ro.value == T::of_value(old(value).raw->0)
                && final(value).raw is None && final(value).converted is None,
            r matches Err(e) ==> *final(value) == *old(value) && e == (YarnFnError::KindMismatch {
                expected: T::param_kind(),
                found: old(value).raw->0.kind(),
            }),
    {
        match T::retrieve(value) {
            Ok(p) => Ok(ResOwned { value: p }),
            Err(e) => Err(e),
        }
    }
}

/// Parameter slots are independent: what one position's extraction yields is
/// a function of the value in that position alone. Two calls whose argument
/// sequences agree at a position extract the same concrete argument there,
/// whatever stands in the other positions and whichever mode (owned or
/// borrowed) the other positions use.
pub proof fn lemma_extraction_is_per_slot<A: YarnFnParam>(
    args1: Seq<YarnValue>,
    args2: Seq<YarnValue>,
    i: int,
)
    requires
        0 <= i < args1.len(),
        0 <= i < args2.len(),
        args1[i] == args2[i],
    ensures
        A::accepts_value(args1[i]) == A::accepts_value(args2[i]),
        A::of_value(args1[i]) == A::of_value(args2[i]),
{
}

impl YarnFnParam for bool {
    open spec fn param_kind() -> TypeKind {
        TypeKind::Boolean
    }

    fn declared_kind() -> (k: TypeKind) {
        TypeKind::Boolean
    }

    open spec fn accepts_value(v: YarnValue) -> bool {
        v is Boolean
    }

    open spec fn of_value(v: YarnValue) -> Self {
        v->Boolean_0
    }

    fn retrieve(value: &mut YarnValueWrapper) -> (r: Result<Self, YarnFnError>) {
        match value.convert(TypeKind::Boolean) {
            Ok(()) => {},
            Err(e) => {
                return Err(e);
            },
        }
        match value.converted.take() {
            Some(ConvertedValue::Bool(b)) => Ok(b),
            _ => {
                proof {
                    assert(false);
                }
                Err(
                    YarnFnError::KindMismatch {
                        expected: TypeKind::Boolean,
                        found: TypeKind::Boolean,
                    },
                )
            },
        }
    }
}

impl YarnFnParam for String {
    open spec fn param_kind() -> TypeKind {
        TypeKind::Str
    }

    fn declared_kind() -> (k: TypeKind) {
        TypeKind::Str
    }

    open spec fn accepts_value(v: YarnValue) -> bool {
        v is Str
    }

    open spec fn of_value(v: YarnValue) -> Self {
        v->Str_0
    }

    fn retrieve(value: &mut YarnValueWrapper) -> (r: Result<Self, YarnFnError>) {
        match value.convert(TypeKind::Str) {
            Ok(()) => {},
            Err(e) => {
                return Err(e);
            },
        }
        match value.converted.take() {
            Some(ConvertedValue::Str(s)) => Ok(s),
            _ => {
                proof {
                    assert(false);
                }
                Err(YarnFnError::KindMismatch { expected: TypeKind::Str, found: TypeKind::Str })
            },
        }
    }
}

impl YarnFnParam for usize {
    open spec fn param_kind() -> TypeKind {
        TypeKind::Usize
    }

    fn declared_kind() -> (k: TypeKind) {
        TypeKind::Usize
    }

    open spec fn accepts_value(v: YarnValue) -> bool {
        v matches YarnValue::Number(n) && 0 <= n <= usize::MAX
    }

    open spec fn of_value(v: YarnValue) -> Self {
        v->Number_0 as usize
    }

    fn retrieve(value: &mut YarnValueWrapper) -> (r: Result<Self, YarnFnError>) {
        match value.convert(TypeKind::Usize) {
            Ok(()) => {},
            Err(e) => {
                return Err(e);
            },
        }
        match value.converted.take() {
            Some(ConvertedValue::Usize(n)) => Ok(n),
            _ => {
                proof {
                    assert(false);
                }
                Err(YarnFnError::KindMismatch { expected: TypeKind::Usize, found: TypeKind::Usize })
            },
        }
    }
}

impl YarnFnParam for i64 {
    open spec fn param_kind() -> TypeKind {
        TypeKind::Int
    }

    fn declared_kind() -> (k: TypeKind) {
        TypeKind::Int
    }

    open spec fn accepts_value(v: YarnValue) -> bool {
        v is Number
    }

    open spec fn of_value(v: YarnValue) -> Self {
        v->Number_0
    }

    fn retrieve(value: &mut YarnValueWrapper) -> (r: Result<Self, YarnFnError>) {
        match value.convert(TypeKind::Int) {
            Ok(()) => {},
            Err(e) => {
                return Err(e);
            },
        }
        match value.converted.take() {
            Some(ConvertedValue::Int(n)) => Ok(n),
            _ => {
                proof {
                    assert(false);
                }
                Err(YarnFnError::KindMismatch { expected: TypeKind::Int, found: TypeKind::Int })
            },
        }
    }
}

} // verus!
