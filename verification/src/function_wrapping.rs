//! Generic capture of a native function's signature over every supported
//! arity, and the type-erased callable that hides the concrete signature
//! behind a uniform call/introspect/clone interface.
use crate::param::ResRef;
use crate::param::YarnFnParam;
use crate::param::YarnValueWrapper;
use crate::value::IntoYarnValueFromNonYarnValue;
use crate::value::TypeKind;
use crate::value::YarnFnError;
use crate::value::YarnValue;
use core::marker::PhantomData;
use vstd::prelude::*;

verus! {

/// Marker for the signature of a native function taking no parameters.
pub struct Arity0<O> {
    pub out: PhantomData<O>,
}

/// Marker for the signature of a native function taking one owned parameter.
pub struct Arity1<A, O> {
    pub arg: PhantomData<A>,
    pub out: PhantomData<O>,
}

/// Marker for the signature of a native function taking one string parameter
/// by reference.
pub struct Arity1Str<O> {
    pub out: PhantomData<O>,
}

/// Marker for the signature of a native function taking two owned parameters.
pub struct Arity2<A, B, O> {
    pub first: PhantomData<A>,
    pub second: PhantomData<B>,
    pub out: PhantomData<O>,
}

/// Marker for the signature of a native function taking a string parameter by
/// reference followed by an owned parameter.
pub struct Arity2Str<B, O> {
    pub second: PhantomData<B>,
    pub out: PhantomData<O>,
}

/// A function that can be registered into and called from the scripting
/// environment. It may take any number of parameters up to the supported
/// maximum, each of a concrete type satisfying the extraction protocol, and
/// must return a concrete type convertible into a dynamic value.
///
/// The `Marker` type parameter only distinguishes the generic instantiations
/// for the different signatures; it has no runtime role.
pub trait YarnFn<Marker>: Sized + Copy + Send + Sync {
    type Out: IntoYarnValueFromNonYarnValue;

    /// The obligation on the wrapped native function: it must accept every
    /// concrete argument the extraction protocol can produce, and all its
    /// results must be representable as dynamic values.
    spec fn fn_pre(&self) -> bool;

    /// Whether an argument sequence is accepted: the declared arity exactly,
    /// each value convertible to its parameter's concrete type.
    spec fn accepts(&self, args: Seq<YarnValue>) -> bool;

    /// Relates an accepted argument sequence to the native results the
    /// wrapped function can produce for it.
    spec fn post(&self, args: Seq<YarnValue>, out: Self::Out) -> bool;

    /// The error a rejected argument sequence is reported with: an arity
    /// mismatch, or the kind mismatch of the leftmost failing slot.
    spec fn error_of(&self, args: Seq<YarnValue>) -> YarnFnError;

    /// The identities of the declared parameter types, in order.
    spec fn param_kinds(&self) -> Seq<TypeKind>;

    /// Invokes the function with an ordered sequence of dynamic values,
    /// converting each value to its parameter's concrete type in
    /// left-to-right order.
    fn call(&self, input: Vec<YarnValue>) -> (r: Result<Self::Out, YarnFnError>)
        requires
            self.fn_pre(),
        ensures
            r is Ok <==> self.accepts(input@),
            r matches Ok(o) ==> self.post(input@, o) && o.fits(),
            r matches Err(e) ==> e == self.error_of(input@),
    ;

    /// Reports the identities of the declared parameter types, in order.
    fn parameter_types(&self) -> (r: Vec<TypeKind>)
        ensures
            r@ == self.param_kinds(),
    ;

    /// Reports the identity of the declared return type.
    fn return_type(&self) -> (r: TypeKind)
        ensures
            r == Self::Out::out_kind(),
    {
        Self::Out::output_kind()
    }
}

fn call_arity0<F, O>(function: &F, input: Vec<YarnValue>) -> (r: Result<O, YarnFnError>) where
    F: Fn() -> O + Copy + Send + Sync,
    O: IntoYarnValueFromNonYarnValue,

    requires
        call_requires(*function, ()),
    ensures
        r is Ok <==> input@.len() == 0,
        r matches Ok(o) ==> call_ensures(*function, (), o),
        r matches Err(e) ==> e == (YarnFnError::ArityMismatch {
            expected: 0,
            got: input@.len() as usize,
        }),
{
    if input.len() != 0 {
        return Err(YarnFnError::ArityMismatch { expected: 0, got: input.len() });
    }
    Ok((function)())
}

fn call_arity1<A, F, O>(function: &F, input: Vec<YarnValue>) -> (r: Result<O, YarnFnError>) where
    A: YarnFnParam,
    F: Fn(A) -> O + Copy + Send + Sync,
    O: IntoYarnValueFromNonYarnValue,

    requires
        forall|a: A| call_requires(*function, (a,)),
    ensures
        r is Ok <==> input@.len() == 1 && A::accepts_value(input@[0]),
        r matches Ok(o) ==> call_ensures(*function, (A::of_value(input@[0]),), o),
        r matches Err(e) ==> e == (if input@.len() != 1 {
            YarnFnError::ArityMismatch { expected: 1, got: input@.len() as usize }
        } else {
            YarnFnError::KindMismatch { expected: A::param_kind(), found: input@[0].kind() }
        }),
{
    let mut input = input;
    if input.len() != 1 {
        return Err(YarnFnError::ArityMismatch { expected: 1, got: input.len() });
    }
    let mut slot = YarnValueWrapper::from(input.remove(0));
    let a = match A::retrieve(&mut slot) {
        Ok(a) => a,
        Err(e) => {
            return Err(e);
        },
    };
    Ok((function)(a))
}

fn call_arity1_str<F, O>(function: &F, input: Vec<YarnValue>) -> (r: Result<O, YarnFnError>) where
    F: Fn(&str) -> O + Copy + Send + Sync,
    O: IntoYarnValueFromNonYarnValue,

    requires
        forall|s: &str| call_requires(*function, (s,)),
    ensures
        r is Ok <==> input@.len() == 1 && input@[0] is Str,
        r matches Ok(o) ==> exists|s: &str|
            s@ == input@[0].as_str_seq() && call_ensures(*function, (s,), o),
        r matches Err(e) ==> e == (if input@.len() != 1 {
            YarnFnError::ArityMismatch { expected: 1, got: input@.len() as usize }
        } else {
            YarnFnError::KindMismatch { expected: TypeKind::StrRef, found: input@[0].kind() }
        }),
{
    let mut input = input;
    if input.len() != 1 {
        return Err(YarnFnError::ArityMismatch { expected: 1, got: input.len() });
    }
    let mut slot = YarnValueWrapper::from(input.remove(0));
    let view = match ResRef::retrieve(&mut slot) {
        Ok(view) => view,
        Err(e) => {
            return Err(e);
        },
    };
    Ok((function)(view.value))
}

impl<F, O> YarnFn<Arity0<O>> for F where
    F: Fn() -> O + Copy + Send + Sync,
    O: IntoYarnValueFromNonYarnValue,
 {
    type Out = O;

    open spec fn fn_pre(&self) -> bool {
        &&& call_requires(*self, ())
        &&& forall|o: O| call_ensures(*self, (), o) ==> o.fits()
    }

    open spec fn accepts(&self, args: Seq<YarnValue>) -> bool {
        args.len() == 0
    }

    open spec fn post(&self, args: Seq<YarnValue>, out: O) -> bool {
        call_ensures(*self, (), out)
    }

    open spec fn error_of(&self, args: Seq<YarnValue>) -> YarnFnError {
        YarnFnError::ArityMismatch { expected: 0, got: args.len() as usize }
    }

    open spec fn param_kinds(&self) -> Seq<TypeKind> {
        Seq::empty()
    }

    fn call(&self, input: Vec<YarnValue>) -> (r: Result<O, YarnFnError>) {
        call_arity0(self, input)
    }

    fn parameter_types(&self) -> (r: Vec<TypeKind>) {
        Vec::new()
    }
}

impl<A, F, O> YarnFn<Arity1<A, O>> for F where
    A: YarnFnParam + 'static,
    F: Fn(A) -> O + Copy + Send + Sync,
    O: IntoYarnValueFromNonYarnValue,
 {
    type Out = O;

    open spec fn fn_pre(&self) -> bool {
        &&& forall|a: A| call_requires(*self, (a,))
        &&& forall|a: A, o: O| call_ensures(*self, (a,), o) ==> o.fits()
    }

    open spec fn accepts(&self, args: Seq<YarnValue>) -> bool {
        args.len() == 1 && A::accepts_value(args[0])
    }

    open spec fn post(&self, args: Seq<YarnValue>, out: O) -> bool {
        call_ensures(*self, (A::of_value(args[0]),), out)
    }

    open spec fn error_of(&self, args: Seq<YarnValue>) -> YarnFnError {
        if args.len() != 1 {
            YarnFnError::ArityMismatch { expected: 1, got: args.len() as usize }
        } else {
            YarnFnError::KindMismatch { expected: A::param_kind(), found: args[0].kind() }
        }
    }

    open spec fn param_kinds(&self) -> Seq<TypeKind> {
        seq![A::param_kind()]
    }

    fn call(&self, input: Vec<YarnValue>) -> (r: Result<O, YarnFnError>) {
        call_arity1::<A, F, O>(self, input)
    }

    fn parameter_types(&self) -> (r: Vec<TypeKind>) {
        let mut kinds = Vec::new();
        kinds.push(A::declared_kind());
        proof {
            assert(kinds@ =~= seq![A::param_kind()]);
        }
        kinds
    }
}

impl<F, O> YarnFn<Arity1Str<O>> for F where
    F: Fn(&str) -> O + Copy + Send + Sync,
    O: IntoYarnValueFromNonYarnValue,
 {
    type Out = O;

    open spec fn fn_pre(&self) -> bool {
        &&& forall|s: &str| call_requires(*self, (s,))
        &&& forall|s: &str, o: O| call_ensures(*self, (s,), o) ==> o.fits()
    }

    open spec fn accepts(&self, args: Seq<YarnValue>) -> bool {
        args.len() == 1 && args[0] is Str
    }

    open spec fn post(&self, args: Seq<YarnValue>, out: O) -> bool {
        exists|s: &str| s@ == args[0].as_str_seq() && call_ensures(*self, (s,), out)
    }

    open spec fn error_of(&self, args: Seq<YarnValue>) -> YarnFnError {
        if args.len() != 1 {
            YarnFnError::ArityMismatch { expected: 1, got: args.len() as usize }
        } else {
            YarnFnError::KindMismatch { expected: TypeKind::StrRef, found: args[0].kind() }
        }
    }

    open spec fn param_kinds(&self) -> Seq<TypeKind> {
        seq![TypeKind::StrRef]
    }

    fn call(&self, input: Vec<YarnValue>) -> (r: Result<O, YarnFnError>) {
        call_arity1_str(self, input)
    }

    fn parameter_types(&self) -> (r: Vec<TypeKind>) {
        let mut kinds = Vec::new();
        kinds.push(TypeKind::StrRef);
        proof {
            assert(kinds@ =~= seq![TypeKind::StrRef]);
        }
        kinds
    }
}

fn call_arity2<A, B, F, O>(function: &F, input: Vec<YarnValue>) -> (r: Result<O, YarnFnError>) where
    A: YarnFnParam,
    B: YarnFnParam,
    F: Fn(A, B) -> O + Copy + Send + Sync,
    O: IntoYarnValueFromNonYarnValue,

    requires
        forall|a: A, b: B| call_requires(*function, (a, b)),
    ensures
        r is Ok <==> input@.len() == 2 && A::accepts_value(input@[0]) && B::accepts_value(
            input@[1],
        ),
        r matches Ok(o) ==> call_ensures(
            *function,
            (A::of_value(input@[0]), B::of_value(input@[1])),
            o,
        ),
        r matches Err(e) ==> e == (if input@.len() != 2 {
            YarnFnError::ArityMismatch { expected: 2, got: input@.len() as usize }
        } else if !A::accepts_value(input@[0]) {
            YarnFnError::KindMismatch { expected: A::param_kind(), found: input@[0].kind() }
        } else {
            YarnFnError::KindMismatch { expected: B::param_kind(), found: input@[1].kind() }
        }),
{
    let mut input = input;
    if input.len() != 2 {
        return Err(YarnFnError::ArityMismatch { expected: 2, got: input.len() });
    }
    let second = input.remove(1);
    let first = input.remove(0);
    let mut first_slot = YarnValueWrapper::from(first);
    let mut second_slot = YarnValueWrapper::from(second);
    let a = match A::retrieve(&mut first_slot) {
        Ok(a) => a,
        Err(e) => {
            return Err(e);
        },
    };
    let b = match B::retrieve(&mut second_slot) {
        Ok(b) => b,
        Err(e) => {
            return Err(e);
        },
    };
    Ok((function)(a, b))
}

fn call_arity2_str<B, F, O>(function: &F, input: Vec<YarnValue>) -> (r: Result<
    O,
    YarnFnError,
>) where
    B: YarnFnParam,
    F: Fn(&str, B) -> O + Copy + Send + Sync,
    O: IntoYarnValueFromNonYarnValue,

    requires
        forall|s: &str, b: B| call_requires(*function, (s, b)),
    ensures
        r is Ok <==> input@.len() == 2 && input@[0] is Str && B::accepts_value(input@[1]),
        r matches Ok(o) ==> exists|s: &str|
            s@ == input@[0].as_str_seq() && call_ensures(
                *function,
                (s, B::of_value(input@[1])),
                o,
            ),
        r matches Err(e) ==> e == (if input@.len() != 2 {
            YarnFnError::ArityMismatch { expected: 2, got: input@.len() as usize }
        } else if !(input@[0] is Str) {
            YarnFnError::KindMismatch { expected: TypeKind::StrRef, found: input@[0].kind() }
        } else {
            YarnFnError::KindMismatch { expected: B::param_kind(), found: input@[1].kind() }
        }),
{
    let mut input = input;
    if input.len() != 2 {
        return Err(YarnFnError::ArityMismatch { expected: 2, got: input.len() });
    }
    let second = input.remove(1);
    let first = input.remove(0);
    let mut first_slot = YarnValueWrapper::from(first);
    let mut second_slot = YarnValueWrapper::from(second);
    let view = match ResRef::retrieve(&mut first_slot) {
        Ok(view) => view,
        Err(e) => {
            return Err(e);
        },
    };
    let b = match B::retrieve(&mut second_slot) {
        Ok(b) => b,
        Err(e) => {
            return Err(e);
        },
    };
    Ok((function)(view.value, b))
}

impl<A, B, F, O> YarnFn<Arity2<A, B, O>> for F where
    A: YarnFnParam + 'static,
    B: YarnFnParam + 'static,
    F: Fn(A, B) -> O + Copy + Send + Sync,
    O: IntoYarnValueFromNonYarnValue,
 {
    type Out = O;

    open spec fn fn_pre(&self) -> bool {
        &&& forall|a: A, b: B| call_requires(*self, (a, b))
        &&& forall|a: A, b: B, o: O| call_ensures(*self, (a, b), o) ==> o.fits()
    }

    open spec fn accepts(&self, args: Seq<YarnValue>) -> bool {
        args.len() == 2 && A::accepts_value(args[0]) && B::accepts_value(args[1])
    }

    open spec fn post(&self, args: Seq<YarnValue>, out: O) -> bool {
        call_ensures(*self, (A::of_value(args[0]), B::of_value(args[1])), out)
    }

    open spec fn error_of(&self, args: Seq<YarnValue>) -> YarnFnError {
        if args.len() != 2 {
            YarnFnError::ArityMismatch { expected: 2, got: args.len() as usize }
        } else if !A::accepts_value(args[0]) {
            YarnFnError::KindMismatch { expected: A::param_kind(), found: args[0].kind() }
        } else {
            YarnFnError::KindMismatch { expected: B::param_kind(), found: args[1].kind() }
        }
    }

    open spec fn param_kinds(&self) -> Seq<TypeKind> {
        seq![A::param_kind(), B::param_kind()]
    }

    fn call(&self, input: Vec<YarnValue>) -> (r: Result<O, YarnFnError>) {
        call_arity2::<A, B, F, O>(self, input)
    }

    fn parameter_types(&self) -> (r: Vec<TypeKind>) {
        let mut kinds = Vec::new();
        kinds.push(A::declared_kind());
        kinds.push(B::declared_kind());
        proof {
            assert(kinds@ =~= seq![A::param_kind(), B::param_kind()]);
        }
        kinds
    }
}

impl<B, F, O> YarnFn<Arity2Str<B, O>> for F where
    B: YarnFnParam + 'static,
    F: Fn(&str, B) -> O + Copy + Send + Sync,
    O: IntoYarnValueFromNonYarnValue,
 {
    type Out = O;

    open spec fn fn_pre(&self) -> bool {
        &&& forall|s: &str, b: B| call_requires(*self, (s, b))
        &&& forall|s: &str, b: B, o: O| call_ensures(*self, (s, b), o) ==> o.fits()
    }

    open spec fn accepts(&self, args: Seq<YarnValue>) -> bool {
        args.len() == 2 && args[0] is Str && B::accepts_value(args[1])
    }

    open spec fn post(&self, args: Seq<YarnValue>, out: O) -> bool {
        exists|s: &str|
            s@ == args[0].as_str_seq() && call_ensures(*self, (s, B::of_value(args[1])), out)
    }

    open spec fn error_of(&self, args: Seq<YarnValue>) -> YarnFnError {
        if args.len() != 2 {
            YarnFnError::ArityMismatch { expected: 2, got: args.len() as usize }
        } else if !(args[0] is Str) {
            YarnFnError::KindMismatch { expected: TypeKind::StrRef, found: args[0].kind() }
        } else {
            YarnFnError::KindMismatch { expected: B::param_kind(), found: args[1].kind() }
        }
    }

    open spec fn param_kinds(&self) -> Seq<TypeKind> {
        seq![TypeKind::StrRef, B::param_kind()]
    }

    fn call(&self, input: Vec<YarnValue>) -> (r: Result<O, YarnFnError>) {
        call_arity2_str::<B, F, O>(self, input)
    }

    fn parameter_types(&self) -> (r: Vec<TypeKind>) {
        let mut kinds = Vec::new();
        kinds.push(TypeKind::StrRef);
        kinds.push(B::declared_kind());
        proof {
            assert(kinds@ =~= seq![TypeKind::StrRef, B::param_kind()]);
        }
        kinds
    }
}

/// A callable with its signature erased: it owns a signature-conforming
/// native function together with a compile-time-only marker of the original
/// instantiation, and exposes the uniform call/introspect/clone interface the
/// registry stores. Heterogeneous functions differ only in their type
/// parameters here, never in the interface.
pub struct YarnFnWrapper<Marker, F> {
    pub function: F,
    pub marker: PhantomData<Marker>,
    pub description: String,
}

impl<Marker, F: Copy> Clone for YarnFnWrapper<Marker, F> {
    /// An independent copy whose invocation behavior is indistinguishable
    /// from the original.
    fn clone(&self) -> (r: Self)
        ensures
            r == *self,
    {
        YarnFnWrapper {
            function: self.function,
            marker: self.marker,
            description: self.description.clone(),
        }
    }
}

impl<Marker: 'static, F: YarnFn<Marker> + 'static> YarnFnWrapper<Marker, F> {
    /// Captures a qualifying native function into a type-erased wrapper at
    /// registration time: the wrapper owns the function together with its
    /// diagnostic description, and the marker of the generic instantiation
    /// has no runtime representation.
    pub fn new(function: F) -> (r: Self)
        ensures
            r.function == function,
    {
        let description = signature_description::<Marker, F>();
        YarnFnWrapper { function, marker: PhantomData, description }
    }
}

/// A type-erased callable as the registry sees it: invocation with a sequence
/// of dynamic values, cloning, and introspection of the captured signature.
pub trait UntypedYarnFn: Sized + Send + Sync {
    /// The obligation on the wrapped native function: it accepts every
    /// concrete argument extraction can produce and all its results are
    /// representable as dynamic values.
    spec fn total(&self) -> bool;

    /// Whether an argument sequence is accepted: the declared arity exactly,
    /// each value convertible to its parameter's concrete type.
    spec fn accepts(&self, args: Seq<YarnValue>) -> bool;

    /// Relates an accepted argument sequence to the dynamic values the call
    /// can return: exactly the conversions of the native function's results.
    spec fn post(&self, args: Seq<YarnValue>, out: YarnValue) -> bool;

    /// The error a rejected argument sequence is reported with.
    spec fn error_of(&self, args: Seq<YarnValue>) -> YarnFnError;

    /// The identities of the declared parameter types, in order.
    spec fn param_kinds(&self) -> Seq<TypeKind>;

    /// The identity of the declared return type.
    spec fn ret_kind(&self) -> TypeKind;

    /// Invokes the wrapped function and converts its native result into a
    /// dynamic value.
    fn call(&self, input: Vec<YarnValue>) -> (r: Result<YarnValue, YarnFnError>)
        requires
            self.total(),
        ensures
            r is Ok <==> self.accepts(input@),
            r matches Ok(v) ==> self.post(input@, v),
            r matches Err(e) ==> e == self.error_of(input@),
    ;

    /// An independent copy behind the erased interface; invoking the copy
    /// behaves exactly as invoking the original.
    fn clone_box(&self) -> (r: Box<Self>)
        ensures
            *r == *self,
    ;

    /// Reports the identities of the declared parameter types, in order.
    fn parameter_types(&self) -> (r: Vec<TypeKind>)
        ensures
            r@ == self.param_kinds(),
    ;

    /// Reports the identity of the declared return type.
    fn return_type(&self) -> (r: TypeKind)
        ensures
            r == self.ret_kind(),
    ;

    /// The diagnostic identity of this callable, fixed at registration time.
    spec fn debug_id(&self) -> Seq<char>;

    /// A diagnostic description of this callable. Two wrappings of the same
    /// native function definition describe themselves alike; the description
    /// is not a semantic identity.
    fn debug_string(&self) -> (r: String)
        ensures
            r@ == self.debug_id(),
    ;
}

/// Diagnostic equality of two type-erased callables: their debug descriptions
/// compared. This approximates "same registered function" well enough for
/// deduplication diagnostics, but it is not semantic equality of behavior.
pub fn untyped_yarn_fns_eq<T: UntypedYarnFn, U: UntypedYarnFn>(left: &T, right: &U) -> (r: bool)
    ensures
        r == (left.debug_id() == right.debug_id()),
{
    let a = left.debug_string();
    let b = right.debug_string();
    a == b
}

/// Relies on core::any::TypeId: the diagnostic description of a wrapping,
/// derived from the identities of the marker type and the function type
/// alone.
#[verifier::external_body]
fn signature_description<Marker: 'static, F: 'static>() -> String {
    let signature = core::any::TypeId::of::<Marker>();
    let function_path = core::any::TypeId::of::<F>();
    format!("{signature:?} {{{function_path:?}}}")
}

impl<F, O> YarnFnWrapper<Arity0<O>, F> where
    F: Fn() -> O + Copy + Send + Sync,
    O: IntoYarnValueFromNonYarnValue,
 {
    /// Invokes the wrapped no-parameter function: accepts exactly the empty
    /// argument sequence and returns the conversion of the native result.
    pub fn call(&self, input: Vec<YarnValue>) -> (r: Result<YarnValue, YarnFnError>)
        requires
            call_requires(self.function, ()),
            forall|o: O| call_ensures(self.function, (), o) ==> o.fits(),
        ensures
            r is Ok <==> input@.len() == 0,
            r matches Ok(v) ==> exists|o: O| call_ensures(self.function, (), o) && v == o.to_value(),
            r matches Err(e) ==> e == (YarnFnError::ArityMismatch {
                expected: 0,
                got: input@.len() as usize,
            }),
    {
        match call_arity0(&self.function, input) {
            Ok(o) => Ok(o.into_untyped_value()),
            Err(e) => Err(e),
        }
    }

    /// Reports the declared parameter types: none.
    pub fn parameter_types(&self) -> (r: Vec<TypeKind>)
        ensures
            r@ == Seq::<TypeKind>::empty(),
            r@.len() == 0,
    {
        Vec::new()
    }

    /// Reports the identity of the declared return type.
    pub fn return_type(&self) -> (r: TypeKind)
        ensures
            r == O::out_kind(),
    {
        O::output_kind()
    }
}

impl<F, O> UntypedYarnFn for YarnFnWrapper<Arity0<O>, F> where
    F: Fn() -> O + Copy + Send + Sync + 'static,
    O: IntoYarnValueFromNonYarnValue + Send + Sync + 'static,
 {
    open spec fn total(&self) -> bool {
        &&& call_requires(self.function, ())
        &&& forall|o: O| call_ensures(self.function, (), o) ==> o.fits()
    }

    open spec fn accepts(&self, args: Seq<YarnValue>) -> bool {
        args.len() == 0
    }

    open spec fn post(&self, args: Seq<YarnValue>, out: YarnValue) -> bool {
        exists|o: O| call_ensures(self.function, (), o) && out == o.to_value()
    }

    open spec fn error_of(&self, args: Seq<YarnValue>) -> YarnFnError {
        YarnFnError::ArityMismatch { expected: 0, got: args.len() as usize }
    }

    open spec fn param_kinds(&self) -> Seq<TypeKind> {
        Seq::empty()
    }

    open spec fn ret_kind(&self) -> TypeKind {
        O::out_kind()
    }

    open spec fn debug_id(&self) -> Seq<char> {
        self.description@
    }

    fn call(&self, input: Vec<YarnValue>) -> (r: Result<YarnValue, YarnFnError>) {
        match call_arity0(&self.function, input) {
            Ok(o) => Ok(o.into_untyped_value()),
            Err(e) => Err(e),
        }
    }

    fn clone_box(&self) -> (r: Box<Self>) {
        Box::new(self.clone())
    }

    fn parameter_types(&self) -> (r: Vec<TypeKind>) {
        Vec::new()
    }

    fn return_type(&self) -> (r: TypeKind) {
        O::output_kind()
    }

    fn debug_string(&self) -> (r: String) {
        self.description.clone()
    }
}

impl<A, F, O> YarnFnWrapper<Arity1<A, O>, F> where
    A: YarnFnParam + 'static,
    F: Fn(A) -> O + Copy + Send + Sync,
    O: IntoYarnValueFromNonYarnValue,
 {
    /// Invokes the wrapped one-parameter function: accepts exactly one value
    /// convertible to the owned parameter type and returns the conversion of
    /// the native result.
    pub fn call(&self, input: Vec<YarnValue>) -> (r: Result<YarnValue, YarnFnError>)
        requires
            forall|a: A| call_requires(self.function, (a,)),
            forall|a: A, o: O| call_ensures(self.function, (a,), o) ==> o.fits(),
        ensures
            r is Ok <==> input@.len() == 1 && A::accepts_value(input@[0]),
            r matches Ok(v) ==> exists|o: O|
                call_ensures(self.function, (A::of_value(input@[0]),), o) && v == o.to_value(),
            r matches Err(e) ==> e == (if input@.len() != 1 {
                YarnFnError::ArityMismatch { expected: 1, got: input@.len() as usize }
            } else {
                YarnFnError::KindMismatch { expected: A::param_kind(), found: input@[0].kind() }
            }),
    {
        match call_arity1::<A, F, O>(&self.function, input) {
            Ok(o) => Ok(o.into_untyped_value()),
            Err(e) => Err(e),
        }
    }

    /// Reports the declared parameter types: the one owned parameter.
    pub fn parameter_types(&self) -> (r: Vec<TypeKind>)
        ensures
            r@ == seq![A::param_kind()],
            r@.len() == 1,
    {
        let mut kinds = Vec::new();
        kinds.push(A::declared_kind());
        proof {
            assert(kinds@ =~= seq![A::param_kind()]);
        }
        kinds
    }

    /// Reports the identity of the declared return type.
    pub fn return_type(&self) -> (r: TypeKind)
        ensures
            r == O::out_kind(),
    {
        O::output_kind()
    }
}

impl<A, F, O> UntypedYarnFn for YarnFnWrapper<Arity1<A, O>, F> where
    A: YarnFnParam + Send + Sync + 'static,
    F: Fn(A) -> O + Copy + Send + Sync + 'static,
    O: IntoYarnValueFromNonYarnValue + Send + Sync + 'static,
 {
    open spec fn total(&self) -> bool {
        &&& forall|a: A| call_requires(self.function, (a,))
        &&& forall|a: A, o: O| call_ensures(self.function, (a,), o) ==> o.fits()
    }

    open spec fn accepts(&self, args: Seq<YarnValue>) -> bool {
        args.len() == 1 && A::accepts_value(args[0])
    }

    open spec fn post(&self, args: Seq<YarnValue>, out: YarnValue) -> bool {
        exists|o: O| call_ensures(self.function, (A::of_value(args[0]),), o) && out == o.to_value()
    }

    open spec fn error_of(&self, args: Seq<YarnValue>) -> YarnFnError {
        if args.len() != 1 {
            YarnFnError::ArityMismatch { expected: 1, got: args.len() as usize }
        } else {
            YarnFnError::KindMismatch { expected: A::param_kind(), found: args[0].kind() }
        }
    }

    open spec fn param_kinds(&self) -> Seq<TypeKind> {
        seq![A::param_kind()]
    }

    open spec fn ret_kind(&self) -> TypeKind {
        O::out_kind()
    }

    open spec fn debug_id(&self) -> Seq<char> {
        self.description@
    }

    fn call(&self, input: Vec<YarnValue>) -> (r: Result<YarnValue, YarnFnError>) {
        match call_arity1::<A, F, O>(&self.function, input) {
            Ok(o) => Ok(o.into_untyped_value()),
            Err(e) => Err(e),
        }
    }

    fn clone_box(&self) -> (r: Box<Self>) {
        Box::new(self.clone())
    }

    fn parameter_types(&self) -> (r: Vec<TypeKind>) {
        let mut kinds = Vec::new();
        kinds.push(A::declared_kind());
        proof {
            assert(kinds@ =~= seq![A::param_kind()]);
        }
        kinds
    }

    fn return_type(&self) -> (r: TypeKind) {
        O::output_kind()
    }

    fn debug_string(&self) -> (r: String) {
        self.description.clone()
    }
}

impl<F, O> YarnFnWrapper<Arity1Str<O>, F> where
    F: Fn(&str) -> O + Copy + Send + Sync,
    O: IntoYarnValueFromNonYarnValue,
 {
    /// Invokes the wrapped function taking a string by reference: accepts
    /// exactly one string value, hands the function a view borrowed from the
    /// argument slot, and returns the conversion of the native result.
    pub fn call(&self, input: Vec<YarnValue>) -> (r: Result<YarnValue, YarnFnError>)
        requires
            forall|s: &str| call_requires(self.function, (s,)),
            forall|s: &str, o: O| call_ensures(self.function, (s,), o) ==> o.fits(),
        ensures
            r is Ok <==> input@.len() == 1 && input@[0] is Str,
            r matches Ok(v) ==> exists|s: &str, o: O|
                s@ == input@[0].as_str_seq() && call_ensures(self.function, (s,), o) && v
                    == o.to_value(),
            r matches Err(e) ==> e == (if input@.len() != 1 {
                YarnFnError::ArityMismatch { expected: 1, got: input@.len() as usize }
            } else {
                YarnFnError::KindMismatch { expected: TypeKind::StrRef, found: input@[0].kind() }
            }),
    {
        match call_arity1_str(&self.function, input) {
            Ok(o) => Ok(o.into_untyped_value()),
            Err(e) => Err(e),
        }
    }

    /// Reports the declared parameter types: the one borrowed string.
    pub fn parameter_types(&self) -> (r: Vec<TypeKind>)
        ensures
            r@ == seq![TypeKind::StrRef],
            r@.len() == 1,
    {
        let mut kinds = Vec::new();
        kinds.push(TypeKind::StrRef);
        proof {
            assert(kinds@ =~= seq![TypeKind::StrRef]);
        }
        kinds
    }

    /// Reports the identity of the declared return type.
    pub fn return_type(&self) -> (r: TypeKind)
        ensures
            r == O::out_kind(),
    {
        O::output_kind()
    }
}

impl<F, O> UntypedYarnFn for YarnFnWrapper<Arity1Str<O>, F> where
    F: Fn(&str) -> O + Copy + Send + Sync + 'static,
    O: IntoYarnValueFromNonYarnValue + Send + Sync + 'static,
 {
    open spec fn total(&self) -> bool {
        &&& forall|s: &str| call_requires(self.function, (s,))
        &&& forall|s: &str, o: O| call_ensures(self.function, (s,), o) ==> o.fits()
    }

    open spec fn accepts(&self, args: Seq<YarnValue>) -> bool {
        args.len() == 1 && args[0] is Str
    }

    open spec fn post(&self, args: Seq<YarnValue>, out: YarnValue) -> bool {
        exists|s: &str, o: O|
            s@ == args[0].as_str_seq() && call_ensures(self.function, (s,), o) && out
                == o.to_value()
    }

    open spec fn error_of(&self, args: Seq<YarnValue>) -> YarnFnError {
        if args.len() != 1 {
            YarnFnError::ArityMismatch { expected: 1, got: args.len() as usize }
        } else {
            YarnFnError::KindMismatch { expected: TypeKind::StrRef, found: args[0].kind() }
        }
    }

    open spec fn param_kinds(&self) -> Seq<TypeKind> {
        seq![TypeKind::StrRef]
    }

    open spec fn ret_kind(&self) -> TypeKind {
        O::out_kind()
    }

    open spec fn debug_id(&self) -> Seq<char> {
        self.description@
    }

    fn call(&self, input: Vec<YarnValue>) -> (r: Result<YarnValue, YarnFnError>) {
        match call_arity1_str(&self.function, input) {
            Ok(o) => Ok(o.into_untyped_value()),
            Err(e) => Err(e),
        }
    }

    fn clone_box(&self) -> (r: Box<Self>) {
        Box::new(self.clone())
    }

    fn parameter_types(&self) -> (r: Vec<TypeKind>) {
        let mut kinds = Vec::new();
        kinds.push(TypeKind::StrRef);
        proof {
            assert(kinds@ =~= seq![TypeKind::StrRef]);
        }
        kinds
    }

    fn return_type(&self) -> (r: TypeKind) {
        O::output_kind()
    }

    fn debug_string(&self) -> (r: String) {
        self.description.clone()
    }
}


impl<A, B, F, O> YarnFnWrapper<Arity2<A, B, O>, F> where
    A: YarnFnParam + 'static,
    B: YarnFnParam + 'static,
    F: Fn(A, B) -> O + Copy + Send + Sync,
    O: IntoYarnValueFromNonYarnValue,
 {
    /// Invokes the wrapped two-parameter function: accepts exactly two
    /// values, converts each in left-to-right order through its own slot,
    /// and returns the conversion of the native result.
    pub fn call(&self, input: Vec<YarnValue>) -> (r: Result<YarnValue, YarnFnError>)
        requires
            forall|a: A, b: B| call_requires(self.function, (a, b)),
            forall|a: A, b: B, o: O| call_ensures(self.function, (a, b), o) ==> o.fits(),
        ensures
            r is Ok <==> input@.len() == 2 && A::accepts_value(input@[0]) && B::accepts_value(
                input@[1],
            ),
            r matches Ok(v) ==> exists|o: O|
                call_ensures(self.function, (A::of_value(input@[0]), B::of_value(input@[1])), o)
                    && v == o.to_value(),
            r matches Err(e) ==> e == (if input@.len() != 2 {
                YarnFnError::ArityMismatch { expected: 2, got: input@.len() as usize }
            } else if !A::accepts_value(input@[0]) {
                YarnFnError::KindMismatch { expected: A::param_kind(), found: input@[0].kind() }
            } else {
                YarnFnError::KindMismatch { expected: B::param_kind(), found: input@[1].kind() }
            }),
    {
        match call_arity2::<A, B, F, O>(&self.function, input) {
            Ok(o) => Ok(o.into_untyped_value()),
            Err(e) => Err(e),
        }
    }

    /// Reports the declared parameter types: the two owned parameters.
    pub fn parameter_types(&self) -> (r: Vec<TypeKind>)
        ensures
            r@ == seq![A::param_kind(), B::param_kind()],
            r@.len() == 2,
    {
        let mut kinds = Vec::new();
        kinds.push(A::declared_kind());
        kinds.push(B::declared_kind());
        proof {
            assert(kinds@ =~= seq![A::param_kind(), B::param_kind()]);
        }
        kinds
    }

    /// Reports the identity of the declared return type.
    pub fn return_type(&self) -> (r: TypeKind)
        ensures
            r == O::out_kind(),
    {
        O::output_kind()
    }
}

impl<A, B, F, O> UntypedYarnFn for YarnFnWrapper<Arity2<A, B, O>, F> where
    A: YarnFnParam + Send + Sync + 'static,
    B: YarnFnParam + Send + Sync + 'static,
    F: Fn(A, B) -> O + Copy + Send + Sync + 'static,
    O: IntoYarnValueFromNonYarnValue + Send + Sync + 'static,
 {
    open spec fn total(&self) -> bool {
        &&& forall|a: A, b: B| call_requires(self.function, (a, b))
        &&& forall|a: A, b: B, o: O| call_ensures(self.function, (a, b), o) ==> o.fits()
    }

    open spec fn accepts(&self, args: Seq<YarnValue>) -> bool {
        args.len() == 2 && A::accepts_value(args[0]) && B::accepts_value(args[1])
    }

    open spec fn post(&self, args: Seq<YarnValue>, out: YarnValue) -> bool {
        exists|o: O|
            call_ensures(self.function, (A::of_value(args[0]), B::of_value(args[1])), o) && out
                == o.to_value()
    }

    open spec fn error_of(&self, args: Seq<YarnValue>) -> YarnFnError {
        if args.len() != 2 {
            YarnFnError::ArityMismatch { expected: 2, got: args.len() as usize }
        } else if !A::accepts_value(args[0]) {
            YarnFnError::KindMismatch { expected: A::param_kind(), found: args[0].kind() }
        } else {
            YarnFnError::KindMismatch { expected: B::param_kind(), found: args[1].kind() }
        }
    }

    open spec fn param_kinds(&self) -> Seq<TypeKind> {
        seq![A::param_kind(), B::param_kind()]
    }

    open spec fn ret_kind(&self) -> TypeKind {
        O::out_kind()
    }

    open spec fn debug_id(&self) -> Seq<char> {
        self.description@
    }

    fn call(&self, input: Vec<YarnValue>) -> (r: Result<YarnValue, YarnFnError>) {
        match call_arity2::<A, B, F, O>(&self.function, input) {
            Ok(o) => Ok(o.into_untyped_value()),
            Err(e) => Err(e),
        }
    }

    fn clone_box(&self) -> (r: Box<Self>) {
        Box::new(self.clone())
    }

    fn parameter_types(&self) -> (r: Vec<TypeKind>) {
        let mut kinds = Vec::new();
        kinds.push(A::declared_kind());
        kinds.push(B::declared_kind());
        proof {
            assert(kinds@ =~= seq![A::param_kind(), B::param_kind()]);
        }
        kinds
    }

    fn return_type(&self) -> (r: TypeKind) {
        O::output_kind()
    }

    fn debug_string(&self) -> (r: String) {
        self.description.clone()
    }
}

impl<B, F, O> YarnFnWrapper<Arity2Str<B, O>, F> where
    B: YarnFnParam + 'static,
    F: Fn(&str, B) -> O + Copy + Send + Sync,
    O: IntoYarnValueFromNonYarnValue,
 {
    /// Invokes the wrapped function taking a borrowed string and an owned
    /// parameter: the first slot keeps the owned string and lends a view,
    /// the second hands its value over, each converted from its own input
    /// position in left-to-right order.
    pub fn call(&self, input: Vec<YarnValue>) -> (r: Result<YarnValue, YarnFnError>)
        requires
            forall|s: &str, b: B| call_requires(self.function, (s, b)),
            forall|s: &str, b: B, o: O| call_ensures(self.function, (s, b), o) ==> o.fits(),
        ensures
            r is Ok <==> input@.len() == 2 && input@[0] is Str && B::accepts_value(input@[1]),
            r matches Ok(v) ==> exists|s: &str, o: O|
                s@ == input@[0].as_str_seq() && call_ensures(
                    self.function,
                    (s, B::of_value(input@[1])),
                    o,
                ) && v == o.to_value(),
            r matches Err(e) ==> e == (if input@.len() != 2 {
                YarnFnError::ArityMismatch { expected: 2, got: input@.len() as usize }
            } else if !(input@[0] is Str) {
                YarnFnError::KindMismatch { expected: TypeKind::StrRef, found: input@[0].kind() }
            } else {
                YarnFnError::KindMismatch { expected: B::param_kind(), found: input@[1].kind() }
            }),
    {
        match call_arity2_str::<B, F, O>(&self.function, input) {
            Ok(o) => Ok(o.into_untyped_value()),
            Err(e) => Err(e),
        }
    }

    /// Reports the declared parameter types: the borrowed string, then the
    /// owned parameter.
    pub fn parameter_types(&self) -> (r: Vec<TypeKind>)
        ensures
            r@ == seq![TypeKind::StrRef, B::param_kind()],
            r@.len() == 2,
    {
        let mut kinds = Vec::new();
        kinds.push(TypeKind::StrRef);
        kinds.push(B::declared_kind());
        proof {
            assert(kinds@ =~= seq![TypeKind::StrRef, B::param_kind()]);
        }
        kinds
    }

    /// Reports the identity of the declared return type.
    pub fn return_type(&self) -> (r: TypeKind)
        ensures
            r == O::out_kind(),
    {
        O::output_kind()
    }
}

impl<B, F, O> UntypedYarnFn for YarnFnWrapper<Arity2Str<B, O>, F> where
    B: YarnFnParam + Send + Sync + 'static,
    F: Fn(&str, B) -> O + Copy + Send + Sync + 'static,
    O: IntoYarnValueFromNonYarnValue + Send + Sync + 'static,
 {
    open spec fn total(&self) -> bool {
        &&& forall|s: &str, b: B| call_requires(self.function, (s, b))
        &&& forall|s: &str, b: B, o: O| call_ensures(self.function, (s, b), o) ==> o.fits()
    }

    open spec fn accepts(&self, args: Seq<YarnValue>) -> bool {
        args.len() == 2 && args[0] is Str && B::accepts_value(args[1])
    }

    open spec fn post(&self, args: Seq<YarnValue>, out: YarnValue) -> bool {
        exists|s: &str, o: O|
            s@ == args[0].as_str_seq() && call_ensures(self.function, (s, B::of_value(args[1])), o)
                && out == o.to_value()
    }

    open spec fn error_of(&self, args: Seq<YarnValue>) -> YarnFnError {
        if args.len() != 2 {
            YarnFnError::ArityMismatch { expected: 2, got: args.len() as usize }
        } else if !(args[0] is Str) {
            YarnFnError::KindMismatch { expected: TypeKind::StrRef, found: args[0].kind() }
        } else {
            YarnFnError::KindMismatch { expected: B::param_kind(), found: args[1].kind() }
        }
    }

    open spec fn param_kinds(&self) -> Seq<TypeKind> {
        seq![TypeKind::StrRef, B::param_kind()]
    }

    open spec fn ret_kind(&self) -> TypeKind {
        O::out_kind()
    }

    open spec fn debug_id(&self) -> Seq<char> {
        self.description@
    }

    fn call(&self, input: Vec<YarnValue>) -> (r: Result<YarnValue, YarnFnError>) {
        match call_arity2_str::<B, F, O>(&self.function, input) {
            Ok(o) => Ok(o.into_untyped_value()),
            Err(e) => Err(e),
        }
    }

    fn clone_box(&self) -> (r: Box<Self>) {
        Box::new(self.clone())
    }

    fn parameter_types(&self) -> (r: Vec<TypeKind>) {
        let mut kinds = Vec::new();
        kinds.push(TypeKind::StrRef);
        kinds.push(B::declared_kind());
        proof {
            assert(kinds@ =~= seq![TypeKind::StrRef, B::param_kind()]);
        }
        kinds
    }

    fn return_type(&self) -> (r: TypeKind) {
        O::output_kind()
    }

    fn debug_string(&self) -> (r: String) {
        self.description.clone()
    }
}

/// Equal type-erased callables behave alike: a clone produced by `clone_box`
/// equals its original, so it accepts the same argument sequences, can return
/// exactly the same values for them, reports the same errors, and presents
/// the same signature.
pub proof fn lemma_clone_invocation_alike<T: UntypedYarnFn>(
    original: &T,
    copy: &T,
    args: Seq<YarnValue>,
    out: YarnValue,
)
    requires
        *copy == *original,
    ensures
        copy.total() == original.total(),
        copy.accepts(args) == original.accepts(args),
        copy.post(args, out) == original.post(args, out),
        copy.error_of(args) == original.error_of(args),
        copy.param_kinds() == original.param_kinds(),
        copy.ret_kind() == original.ret_kind(),
        copy.debug_id() == original.debug_id(),
{
}

} // verus!
