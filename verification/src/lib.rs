//! Registration, type erasure and invocation of native functions for a
//! dynamically-typed scripting environment.
//!
//! A host registers an ordinary native function; its concrete signature is
//! captured generically at registration time, erased into a uniform callable,
//! and every later invocation with a sequence of dynamic values is validated
//! against that signature and converted parameter by parameter.
pub mod function_wrapping;
pub mod operator;
pub mod param;
pub mod value;

pub use function_wrapping::lemma_clone_invocation_alike;
pub use function_wrapping::untyped_yarn_fns_eq;
pub use function_wrapping::Arity0;
pub use function_wrapping::Arity1;
pub use function_wrapping::Arity1Str;
pub use function_wrapping::Arity2;
pub use function_wrapping::Arity2Str;
pub use function_wrapping::UntypedYarnFn;
pub use function_wrapping::YarnFn;
pub use function_wrapping::YarnFnWrapper;
pub use operator::Operator;
pub use param::lemma_extraction_is_per_slot;
pub use param::ConvertedValue;
pub use param::ResOwned;
pub use param::ResRef;
pub use param::YarnFnParam;
pub use param::YarnValueWrapper;
pub use value::IntoYarnValueFromNonYarnValue;
pub use value::TypeKind;
pub use value::YarnFnError;
pub use value::YarnValue;
