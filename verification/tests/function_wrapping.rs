use yarn_fn::Arity1;
use yarn_fn::Arity1Str;
use yarn_fn::Arity2;
use yarn_fn::Arity2Str;
use yarn_fn::TypeKind;
use yarn_fn::UntypedYarnFn;
use yarn_fn::YarnFn;
use yarn_fn::YarnFnError;
use yarn_fn::YarnFnWrapper;
use yarn_fn::YarnValue;
use yarn_fn::untyped_yarn_fns_eq;

fn accept_yarn_fn<Marker, F: YarnFn<Marker>>(_: F) {}

fn no_params() -> bool {
    true
}

fn takes_string(_: String) -> bool {
    true
}

fn takes_str(_: &str) -> bool {
    true
}

fn takes_usize(_: usize) -> bool {
    true
}

fn str_len(s: &str) -> usize {
    s.len()
}

fn doubled(n: usize) -> usize {
    n * 2
}

fn shout(s: String) -> String {
    s.to_uppercase()
}

fn add_both(a: usize, b: usize) -> usize {
    a + b
}

fn negate(b: bool) -> bool {
    !b
}

fn twice_signed(n: i64) -> i64 {
    n * 2
}

fn len_plus(s: &str, n: usize) -> usize {
    s.len() + n
}

#[test]
fn accepts_no_params() {
    accept_yarn_fn(no_params);
}

#[test]
fn accepts_string() {
    accept_yarn_fn(takes_string);
}

#[test]
fn accepts_string_slice() {
    accept_yarn_fn(takes_str);
}

#[test]
fn accepts_usize() {
    accept_yarn_fn(takes_usize);
}

#[test]
fn zero_arity_function_returns_true() {
    let w = YarnFnWrapper::new(no_params);
    let r = w.call(Vec::new());
    assert_eq!(r, Ok(YarnValue::Boolean(true)));
}

#[test]
fn string_by_reference_returns_length() {
    let w = YarnFnWrapper::<Arity1Str<usize>, _>::new(str_len);
    let r = w.call(vec![YarnValue::Str(String::from("hello"))]);
    assert_eq!(r, Ok(YarnValue::Number(5)));
}

#[test]
fn owned_usize_is_doubled() {
    let w = YarnFnWrapper::<Arity1<usize, usize>, _>::new(doubled);
    let r = w.call(vec![YarnValue::Number(21)]);
    assert_eq!(r, Ok(YarnValue::Number(42)));
}

#[test]
fn owned_string_flows_through() {
    let w = YarnFnWrapper::<Arity1<String, String>, _>::new(shout);
    let r = w.call(vec![YarnValue::Str(String::from("hi"))]);
    assert_eq!(r, Ok(YarnValue::Str(String::from("HI"))));
}

#[test]
fn two_owned_parameters_are_added() {
    let w = YarnFnWrapper::<Arity2<usize, usize, usize>, _>::new(add_both);
    let r = w.call(vec![YarnValue::Number(19), YarnValue::Number(23)]);
    assert_eq!(r, Ok(YarnValue::Number(42)));
}

#[test]
fn borrowed_and_owned_slots_are_independent() {
    let w = YarnFnWrapper::<Arity2Str<usize, usize>, _>::new(len_plus);
    let r = w.call(vec![YarnValue::Str(String::from("abc")), YarnValue::Number(4)]);
    assert_eq!(r, Ok(YarnValue::Number(7)));
}

#[test]
fn zero_arguments_to_unary_function_is_arity_mismatch() {
    let w = YarnFnWrapper::<Arity1<usize, usize>, _>::new(doubled);
    let r = w.call(Vec::new());
    assert_eq!(r, Err(YarnFnError::ArityMismatch { expected: 1, got: 0 }));
}

#[test]
fn two_arguments_to_unary_function_is_arity_mismatch() {
    let w = YarnFnWrapper::<Arity1<usize, usize>, _>::new(doubled);
    let r = w.call(vec![YarnValue::Number(1), YarnValue::Number(2)]);
    assert_eq!(r, Err(YarnFnError::ArityMismatch { expected: 1, got: 2 }));
}

#[test]
fn argument_to_zero_arity_function_is_arity_mismatch() {
    let w = YarnFnWrapper::new(no_params);
    let r = w.call(vec![YarnValue::Boolean(false)]);
    assert_eq!(r, Err(YarnFnError::ArityMismatch { expected: 0, got: 1 }));
}

#[test]
fn string_for_numeric_parameter_is_kind_mismatch() {
    let w = YarnFnWrapper::<Arity1<usize, usize>, _>::new(doubled);
    let r = w.call(vec![YarnValue::Str(String::from("21"))]);
    assert_eq!(
        r,
        Err(YarnFnError::KindMismatch { expected: TypeKind::Usize, found: TypeKind::Str })
    );
}

#[test]
fn negative_number_for_usize_parameter_is_kind_mismatch() {
    let w = YarnFnWrapper::<Arity1<usize, usize>, _>::new(doubled);
    let r = w.call(vec![YarnValue::Number(-3)]);
    assert_eq!(
        r,
        Err(YarnFnError::KindMismatch { expected: TypeKind::Usize, found: TypeKind::Int })
    );
}

#[test]
fn number_for_string_slice_parameter_is_kind_mismatch() {
    let w = YarnFnWrapper::<Arity1Str<usize>, _>::new(str_len);
    let r = w.call(vec![YarnValue::Number(9)]);
    assert_eq!(
        r,
        Err(YarnFnError::KindMismatch { expected: TypeKind::StrRef, found: TypeKind::Int })
    );
}

#[test]
fn leftmost_failing_slot_reports_first() {
    let w = YarnFnWrapper::<Arity2Str<usize, usize>, _>::new(len_plus);
    let r = w.call(vec![YarnValue::Number(1), YarnValue::Boolean(true)]);
    assert_eq!(
        r,
        Err(YarnFnError::KindMismatch { expected: TypeKind::StrRef, found: TypeKind::Int })
    );
    let r = w.call(vec![YarnValue::Str(String::from("ok")), YarnValue::Boolean(true)]);
    assert_eq!(
        r,
        Err(YarnFnError::KindMismatch { expected: TypeKind::Usize, found: TypeKind::Boolean })
    );
}

#[test]
fn clone_invokes_like_the_original() {
    let w = YarnFnWrapper::<Arity1<usize, usize>, _>::new(doubled);
    let c = w.clone_box();
    let from_original = w.call(vec![YarnValue::Number(21)]);
    let from_clone = c.call(vec![YarnValue::Number(21)]);
    assert_eq!(from_original, from_clone);
    assert_eq!(c.parameter_types(), w.parameter_types());
    assert_eq!(c.return_type(), w.return_type());
}

#[test]
fn parameter_types_match_declared_arity() {
    let zero = YarnFnWrapper::new(no_params);
    assert_eq!(zero.parameter_types().len(), 0);
    let one = YarnFnWrapper::<Arity1<usize, usize>, _>::new(doubled);
    assert_eq!(one.parameter_types(), vec![TypeKind::Usize]);
    let one_str = YarnFnWrapper::<Arity1Str<usize>, _>::new(str_len);
    assert_eq!(one_str.parameter_types(), vec![TypeKind::StrRef]);
    let two = YarnFnWrapper::<Arity2Str<usize, usize>, _>::new(len_plus);
    assert_eq!(two.parameter_types(), vec![TypeKind::StrRef, TypeKind::Usize]);
}

#[test]
fn return_type_is_stable_across_calls() {
    let w = YarnFnWrapper::<Arity1<String, String>, _>::new(shout);
    let first = w.return_type();
    let second = w.return_type();
    assert_eq!(first, TypeKind::Str);
    assert_eq!(first, second);
}

#[test]
fn same_wrapped_definition_is_debug_equal() {
    let left = YarnFnWrapper::<Arity1<usize, usize>, _>::new(doubled);
    let right = YarnFnWrapper::<Arity1<usize, usize>, _>::new(doubled);
    assert!(untyped_yarn_fns_eq(&left, &right));
}

#[test]
fn different_wrapped_definitions_are_not_debug_equal() {
    let left = YarnFnWrapper::<Arity1<usize, usize>, _>::new(doubled);
    let right = YarnFnWrapper::<Arity1Str<usize>, _>::new(str_len);
    assert!(!untyped_yarn_fns_eq(&left, &right));
}

#[test]
fn bool_parameter_flows_through() {
    let w = YarnFnWrapper::<Arity1<bool, bool>, _>::new(negate);
    let r = w.call(vec![YarnValue::Boolean(true)]);
    assert_eq!(r, Ok(YarnValue::Boolean(false)));
}

#[test]
fn signed_parameter_is_doubled() {
    let w = YarnFnWrapper::<Arity1<i64, i64>, _>::new(twice_signed);
    let r = w.call(vec![YarnValue::Number(-21)]);
    assert_eq!(r, Ok(YarnValue::Number(-42)));
}

#[test]
fn clone_is_debug_equal_to_the_original() {
    let w = YarnFnWrapper::<Arity1<usize, usize>, _>::new(doubled);
    let c = w.clone_box();
    assert!(untyped_yarn_fns_eq(&w, &*c));
}

#[test]
fn return_types_report_the_declared_kind() {
    assert_eq!(YarnFnWrapper::new(no_params).return_type(), TypeKind::Boolean);
    assert_eq!(
        YarnFnWrapper::<Arity1<usize, usize>, _>::new(doubled).return_type(),
        TypeKind::Usize
    );
    assert_eq!(
        YarnFnWrapper::<Arity1<String, String>, _>::new(shout).return_type(),
        TypeKind::Str
    );
    assert_eq!(
        YarnFnWrapper::<Arity1<i64, i64>, _>::new(twice_signed).return_type(),
        TypeKind::Int
    );
}
