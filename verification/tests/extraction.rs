use yarn_fn::ConvertedValue;
use yarn_fn::Operator;
use yarn_fn::ResOwned;
use yarn_fn::ResRef;
use yarn_fn::TypeKind;
use yarn_fn::YarnFnError;
use yarn_fn::YarnFnParam;
use yarn_fn::YarnValue;
use yarn_fn::YarnValueWrapper;

#[test]
fn wrapping_a_value_fills_the_raw_slot() {
    let slot = YarnValueWrapper::from(YarnValue::Number(3));
    assert!(matches!(slot.raw, Some(YarnValue::Number(3))));
    assert!(slot.converted.is_none());
}

#[test]
fn converting_a_string_keeps_the_owned_intermediate() {
    let mut slot = YarnValueWrapper::from(YarnValue::Str(String::from("knot")));
    assert_eq!(slot.convert(TypeKind::StrRef), Ok(()));
    assert!(slot.raw.is_none());
    assert!(matches!(slot.converted, Some(ConvertedValue::Str(ref s)) if s == "knot"));
}

#[test]
fn converting_a_mismatched_kind_leaves_the_slot_as_it_was() {
    let mut slot = YarnValueWrapper::from(YarnValue::Boolean(true));
    let r = slot.convert(TypeKind::Usize);
    assert_eq!(
        r,
        Err(YarnFnError::KindMismatch { expected: TypeKind::Usize, found: TypeKind::Boolean })
    );
    assert!(matches!(slot.raw, Some(YarnValue::Boolean(true))));
    assert!(slot.converted.is_none());
}

#[test]
fn out_of_range_number_does_not_convert_to_usize() {
    let mut slot = YarnValueWrapper::from(YarnValue::Number(-1));
    let r = slot.convert(TypeKind::Usize);
    assert_eq!(
        r,
        Err(YarnFnError::KindMismatch { expected: TypeKind::Usize, found: TypeKind::Int })
    );
    assert!(matches!(slot.raw, Some(YarnValue::Number(-1))));
}

#[test]
fn owned_retrieval_consumes_the_slot() {
    let mut slot = YarnValueWrapper::from(YarnValue::Number(11));
    let r = ResOwned::<usize>::retrieve(&mut slot);
    assert!(matches!(r, Ok(ResOwned { value: 11 })));
    assert!(slot.raw.is_none());
    assert!(slot.converted.is_none());
}

#[test]
fn borrowed_retrieval_lends_a_view_into_the_slot() {
    let mut slot = YarnValueWrapper::from(YarnValue::Str(String::from("loop")));
    let r = ResRef::retrieve(&mut slot);
    match r {
        Ok(view) => assert_eq!(view.value, "loop"),
        Err(e) => panic!("unexpected error {e:?}"),
    }
}

#[test]
fn each_owned_parameter_type_retrieves_its_kind() {
    let mut slot = YarnValueWrapper::from(YarnValue::Boolean(true));
    assert_eq!(bool::retrieve(&mut slot), Ok(true));
    let mut slot = YarnValueWrapper::from(YarnValue::Str(String::from("s")));
    assert_eq!(String::retrieve(&mut slot), Ok(String::from("s")));
    let mut slot = YarnValueWrapper::from(YarnValue::Number(8));
    assert_eq!(usize::retrieve(&mut slot), Ok(8));
    let mut slot = YarnValueWrapper::from(YarnValue::Number(-8));
    assert_eq!(i64::retrieve(&mut slot), Ok(-8));
}

#[test]
fn retrieval_failure_reports_the_expected_kind() {
    let mut slot = YarnValueWrapper::from(YarnValue::Number(0));
    assert_eq!(
        bool::retrieve(&mut slot),
        Err(YarnFnError::KindMismatch { expected: TypeKind::Boolean, found: TypeKind::Int })
    );
    let mut slot = YarnValueWrapper::from(YarnValue::Boolean(false));
    assert_eq!(
        i64::retrieve(&mut slot),
        Err(YarnFnError::KindMismatch { expected: TypeKind::Int, found: TypeKind::Boolean })
    );
}

#[test]
fn values_report_their_kind() {
    assert_eq!(YarnValue::Boolean(true).kind_of(), TypeKind::Boolean);
    assert_eq!(YarnValue::Str(String::new()).kind_of(), TypeKind::Str);
    assert_eq!(YarnValue::Number(0).kind_of(), TypeKind::Int);
}

#[test]
fn values_compare_by_kind_and_content() {
    assert_eq!(YarnValue::Number(4), YarnValue::Number(4));
    assert_ne!(YarnValue::Number(4), YarnValue::Number(5));
    assert_ne!(YarnValue::Number(1), YarnValue::Boolean(true));
    assert_eq!(
        YarnValue::Str(String::from("a")).clone(),
        YarnValue::Str(String::from("a"))
    );
}

#[test]
fn operators_name_themselves() {
    assert_eq!(Operator::Add.name(), "Add");
    assert_eq!(Operator::EqualTo.name(), "EqualTo");
    assert_eq!(Operator::UnarySubtract.name(), "UnarySubtract");
    assert_eq!(Operator::Modulo.name(), "Modulo");
}
