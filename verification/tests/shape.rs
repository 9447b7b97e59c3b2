//! The boilerplate generator's decision core: eligible shapes get a
//! forwarding plan, every other shape gets its precise rejection.

use cooked_waker::DeriveError;
use cooked_waker::FieldMember;
use cooked_waker::StructFields;
use cooked_waker::TypeShape;
use cooked_waker::WakeTrait;
use cooked_waker::shape::conversion_eligible;
use cooked_waker::shape::forwarding_plan;

#[test]
fn single_named_field_forwards_by_name() {
    let shape = TypeShape::Struct(StructFields::Named(vec![String::from("counter")]));
    let plan = forwarding_plan(WakeTrait::Wake, shape).unwrap();
    assert_eq!(plan.which, WakeTrait::Wake);
    match plan.member {
        FieldMember::Named(name) => assert_eq!(name, "counter"),
        FieldMember::Index => panic!("expected a named member"),
    }
}

#[test]
fn single_positional_field_forwards_by_index() {
    let shape = TypeShape::Struct(StructFields::Unnamed(1));
    let plan = forwarding_plan(WakeTrait::WakeRef, shape).unwrap();
    assert_eq!(plan.which, WakeTrait::WakeRef);
    match plan.member {
        FieldMember::Named(_) => panic!("expected the positional member"),
        FieldMember::Index => {},
    }
}

#[test]
fn unit_struct_is_rejected() {
    let shape = TypeShape::Struct(StructFields::Unit);
    let r = forwarding_plan(WakeTrait::Wake, shape);
    assert_eq!(r.unwrap_err(), DeriveError::UnitStruct);
}

#[test]
fn two_named_fields_are_rejected() {
    let names = vec![String::from("left"), String::from("right")];
    let shape = TypeShape::Struct(StructFields::Named(names));
    let r = forwarding_plan(WakeTrait::WakeRef, shape);
    assert_eq!(r.unwrap_err(), DeriveError::NotSingleField);
}

#[test]
fn zero_positional_fields_are_rejected() {
    let shape = TypeShape::Struct(StructFields::Unnamed(0));
    let r = forwarding_plan(WakeTrait::Wake, shape);
    assert_eq!(r.unwrap_err(), DeriveError::NotSingleField);
}

#[test]
fn enums_and_unions_are_rejected() {
    let r = forwarding_plan(WakeTrait::Wake, TypeShape::Enum);
    assert_eq!(r.unwrap_err(), DeriveError::EnumUnsupported);
    let r = forwarding_plan(WakeTrait::WakeRef, TypeShape::Union);
    assert_eq!(r.unwrap_err(), DeriveError::UnionUnsupported);
}

#[test]
fn trait_names_and_methods() {
    assert_eq!(WakeTrait::Wake.name(), "Wake");
    assert_eq!(WakeTrait::WakeRef.name(), "WakeRef");
    assert_eq!(WakeTrait::Wake.method_name(), "wake");
    assert_eq!(WakeTrait::WakeRef.method_name(), "wake_by_ref");
    assert!(!WakeTrait::Wake.by_reference());
    assert!(WakeTrait::WakeRef.by_reference());
}

#[test]
fn only_concrete_types_get_a_conversion() {
    assert!(conversion_eligible(0).is_ok());
    assert_eq!(conversion_eligible(1).unwrap_err(), DeriveError::GenericType);
    assert_eq!(conversion_eligible(3).unwrap_err(), DeriveError::GenericType);
}
