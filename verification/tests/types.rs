use typed_ir::{
    Constant, FunctionType, Integer, Pointer, Signature, Type, Value, ValueRef, ValueType, Variadic,
};

fn byte_pointer() -> Type {
    Type::Pointer(Box::new(Type::Int(8)))
}

#[test]
fn integers_have_their_own_width() {
    assert_eq!(<i32 as ValueType>::value_type(), Type::Int(32));
    assert_eq!(<u32 as ValueType>::value_type(), Type::Int(32));
    assert_eq!(<i64 as ValueType>::value_type(), Type::Int(64));
    assert_eq!(<u64 as ValueType>::value_type(), Type::Int(64));
}

#[test]
fn unit_is_void_and_string_is_a_byte_pointer() {
    assert_eq!(<() as ValueType>::value_type(), Type::Void);
    assert_eq!(<String as ValueType>::value_type(), byte_pointer());
}

#[test]
fn composite_types_are_built_from_their_parts() {
    assert_eq!(
        <Pointer<i32> as ValueType>::value_type(),
        Type::Pointer(Box::new(Type::Int(32)))
    );
    assert_eq!(
        <[u64; 12] as ValueType>::value_type(),
        Type::Array(Box::new(Type::Int(64)), 12)
    );
    assert_eq!(<[i32; 0] as ValueType>::value_type(), Type::Array(Box::new(Type::Int(32)), 0));
    assert_eq!(
        <(i32, String) as ValueType>::value_type(),
        Type::Struct(Box::new(Type::Int(32)), Box::new(byte_pointer()))
    );
    assert_eq!(
        <Pointer<[(i32, i64); 2]> as ValueType>::value_type(),
        Type::Pointer(Box::new(Type::Array(
            Box::new(Type::Struct(Box::new(Type::Int(32)), Box::new(Type::Int(64)))),
            2
        )))
    );
}

#[test]
fn function_types_name_result_and_parameter() {
    assert_eq!(
        <Signature<(), i32> as FunctionType>::function_type(),
        Type::Function(Box::new(Type::Int(32)), None, false)
    );
    assert_eq!(
        <Signature<(String,), ()> as FunctionType>::function_type(),
        Type::Function(Box::new(Type::Void), Some(Box::new(byte_pointer())), false)
    );
    assert_eq!(
        <Variadic<(String,), i32> as FunctionType>::function_type(),
        Type::Function(Box::new(Type::Int(32)), Some(Box::new(byte_pointer())), true)
    );
}

#[test]
fn a_function_value_is_a_pointer_to_its_function_type() {
    assert_eq!(
        <Signature<(), i64> as ValueType>::value_type(),
        Type::Pointer(Box::new(Type::Function(Box::new(Type::Int(64)), None, false)))
    );
}

#[test]
fn type_clone_is_equal() {
    let ty = <Pointer<[(i32, Signature<(), ()>); 2]> as ValueType>::value_type();
    assert_eq!(ty.clone(), ty);
}

#[test]
fn constants_keep_the_two_s_complement_pattern() {
    assert_eq!(5i32.constant(), ValueRef::Constant { width: 32, bits: 5 });
    assert_eq!(
        (-1i32).constant(),
        ValueRef::Constant { width: 32, bits: 0xffff_ffff }
    );
    assert_eq!(
        i32::MIN.constant(),
        ValueRef::Constant { width: 32, bits: 0x8000_0000 }
    );
    assert_eq!(
        i64::MIN.constant(),
        ValueRef::Constant { width: 64, bits: 0x8000_0000_0000_0000 }
    );
    assert_eq!(u32::MAX.constant(), ValueRef::Constant { width: 32, bits: 0xffff_ffff });
    assert_eq!(u64::MAX.constant(), ValueRef::Constant { width: 64, bits: u64::MAX });
}

#[test]
fn one_constant_has_one_reference() {
    assert_eq!((-1i32).constant(), u32::MAX.constant());
    assert_eq!((-1i64).constant(), u64::MAX.constant());
    assert_eq!(7i32.constant(), 7u32.constant());
}

#[test]
fn zero_is_the_constant_zero() {
    assert_eq!(<i32 as Integer>::zero(), 0i32.constant());
    assert_eq!(<i64 as Integer>::zero(), 0i64.constant());
    assert_eq!(<u32 as Integer>::zero(), 0u32.constant());
    assert_eq!(<u64 as Integer>::zero(), 0u64.constant());
    assert_eq!(<u64 as Integer>::zero(), ValueRef::Constant { width: 64, bits: 0 });
}

#[test]
fn value_new_wraps_the_reference() {
    let reference = ValueRef::Global { index: 3 };
    let value: Value<Pointer<i32>> = Value::new(reference);
    assert_eq!(value.value(), reference);
    let copy = value;
    assert_eq!(copy.value(), value.value());
    assert_eq!(value.clone().value(), reference);
}

#[test]
fn value_constant_refers_to_the_constant() {
    assert_eq!(Value::constant(9u32).value(), 9u32.constant());
    assert_eq!(Value::constant(-9i64).value(), (-9i64).constant());
}
