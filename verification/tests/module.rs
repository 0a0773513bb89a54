use typed_ir::module::{BlockDeclaration, FunctionDeclaration, GlobalDeclaration, Initializer};
use typed_ir::{Function, Module, Pointer, Signature, Type, Value, ValueRef};

#[test]
fn new_module_is_empty() {
    let module = Module::new("unit", "dir/unit.src");
    assert_eq!(module.name(), "unit");
    assert_eq!(module.source(), "dir/unit.src");
    assert!(module.functions().is_empty());
    assert!(module.blocks().is_empty());
    assert!(module.globals().is_empty());
}

#[test]
fn add_function_records_name_and_signature() {
    let mut module = Module::new("unit", "unit.src");
    let first: Function<Signature<(), ()>> = module.add_function("first");
    let second: Function<Signature<(i64,), i32>> = module.add_function("second");
    assert_eq!(first.value(), ValueRef::Function { index: 0 });
    assert_eq!(second.value(), ValueRef::Function { index: 1 });
    assert_eq!(
        module.functions(),
        &vec![
            FunctionDeclaration {
                name: String::from("first"),
                signature: Type::Function(Box::new(Type::Void), None, false),
            },
            FunctionDeclaration {
                name: String::from("second"),
                signature: Type::Function(
                    Box::new(Type::Int(32)),
                    Some(Box::new(Type::Int(64))),
                    false
                ),
            },
        ]
    );
}

#[test]
fn add_block_numbers_blocks_across_functions() {
    let mut module = Module::new("unit", "unit.src");
    let first: Function<Signature<(), ()>> = module.add_function("first");
    let second: Function<Signature<(), ()>> = module.add_function("second");
    let a = first.add_block(&mut module, "entry");
    let b = second.add_block(&mut module, "entry");
    let c = first.add_block(&mut module, "exit");
    assert_eq!((a.value(), b.value(), c.value()), (0, 1, 2));
    assert_eq!(
        module.blocks(),
        &vec![
            BlockDeclaration { function: 0, name: String::from("entry") },
            BlockDeclaration { function: 1, name: String::from("entry") },
            BlockDeclaration { function: 0, name: String::from("exit") },
        ]
    );
    assert_eq!(module.functions().len(), 2);
}

#[test]
fn params_refer_to_the_function() {
    let mut module = Module::new("unit", "unit.src");
    let _: Function<Signature<(), ()>> = module.add_function("first");
    let second: Function<Signature<(i64,), i32>> = module.add_function("second");
    let (parameter,) = second.params();
    assert_eq!(parameter.value(), ValueRef::Parameter { function: 1, position: 0 });
    let first: Function<Signature<(), ()>> = Function::clone(&module.add_function("third"));
    assert_eq!(first.params(), ());
}

#[test]
fn function_as_value_keeps_the_reference() {
    let mut module = Module::new("unit", "unit.src");
    let function: Function<Signature<(), i32>> = module.add_function("f");
    let value: Value<Signature<(), i32>> = function.as_value();
    assert_eq!(value.value(), ValueRef::Function { index: 0 });
}

#[test]
fn add_string_adds_the_closing_zero() {
    let mut module = Module::new("unit", "unit.src");
    let text = module.add_string("hé");
    assert_eq!(text.value(), ValueRef::Bytes { index: 0 });
    assert_eq!(
        module.globals(),
        &vec![GlobalDeclaration {
            name: String::from("string"),
            ty: Type::Array(Box::new(Type::Int(8)), 4),
            constant: true,
            initializer: Initializer::Text(vec![b'h', 0xc3, 0xa9, 0]),
        }]
    );
}

#[test]
fn add_string_accepts_the_empty_string() {
    let mut module = Module::new("unit", "unit.src");
    module.add_string("");
    assert_eq!(module.globals()[0].ty, Type::Array(Box::new(Type::Int(8)), 1));
    assert_eq!(module.globals()[0].initializer, Initializer::Text(vec![0]));
}

#[test]
fn add_array_is_zeroed_and_writable() {
    let mut module = Module::new("unit", "unit.src");
    module.add_string("first");
    let array: Value<Pointer<[i64; 3]>> = module.add_array();
    assert_eq!(array.value(), ValueRef::Global { index: 1 });
    assert_eq!(
        module.globals()[1],
        GlobalDeclaration {
            name: String::from("array"),
            ty: Type::Array(Box::new(Type::Int(64)), 3),
            constant: false,
            initializer: Initializer::Repeat {
                element: Type::Int(64),
                value: ValueRef::Constant { width: 64, bits: 0 },
                count: 3,
            },
        }
    );
}

#[test]
fn add_global_starts_out_as_the_value() {
    let mut module = Module::new("unit", "unit.src");
    let global = module.add_global(-2i32);
    assert_eq!(global.value(), ValueRef::Global { index: 0 });
    assert_eq!(
        module.globals()[0],
        GlobalDeclaration {
            name: String::from("value"),
            ty: Type::Int(32),
            constant: false,
            initializer: Initializer::Value(ValueRef::Constant {
                width: 32,
                bits: 0xffff_fffe,
            }),
        }
    );
}

#[test]
fn declarations_of_one_kind_leave_the_others_alone() {
    let mut module = Module::new("unit", "unit.src");
    let function: Function<Signature<(), ()>> = module.add_function("f");
    module.add_global(1u32);
    function.add_block(&mut module, "entry");
    module.add_string("s");
    assert_eq!(module.functions().len(), 1);
    assert_eq!(module.blocks().len(), 1);
    assert_eq!(module.globals().len(), 2);
    assert_eq!(module.name(), "unit");
}

#[test]
fn check_c_string_refuses_a_zero_byte() {
    assert!(typed_ir::module::check_c_string("plain"));
    assert!(typed_ir::module::check_c_string(""));
    assert!(typed_ir::module::check_c_string("hé"));
    assert!(!typed_ir::module::check_c_string("a\0b"));
    assert!(!typed_ir::module::check_c_string("\0"));
    assert!(!typed_ir::module::check_c_string("end\0"));
}

#[test]
fn params_of_a_function_without_parameters_need_no_declaration() {
    let mut module = Module::new("unit", "unit.src");
    let maker: Function<Signature<(), Signature<(), i32>>> = module.add_function("maker");
    let taker: Function<Signature<(i32,), i32>> = module.add_function("taker");
    let block = maker.add_block(&mut module, "entry");
    let (made, builder) = block.build(&mut module).unwrap().build_call(&maker, ());
    assert!(made.has_params());
    assert_eq!(made.params(), ());
    assert!(maker.has_params());
    assert!(taker.has_params());
    let _ = builder;
}

#[test]
fn new_module_has_handed_out_no_builder() {
    let mut module = Module::new("unit", "unit.src");
    assert!(module.built().is_empty());
    let function: Function<Signature<(), ()>> = module.add_function("f");
    let block = function.add_block(&mut module, "entry");
    assert!(module.built().is_empty());
    assert!(block.build(&mut module).is_some());
    assert_eq!(module.built(), &vec![0]);
    assert_eq!(module.blocks().len(), 1);
}
