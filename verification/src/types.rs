use std::marker::PhantomData;
use vstd::prelude::*;

use crate::block::Block;
use crate::builder::{result_at, Builder};
use crate::function::Function;
use crate::instruction::{Instruction, InstructionView};
use crate::value::{UntypedValue, Value, ValueRef};

verus! {

/// The descriptor of a backend type.
#[derive(Debug, PartialEq, Eq)]
pub enum Type {
    /// No value; only valid as what a function returns.
    Void,
    /// An integer of the given number of bits.
    Int(u32),
    /// A pointer to a value of the given type.
    Pointer(Box<Type>),
    /// A fixed number of elements of one type.
    Array(Box<Type>, u32),
    /// Two fields, laid out in declaration order and without packing.
    Struct(Box<Type>, Box<Type>),
    /// A function: what it returns, its fixed parameter if it has one, and
    /// whether further arguments may follow the fixed ones.
    Function(Box<Type>, Option<Box<Type>>, bool),
}

impl Clone for Type {
    fn clone(&self) -> (copy: Type)
        ensures
            copy == *self,
        decreases *self,
    {
        match self {
            Type::Void => Type::Void,
            Type::Int(width) => Type::Int(*width),
            Type::Pointer(pointee) => Type::Pointer(Box::new((**pointee).clone())),
            Type::Array(element, count) => Type::Array(Box::new((**element).clone()), *count),
            Type::Struct(first, second) => Type::Struct(
                Box::new((**first).clone()),
                Box::new((**second).clone()),
            ),
            Type::Function(result, parameter, variadic) => {
                let parameter = match parameter {
                    Some(parameter) => Some(Box::new((**parameter).clone())),
                    None => None,
                };
                Type::Function(Box::new((**result).clone()), parameter, *variadic)
            },
        }
    }
}

/// The tag of a pointer to a value with tag `T`.
pub struct Pointer<T> {
    phantom: PhantomData<T>,
}

/// The tag of a function that takes the parameters `P`, a tuple of value
/// types, and returns `R`.
pub struct Signature<P, R> {
    phantom: PhantomData<(P, R)>,
}

/// The tag of a function that takes the parameters `P`, then any number of
/// further arguments, and returns `R`.
pub struct Variadic<P, R> {
    phantom: PhantomData<(P, R)>,
}

/// A type that a value of the program can have.
pub trait ValueType {
    /// What a call hands back when the callee returns this type.
    type ReturnType;

    /// The backend type that stands for this type.
    spec fn descriptor() -> Type;

    /// The instructions that take the raw result `value` apart, emitted from
    /// position `at` of `block` on.
    spec fn unpacking(block: Block, at: nat, value: ValueRef) -> Seq<InstructionView>;

    /// What the raw result `value` becomes once it is taken apart.
    spec fn unpacked(block: Block, at: nat, value: ValueRef) -> Self::ReturnType;

    fn value_type() -> (ty: Type)
        ensures
            ty == Self::descriptor(),
    ;

    /// Turns the raw result of a call into typed values, emitting what it
    /// takes to get at the parts of a composite, fields in declaration order.
    fn as_return_value<E>(builder: Builder<E>, value: ValueRef) -> (next: (
        Self::ReturnType,
        Builder<E>,
    ))
        ensures
            next.1.block() == builder.block(),
            next.1.environment() == builder.environment(),
            next.1@.len() <= usize::MAX,
            next.1@ == builder@ + Self::unpacking(builder.block(), builder@.len(), value),
            next.0 == Self::unpacked(builder.block(), builder@.len(), value),
    ;

    /// Another copy of what a call handed back: references are plain data.
    fn duplicate(returned: &Self::ReturnType) -> (copy: Self::ReturnType)
        ensures
            copy == *returned,
    ;
}

impl ValueType for i32 {
    type ReturnType = Value<i32>;

    open spec fn descriptor() -> Type {
        Type::Int(32)
    }

    open spec fn unpacking(block: Block, at: nat, value: ValueRef) -> Seq<InstructionView> {
        Seq::empty()
    }

    open spec fn unpacked(block: Block, at: nat, value: ValueRef) -> Value<i32> {
        Value::wrap(value)
    }

    fn value_type() -> (ty: Type) {
        Type::Int(32)
    }

    fn as_return_value<E>(builder: Builder<E>, value: ValueRef) -> (next: (Value<i32>, Builder<E>)) {
        proof {
            use_type_invariant(&builder);
        }
        (Value::new(value), builder)
    }

    fn duplicate(returned: &Value<i32>) -> (copy: Value<i32>) {
        *returned
    }
}

impl ValueType for i64 {
    type ReturnType = Value<i64>;

    open spec fn descriptor() -> Type {
        Type::Int(64)
    }

    open spec fn unpacking(block: Block, at: nat, value: ValueRef) -> Seq<InstructionView> {
        Seq::empty()
    }

    open spec fn unpacked(block: Block, at: nat, value: ValueRef) -> Value<i64> {
        Value::wrap(value)
    }

    fn value_type() -> (ty: Type) {
        Type::Int(64)
    }

    fn as_return_value<E>(builder: Builder<E>, value: ValueRef) -> (next: (Value<i64>, Builder<E>)) {
        proof {
            use_type_invariant(&builder);
        }
        (Value::new(value), builder)
    }

    fn duplicate(returned: &Value<i64>) -> (copy: Value<i64>) {
        *returned
    }
}

impl ValueType for u32 {
    type ReturnType = Value<u32>;

    open spec fn descriptor() -> Type {
        Type::Int(32)
    }

    open spec fn unpacking(block: Block, at: nat, value: ValueRef) -> Seq<InstructionView> {
        Seq::empty()
    }

    open spec fn unpacked(block: Block, at: nat, value: ValueRef) -> Value<u32> {
        Value::wrap(value)
    }

    fn value_type() -> (ty: Type) {
        Type::Int(32)
    }

    fn as_return_value<E>(builder: Builder<E>, value: ValueRef) -> (next: (Value<u32>, Builder<E>)) {
        proof {
            use_type_invariant(&builder);
        }
        (Value::new(value), builder)
    }

    fn duplicate(returned: &Value<u32>) -> (copy: Value<u32>) {
        *returned
    }
}

impl ValueType for u64 {
    type ReturnType = Value<u64>;

    open spec fn descriptor() -> Type {
        Type::Int(64)
    }

    open spec fn unpacking(block: Block, at: nat, value: ValueRef) -> Seq<InstructionView> {
        Seq::empty()
    }

    open spec fn unpacked(block: Block, at: nat, value: ValueRef) -> Value<u64> {
        Value::wrap(value)
    }

    fn value_type() -> (ty: Type) {
        Type::Int(64)
    }

    fn as_return_value<E>(builder: Builder<E>, value: ValueRef) -> (next: (Value<u64>, Builder<E>)) {
        proof {
            use_type_invariant(&builder);
        }
        (Value::new(value), builder)
    }

    fn duplicate(returned: &Value<u64>) -> (copy: Value<u64>) {
        *returned
    }
}

impl ValueType for String {
    type ReturnType = Value<String>;

    open spec fn descriptor() -> Type {
        Type::Pointer(Box::new(Type::Int(8)))
    }

    open spec fn unpacking(block: Block, at: nat, value: ValueRef) -> Seq<InstructionView> {
        Seq::empty()
    }

    open spec fn unpacked(block: Block, at: nat, value: ValueRef) -> Value<String> {
        Value::wrap(value)
    }

    fn value_type() -> (ty: Type) {
        Type::Pointer(Box::new(Type::Int(8)))
    }

    fn as_return_value<E>(builder: Builder<E>, value: ValueRef) -> (next: (Value<String>, Builder<E>)) {
        proof {
            use_type_invariant(&builder);
        }
        (Value::new(value), builder)
    }

    fn duplicate(returned: &Value<String>) -> (copy: Value<String>) {
        *returned
    }
}

impl ValueType for () {
    type ReturnType = ();

    open spec fn descriptor() -> Type {
        Type::Void
    }

    open spec fn unpacking(block: Block, at: nat, value: ValueRef) -> Seq<InstructionView> {
        Seq::empty()
    }

    open spec fn unpacked(block: Block, at: nat, value: ValueRef) -> () {
        ()
    }

    fn value_type() -> (ty: Type) {
        Type::Void
    }

    fn as_return_value<E>(builder: Builder<E>, value: ValueRef) -> (next: ((), Builder<E>)) {
        proof {
            use_type_invariant(&builder);
        }
        ((), builder)
    }

    fn duplicate(returned: &()) -> (copy: ()) {
    }
}

impl<T: ValueType> ValueType for Pointer<T> {
    type ReturnType = Value<Pointer<T>>;

    open spec fn descriptor() -> Type {
        Type::Pointer(Box::new(T::descriptor()))
    }

    open spec fn unpacking(block: Block, at: nat, value: ValueRef) -> Seq<InstructionView> {
        Seq::empty()
    }

    open spec fn unpacked(block: Block, at: nat, value: ValueRef) -> Value<Pointer<T>> {
        Value::wrap(value)
    }

    fn value_type() -> (ty: Type) {
        Type::Pointer(Box::new(T::value_type()))
    }

    fn as_return_value<E>(builder: Builder<E>, value: ValueRef) -> (next: (Value<Pointer<T>>, Builder<E>)) {
        proof {
            use_type_invariant(&builder);
        }
        (Value::new(value), builder)
    }

    fn duplicate(returned: &Value<Pointer<T>>) -> (copy: Value<Pointer<T>>) {
        *returned
    }
}

impl<T: ValueType, const N: usize> ValueType for [T; N] {
    type ReturnType = Value<[T; N]>;

    open spec fn descriptor() -> Type {
        Type::Array(Box::new(T::descriptor()), N as u32)
    }

    open spec fn unpacking(block: Block, at: nat, value: ValueRef) -> Seq<InstructionView> {
        Seq::empty()
    }

    open spec fn unpacked(block: Block, at: nat, value: ValueRef) -> Value<[T; N]> {
        Value::wrap(value)
    }

    fn value_type() -> (ty: Type) {
        Type::Array(Box::new(T::value_type()), #[verifier::truncate] (N as u32))
    }

    fn as_return_value<E>(builder: Builder<E>, value: ValueRef) -> (next: (Value<[T; N]>, Builder<E>)) {
        proof {
            use_type_invariant(&builder);
        }
        (Value::new(value), builder)
    }

    fn duplicate(returned: &Value<[T; N]>) -> (copy: Value<[T; N]>) {
        *returned
    }
}

impl<A: ValueType, B: ValueType> ValueType for (A, B) {
    type ReturnType = (A::ReturnType, B::ReturnType);

    open spec fn descriptor() -> Type {
        Type::Struct(Box::new(A::descriptor()), Box::new(B::descriptor()))
    }

    open spec fn unpacking(block: Block, at: nat, value: ValueRef) -> Seq<InstructionView> {
        let first = A::unpacking(block, at + 2, result_at(block, at));
        seq![
            InstructionView::ExtractValue { aggregate: value, index: 0 },
            InstructionView::ExtractValue { aggregate: value, index: 1 },
        ] + first + B::unpacking(block, at + 2 + first.len(), result_at(block, at + 1))
    }

    open spec fn unpacked(block: Block, at: nat, value: ValueRef) -> (A::ReturnType, B::ReturnType) {
        let first = A::unpacking(block, at + 2, result_at(block, at));
        (
            A::unpacked(block, at + 2, result_at(block, at)),
            B::unpacked(block, at + 2 + first.len(), result_at(block, at + 1)),
        )
    }

    fn value_type() -> (ty: Type) {
        Type::Struct(Box::new(A::value_type()), Box::new(B::value_type()))
    }

    fn as_return_value<E>(builder: Builder<E>, value: ValueRef) -> (next: (
        (A::ReturnType, B::ReturnType),
        Builder<E>,
    )) {
        let (first, after_first) = builder.emit(Instruction::ExtractValue { aggregate: value, index: 0 });
        let (second, after_second) = after_first.emit(
            Instruction::ExtractValue { aggregate: value, index: 1 },
        );
        let (a, after_a) = A::as_return_value(after_second, first);
        let (b, after_b) = B::as_return_value(after_a, second);
        ((a, b), after_b)
    }

    fn duplicate(returned: &(A::ReturnType, B::ReturnType)) -> (copy: (
        A::ReturnType,
        B::ReturnType,
    )) {
        (A::duplicate(&returned.0), B::duplicate(&returned.1))
    }
}

impl<R: ValueType> ValueType for Signature<(), R> {
    type ReturnType = Function<Signature<(), R>>;

    open spec fn descriptor() -> Type {
        Type::Pointer(Box::new(<Signature<(), R> as FunctionType>::signature()))
    }

    open spec fn unpacking(block: Block, at: nat, value: ValueRef) -> Seq<InstructionView> {
        Seq::empty()
    }

    open spec fn unpacked(block: Block, at: nat, value: ValueRef) -> Function<Signature<(), R>> {
        Function::wrap(value)
    }

    fn value_type() -> (ty: Type) {
        Type::Pointer(Box::new(<Signature<(), R> as FunctionType>::function_type()))
    }

    fn as_return_value<E>(builder: Builder<E>, value: ValueRef) -> (next: (
        Function<Signature<(), R>>,
        Builder<E>,
    )) {
        proof {
            use_type_invariant(&builder);
        }
        (Function::new(value), builder)
    }

    fn duplicate(returned: &Function<Signature<(), R>>) -> (copy: Function<Signature<(), R>>) {
        *returned
    }
}

/// The signature of a function, as a tag.
pub trait FunctionType {
    /// The typed references a call takes for the fixed parameters.
    type Params;

    /// What a call hands back.
    type Return;

    /// The backend type of the function.
    spec fn signature() -> Type;

    /// The references to the parameters of `function`, seen from inside it.
    spec fn parameters(function: ValueRef) -> Self::Params;

    /// The references that `params` holds, in parameter order.
    spec fn arguments(params: Self::Params) -> Seq<ValueRef>;

    /// The instructions that take the raw result `value` of a call apart,
    /// emitted from position `at` of `block` on.
    spec fn unpacking(block: Block, at: nat, value: ValueRef) -> Seq<InstructionView>;

    /// What the raw result `value` of a call becomes once it is taken apart.
    spec fn unpacked(block: Block, at: nat, value: ValueRef) -> Self::Return;

    fn function_type() -> (ty: Type)
        ensures
            ty == Self::signature(),
    ;

    /// Whether the parameters of `function` can be referred to: those of a
    /// function that a module declared can, and so can those of any function
    /// of a signature without parameters, as there are none.
    spec fn has_parameters(function: ValueRef) -> bool;

    fn check_parameters(function: ValueRef) -> (accepted: bool)
        ensures
            accepted == Self::has_parameters(function),
    ;

    /// The parameters of a function, for use in its body.
    fn function_params(function: ValueRef) -> (params: Self::Params)
        requires
            Self::has_parameters(function),
        ensures
            params == Self::parameters(function),
    ;

    /// Emits the call of `function` with `params`, then what it takes to
    /// turn the raw result into typed values.
    fn build_call<E>(builder: Builder<E>, function: ValueRef, params: Self::Params) -> (next: (
        Self::Return,
        Builder<E>,
    ))
        ensures
            next.1.block() == builder.block(),
            next.1.environment() == builder.environment(),
            next.1@.len() <= usize::MAX,
            next.1@ == builder@.push(
                InstructionView::Call {
                    signature: Self::signature(),
                    function,
                    arguments: Self::arguments(params),
                },
            ) + Self::unpacking(
                builder.block(),
                builder@.len() + 1,
                result_at(builder.block(), builder@.len()),
            ),
            next.0 == Self::unpacked(
                builder.block(),
                builder@.len() + 1,
                result_at(builder.block(), builder@.len()),
            ),
    ;

    /// Another copy of what a call handed back: references are plain data.
    fn duplicate(returned: &Self::Return) -> (copy: Self::Return)
        ensures
            copy == *returned,
    ;
}

/// The signature of a function that accepts arguments beyond its fixed
/// parameters.
pub trait VariadicFunctionType: FunctionType {
    /// Emits the call of `function` with `params` followed by
    /// `variadic_params`, then what it takes to turn the raw result into
    /// typed values.
    fn build_variadic_call<E>(
        builder: Builder<E>,
        function: ValueRef,
        params: Self::Params,
        variadic_params: &[UntypedValue],
    ) -> (next: (Self::Return, Builder<E>))
        ensures
            next.1.block() == builder.block(),
            next.1.environment() == builder.environment(),
            next.1@.len() <= usize::MAX,
            next.1@ == builder@.push(
                InstructionView::Call {
                    signature: Self::signature(),
                    function,
                    arguments: Self::arguments(params) + references(variadic_params@),
                },
            ) + Self::unpacking(
                builder.block(),
                builder@.len() + 1,
                result_at(builder.block(), builder@.len()),
            ),
            next.0 == Self::unpacked(
                builder.block(),
                builder@.len() + 1,
                result_at(builder.block(), builder@.len()),
            ),
    ;
}

/// The references behind a list of untyped values, in order.
pub open spec fn references(values: Seq<UntypedValue>) -> Seq<ValueRef> {
    Seq::new(values.len(), |i: int| values[i]@)
}

/// The type of a function that returns `result` and takes `parameter`, if
/// there is one, and further arguments if `variadic` is set.
fn function_type(result: Type, parameter: Option<Type>, variadic: bool) -> (ty: Type)
    ensures
        ty == Type::Function(
            Box::new(result),
            match parameter {
                Some(parameter) => Some(Box::new(parameter)),
                None => None,
            },
            variadic,
        ),
{
    let parameter = match parameter {
        Some(parameter) => Some(Box::new(parameter)),
        None => None,
    };
    Type::Function(Box::new(result), parameter, variadic)
}

/// Emits one call instruction and returns the reference to its raw result.
fn build_call<E>(
    builder: Builder<E>,
    function: ValueRef,
    function_type: Type,
    params: Vec<ValueRef>,
) -> (next: (ValueRef, Builder<E>))
    ensures
        next.1.block() == builder.block(),
        next.1.environment() == builder.environment(),
        next.1@.len() <= usize::MAX,
        next.1@ == builder@.push(
            InstructionView::Call { signature: function_type, function, arguments: params@ },
        ),
        next.0 == result_at(builder.block(), builder@.len()),
{
    builder.emit(Instruction::Call { signature: function_type, function, arguments: params })
}

/// Appends the references behind `rest` to `fixed`.
fn with_variadic(fixed: Vec<ValueRef>, rest: &[UntypedValue]) -> (all: Vec<ValueRef>)
    ensures
        all@ == fixed@ + references(rest@),
{
    let mut all = fixed;
    let mut i: usize = 0;
    while i < rest.len()
        invariant
            i <= rest.len(),
            all@ == fixed@ + references(rest@).take(i as int),
        decreases rest.len() - i,
    {
        all.push(rest[i].value());
        i += 1;
    }
    all
}

impl<R: ValueType> FunctionType for Signature<(), R> {
    type Params = ();

    type Return = R::ReturnType;

    open spec fn signature() -> Type {
        Type::Function(Box::new(R::descriptor()), None, false)
    }

    open spec fn parameters(function: ValueRef) -> () {
        ()
    }

    open spec fn arguments(params: ()) -> Seq<ValueRef> {
        Seq::empty()
    }

    open spec fn unpacking(block: Block, at: nat, value: ValueRef) -> Seq<InstructionView> {
        R::unpacking(block, at, value)
    }

    open spec fn unpacked(block: Block, at: nat, value: ValueRef) -> R::ReturnType {
        R::unpacked(block, at, value)
    }

    fn function_type() -> (ty: Type) {
        function_type(R::value_type(), None, false)
    }

    open spec fn has_parameters(function: ValueRef) -> bool {
        true
    }

    fn check_parameters(function: ValueRef) -> (accepted: bool) {
        true
    }

    fn function_params(function: ValueRef) -> (params: ()) {
    }

    fn duplicate(returned: &R::ReturnType) -> (copy: R::ReturnType) {
        R::duplicate(returned)
    }

    fn build_call<E>(builder: Builder<E>, function: ValueRef, params: ()) -> (next: (
        R::ReturnType,
        Builder<E>,
    )) {
        let (result, builder) = build_call(builder, function, Self::function_type(), Vec::new());
        R::as_return_value(builder, result)
    }
}

impl<T: ValueType, R: ValueType> FunctionType for Signature<(T,), R> {
    type Params = (Value<T>,);

    type Return = R::ReturnType;

    open spec fn signature() -> Type {
        Type::Function(Box::new(R::descriptor()), Some(Box::new(T::descriptor())), false)
    }

    open spec fn parameters(function: ValueRef) -> (Value<T>,) {
        (Value::wrap(ValueRef::Parameter { function: function->Function_index, position: 0 }),)
    }

    open spec fn arguments(params: (Value<T>,)) -> Seq<ValueRef> {
        seq![params.0@]
    }

    open spec fn unpacking(block: Block, at: nat, value: ValueRef) -> Seq<InstructionView> {
        R::unpacking(block, at, value)
    }

    open spec fn unpacked(block: Block, at: nat, value: ValueRef) -> R::ReturnType {
        R::unpacked(block, at, value)
    }

    fn function_type() -> (ty: Type) {
        function_type(R::value_type(), Some(T::value_type()), false)
    }

    open spec fn has_parameters(function: ValueRef) -> bool {
        function is Function
    }

    fn check_parameters(function: ValueRef) -> (accepted: bool) {
        is_declared(function)
    }

    fn function_params(function: ValueRef) -> (params: (Value<T>,)) {
        (Value::new(parameter(function, 0)),)
    }

    fn duplicate(returned: &R::ReturnType) -> (copy: R::ReturnType) {
        R::duplicate(returned)
    }

    fn build_call<E>(builder: Builder<E>, function: ValueRef, params: (Value<T>,)) -> (next: (
        R::ReturnType,
        Builder<E>,
    )) {
        let mut arguments: Vec<ValueRef> = Vec::new();
        arguments.push(params.0.value());
        let (result, builder) = build_call(builder, function, Self::function_type(), arguments);
        R::as_return_value(builder, result)
    }
}

impl<T: ValueType, R: ValueType> FunctionType for Variadic<(T,), R> {
    type Params = (Value<T>,);

    type Return = R::ReturnType;

    open spec fn signature() -> Type {
        Type::Function(Box::new(R::descriptor()), Some(Box::new(T::descriptor())), true)
    }

    open spec fn parameters(function: ValueRef) -> (Value<T>,) {
        (Value::wrap(ValueRef::Parameter { function: function->Function_index, position: 0 }),)
    }

    open spec fn arguments(params: (Value<T>,)) -> Seq<ValueRef> {
        seq![params.0@]
    }

    open spec fn unpacking(block: Block, at: nat, value: ValueRef) -> Seq<InstructionView> {
        R::unpacking(block, at, value)
    }

    open spec fn unpacked(block: Block, at: nat, value: ValueRef) -> R::ReturnType {
        R::unpacked(block, at, value)
    }

    fn function_type() -> (ty: Type) {
        function_type(R::value_type(), Some(T::value_type()), true)
    }

    open spec fn has_parameters(function: ValueRef) -> bool {
        function is Function
    }

    fn check_parameters(function: ValueRef) -> (accepted: bool) {
        is_declared(function)
    }

    fn function_params(function: ValueRef) -> (params: (Value<T>,)) {
        (Value::new(parameter(function, 0)),)
    }

    fn duplicate(returned: &R::ReturnType) -> (copy: R::ReturnType) {
        R::duplicate(returned)
    }

    fn build_call<E>(builder: Builder<E>, function: ValueRef, params: (Value<T>,)) -> (next: (
        R::ReturnType,
        Builder<E>,
    )) {
        let mut arguments: Vec<ValueRef> = Vec::new();
        arguments.push(params.0.value());
        let (result, builder) = build_call(builder, function, Self::function_type(), arguments);
        R::as_return_value(builder, result)
    }
}

impl<T: ValueType, R: ValueType> VariadicFunctionType for Variadic<(T,), R> {
    fn build_variadic_call<E>(
        builder: Builder<E>,
        function: ValueRef,
        params: (Value<T>,),
        variadic_params: &[UntypedValue],
    ) -> (next: (R::ReturnType, Builder<E>)) {
        let mut fixed: Vec<ValueRef> = Vec::new();
        fixed.push(params.0.value());
        let arguments = with_variadic(fixed, variadic_params);
        let (result, builder) = build_call(builder, function, Self::function_type(), arguments);
        R::as_return_value(builder, result)
    }
}

/// Whether the reference is to a function that a module declared.
fn is_declared(function: ValueRef) -> (declared: bool)
    ensures
        declared == (function is Function),
{
    match function {
        ValueRef::Function { .. } => true,
        _ => false,
    }
}

/// The reference to parameter number `position` of a declared function.
fn parameter(function: ValueRef, position: u32) -> (value: ValueRef)
    requires
        function is Function,
    ensures
        value == (ValueRef::Parameter { function: function->Function_index, position }),
{
    match function {
        ValueRef::Function { index } => ValueRef::Parameter { function: index, position },
        _ => unreached(),
    }
}

} // verus!
