use std::marker::PhantomData;
use vstd::prelude::*;

use crate::block::Block;
use crate::builder::{result_at, Builder};
use crate::instruction::InstructionView;
use crate::module::{is_c_string, BlockView, Module, ModuleView};
use crate::types::{references, FunctionType, ValueType, VariadicFunctionType};
use crate::value::{UntypedValue, Value, ValueRef};

verus! {

/// A reference to a function, tagged at compile time with its signature `T`.
pub struct Function<T> {
    value: ValueRef,
    phantom: PhantomData<T>,
}

impl<T> View for Function<T> {
    type V = ValueRef;

    closed spec fn view(&self) -> ValueRef {
        self.value
    }
}

impl<T> Clone for Function<T> {
    fn clone(&self) -> (copy: Self)
        ensures
            copy == *self,
    {
        Function { value: self.value, phantom: self.phantom }
    }
}

impl<T> Copy for Function<T> {}

impl<T> Function<T> {
    /// The function with tag `T` that `value` refers to, for use in contracts.
    pub closed spec fn wrap(value: ValueRef) -> Self {
        Function { value, phantom: PhantomData }
    }

    /// A wrapped reference is the view of what wraps it.
    pub broadcast proof fn lemma_wrap(value: ValueRef)
        ensures
            (#[trigger] Self::wrap(value))@ == value,
    {
    }

    pub(crate) fn new(value: ValueRef) -> (function: Self)
        ensures
            function == Self::wrap(value),
            function@ == value,
    {
        Function { value, phantom: PhantomData }
    }

    /// The reference behind the tag.
    pub fn value(&self) -> (value: ValueRef)
        ensures
            value == self@,
    {
        self.value
    }
}

impl<T: FunctionType> Function<T> {
    pub(crate) fn build_call<E>(&self, builder: Builder<E>, params: T::Params) -> (next: (
        T::Return,
        Builder<E>,
    ))
        ensures
            next.1.block() == builder.block(),
            next.1.environment() == builder.environment(),
            next.1@.len() <= usize::MAX,
            next.1@ == builder@.push(
                InstructionView::Call {
                    signature: T::signature(),
                    function: self@,
                    arguments: T::arguments(params),
                },
            ) + T::unpacking(
                builder.block(),
                builder@.len() + 1,
                result_at(builder.block(), builder@.len()),
            ),
            next.0 == T::unpacked(
                builder.block(),
                builder@.len() + 1,
                result_at(builder.block(), builder@.len()),
            ),
    {
        T::build_call(builder, self.value, params)
    }

    pub(crate) fn build_variadic_call<E>(
        &self,
        builder: Builder<E>,
        params: T::Params,
        variadic_params: &[UntypedValue],
    ) -> (next: (T::Return, Builder<E>)) where T: VariadicFunctionType
        ensures
            next.1.block() == builder.block(),
            next.1.environment() == builder.environment(),
            next.1@.len() <= usize::MAX,
            next.1@ == builder@.push(
                InstructionView::Call {
                    signature: T::signature(),
                    function: self@,
                    arguments: T::arguments(params) + references(variadic_params@),
                },
            ) + T::unpacking(
                builder.block(),
                builder@.len() + 1,
                result_at(builder.block(), builder@.len()),
            ),
            next.0 == T::unpacked(
                builder.block(),
                builder@.len() + 1,
                result_at(builder.block(), builder@.len()),
            ),
    {
        T::build_variadic_call(builder, self.value, params, variadic_params)
    }

    /// Whether [`Function::params`] can be called: on a function that a
    /// module declared, and on any function that takes no parameters.
    pub fn has_params(&self) -> (accepted: bool)
        ensures
            accepted == T::has_parameters(self@),
    {
        T::check_parameters(self.value)
    }

    /// The parameters of the function, for use in its body. Unless there
    /// are none, the function must be one that a module declared.
    pub fn params(&self) -> (params: T::Params)
        requires
            T::has_parameters(self@),
        ensures
            params == T::parameters(self@),
    {
        T::function_params(self.value)
    }

    /// Appends a block called `name` to the function, which must be one
    /// that `module` declared, and returns the handle of the block.
    pub fn add_block(&self, module: &mut Module, name: &str) -> (block: Block)
        requires
            self@ is Function,
            self@->Function_index < old(module)@.functions.len(),
            is_c_string(name),
        ensures
            final(module)@ == (ModuleView {
                blocks: old(module)@.blocks.push(
                    BlockView { function: self@->Function_index, name: name@ },
                ),
                ..old(module)@
            }),
            block@ == old(module)@.blocks.len(),
    {
        match self.value {
            ValueRef::Function { index } => Block::new(module.add_block(index, name)),
            _ => unreached(),
        }
    }

    /// The function as a value, for instance to pass it on.
    pub fn as_value(&self) -> (value: Value<T>) where T: ValueType
        ensures
            value@ == self@,
    {
        Value::new(self.value)
    }
}

} // verus!
