use vstd::prelude::*;

use crate::block::Block;
use crate::function::Function;
use crate::hlist::{Cons, HList, IndexableBy};
use crate::instruction::{is_open, is_sealed, views, Instruction, InstructionView, Predicate};
use crate::jump_table::JumpTable;
use crate::types::{references, FunctionType, Pointer, Type, ValueType, VariadicFunctionType};
use crate::value::{Integer, UntypedValue, Value, ValueRef};

verus! {

/// The reference to the result of the instruction at position `index` of
/// `block`.
pub open spec fn result_at(block: Block, index: nat) -> ValueRef {
    ValueRef::Result { block: block@, index: index as usize }
}

/// Two positions of one block have different results.
pub proof fn lemma_results_differ(block: Block, first: nat, second: nat)
    requires
        first != second,
        first <= usize::MAX,
        second <= usize::MAX,
    ensures
        result_at(block, first) != result_at(block, second),
{
}

/// A cursor at the end of one basic block that has not been terminated,
/// together with the environment `E`: the list of what the operations on the
/// block have produced so far, newest first.
///
/// Every operation takes the builder by value. Those that leave the block
/// open hand it back, with what they produced in front of the environment;
/// a terminator hands back a [`SealedBlock`] instead, so nothing can be
/// emitted behind it.
#[must_use]
pub struct Builder<E> {
    block: Block,
    instructions: Vec<Instruction>,
    environment: E,
}

/// A basic block that has received its terminator, and the environment that
/// its builder ended with.
pub struct SealedBlock<E> {
    block: Block,
    instructions: Vec<Instruction>,
    environment: E,
}

impl<E> View for Builder<E> {
    type V = Seq<InstructionView>;

    /// The instructions emitted so far, in the order they were emitted.
    closed spec fn view(&self) -> Seq<InstructionView> {
        views(self.instructions@)
    }
}

impl<E> View for SealedBlock<E> {
    type V = Seq<InstructionView>;

    /// The instructions of the block, the terminator last.
    closed spec fn view(&self) -> Seq<InstructionView> {
        views(self.instructions@)
    }
}

impl<E> SealedBlock<E> {
    /// What every finished block holds: exactly one terminator, at the end,
    /// and no more instructions than can be numbered.
    #[verifier::type_invariant]
    pub open spec fn well_formed(self) -> bool {
        is_sealed(self@) && self@.len() <= usize::MAX
    }

    /// The block that was built.
    pub closed spec fn block(&self) -> Block {
        self.block
    }

    /// The environment that the builder of the block ended with.
    pub closed spec fn environment(&self) -> E {
        self.environment
    }

    /// The handle of the block that was built.
    pub fn handle(&self) -> (block: Block)
        ensures
            block == self.block(),
    {
        self.block
    }

    /// The instructions of the block: exactly one terminator, at the end.
    pub fn instructions(&self) -> (instructions: &Vec<Instruction>)
        ensures
            views(instructions@) == self@,
            is_sealed(self@),
    {
        proof {
            use_type_invariant(self);
        }
        &self.instructions
    }

    /// What the operations on the block produced, newest first.
    pub fn values(&self) -> (values: &E)
        ensures
            *values == self.environment(),
    {
        &self.environment
    }
}

impl Builder<()> {
    pub(crate) fn new(block: Block) -> (builder: Builder<()>)
        ensures
            builder.block() == block,
            builder@ == Seq::<InstructionView>::empty(),
            builder.environment() == (),
    {
        let builder = Builder { block, instructions: Vec::new(), environment: () };
        builder
    }
}

impl<E> Builder<E> {
    /// What every builder holds: nothing emitted so far is a terminator, and
    /// there are no more instructions than can be numbered.
    #[verifier::type_invariant]
    pub open spec fn well_formed(self) -> bool {
        is_open(self@) && self@.len() <= usize::MAX
    }

    /// The block this builder appends to.
    pub closed spec fn block(&self) -> Block {
        self.block
    }

    /// What the operations on the block have produced so far, newest first.
    pub closed spec fn environment(&self) -> E {
        self.environment
    }

    /// What the operations on the block have produced so far, newest first.
    pub fn values(&self) -> (values: &E)
        ensures
            *values == self.environment(),
    {
        &self.environment
    }

    /// Appends one instruction that leaves the block open. Returns the
    /// reference to its result, and the builder behind it.
    pub(crate) fn emit(self, instruction: Instruction) -> (next: (ValueRef, Builder<E>))
        requires
            !instruction@.is_terminator(),
        ensures
            next.1.block() == self.block(),
            next.1.environment() == self.environment(),
            next.1@ == self@.push(instruction@),
            next.1@.len() <= usize::MAX,
            next.0 == result_at(self.block(), self@.len()),
    {
        proof {
            use_type_invariant(&self);
        }
        let Builder { block, mut instructions, environment } = self;
        let index = instructions.len();
        instructions.push(instruction);
        assert(views(instructions@) =~= self@.push(instruction@));
        assert(instructions@.len() == instructions.len());
        let result = ValueRef::Result { block: block.value(), index };
        (result, Builder { block, instructions, environment })
    }

    /// Appends the terminator and gives up the builder.
    pub(crate) fn seal(self, terminator: Instruction) -> (sealed: SealedBlock<E>)
        requires
            terminator@.is_terminator(),
        ensures
            sealed.block() == self.block(),
            sealed.environment() == self.environment(),
            sealed@ == self@.push(terminator@),
            sealed@.len() <= usize::MAX,
            is_sealed(sealed@),
    {
        proof {
            use_type_invariant(&self);
        }
        let Builder { block, mut instructions, environment } = self;
        instructions.push(terminator);
        assert(views(instructions@).drop_last() =~= self@);
        assert(instructions@.len() == instructions.len());
        SealedBlock { block, instructions, environment }
    }
}

impl<E: HList> Builder<E> {
    /// Puts `value` in front of the environment.
    pub(crate) fn push<V>(self, value: V) -> (next: Builder<Cons<V, E>>)
        ensures
            next.block() == self.block(),
            next@ == self@,
            next@.len() <= usize::MAX,
            next.environment() == Cons::link(value, self.environment()),
    {
        proof {
            use_type_invariant(&self);
        }
        let Builder { block, instructions, environment } = self;
        Builder { block, instructions, environment: environment.cons(value) }
    }

    /// Tags the result `result` with `T` and puts it in front of the
    /// environment.
    pub(crate) fn keep<T>(self, result: ValueRef) -> (next: (Value<T>, Builder<Cons<Value<T>, E>>))
        ensures
            next.0@ == result,
            next.1.block() == self.block(),
            next.1@ == self@,
            next.1@.len() <= usize::MAX,
            next.1.environment() == Cons::link(next.0, self.environment()),
    {
        let value = Value::new(result);
        (value, self.push(value))
    }

    /// The value at position `INDEX` of the environment: position 0 is what
    /// the last operation produced, position 1 what the one before it
    /// produced, and so on.
    pub fn get<const INDEX: usize>(&self) -> (value: &<E as IndexableBy<INDEX>>::Result) where
        E: IndexableBy<INDEX>,

        ensures
            *value == IndexableBy::<INDEX>::at(&self.environment()),
    {
        self.environment.index()
    }

    /// Calls `function` with `params`. What comes back has the shape of the
    /// callee's return type: a composite is taken apart into its fields. It
    /// goes to the front of the environment as one entry.
    pub fn build_call<T: FunctionType>(self, function: &Function<T>, params: T::Params) -> (next: (
        T::Return,
        Builder<Cons<T::Return, E>>,
    ))
        ensures
            next.1.block() == self.block(),
            next.1.environment() == Cons::link(next.0, self.environment()),
            next.1@.len() <= usize::MAX,
            next.1@ == self@.push(
                InstructionView::Call {
                    signature: T::signature(),
                    function: function@,
                    arguments: T::arguments(params),
                },
            ) + T::unpacking(self.block(), self@.len() + 1, result_at(self.block(), self@.len())),
            next.0 == T::unpacked(
                self.block(),
                self@.len() + 1,
                result_at(self.block(), self@.len()),
            ),
    {
        let (returned, builder) = function.build_call(self, params);
        let kept = T::duplicate(&returned);
        (returned, builder.push(kept))
    }

    /// Calls `function` with `params` and, behind them, `variadic_params` in
    /// the order given.
    pub fn build_variadic_call<T: VariadicFunctionType>(
        self,
        function: &Function<T>,
        params: T::Params,
        variadic_params: &[UntypedValue],
    ) -> (next: (T::Return, Builder<Cons<T::Return, E>>))
        ensures
            next.1.block() == self.block(),
            next.1.environment() == Cons::link(next.0, self.environment()),
            next.1@.len() <= usize::MAX,
            next.1@ == self@.push(
                InstructionView::Call {
                    signature: T::signature(),
                    function: function@,
                    arguments: T::arguments(params) + references(variadic_params@),
                },
            ) + T::unpacking(self.block(), self@.len() + 1, result_at(self.block(), self@.len())),
            next.0 == T::unpacked(
                self.block(),
                self@.len() + 1,
                result_at(self.block(), self@.len()),
            ),
    {
        let (returned, builder) = function.build_variadic_call(self, params, variadic_params);
        let kept = T::duplicate(&returned);
        (returned, builder.push(kept))
    }

    /// Converts an integer to another integer type. Nothing is checked:
    /// narrowing drops the high bits, and widening keeps the number that the
    /// value is as a `T`.
    pub fn build_int_cast<T: Integer, U: Integer>(self, from: &Value<T>) -> (next: (
        Value<U>,
        Builder<Cons<Value<U>, E>>,
    ))
        ensures
            next.1.block() == self.block(),
            next.1.environment() == Cons::link(next.0, self.environment()),
            next.1@.len() <= usize::MAX,
            next.1@ == self@.push(
                InstructionView::IntCast { value: from@, to: U::descriptor(), signed: T::signed() },
            ),
            next.0@ == result_at(self.block(), self@.len()),
    {
        let (result, builder) = self.emit(
            Instruction::IntCast {
                value: from.value(),
                to: U::value_type(),
                signed: T::is_signed(),
            },
        );
        builder.keep(result)
    }

    /// Wrapping addition of two integers of one type.
    pub fn build_add<T: Integer>(self, lhs: &Value<T>, rhs: &Value<T>) -> (next: (
        Value<T>,
        Builder<Cons<Value<T>, E>>,
    ))
        ensures
            next.1.block() == self.block(),
            next.1.environment() == Cons::link(next.0, self.environment()),
            next.1@.len() <= usize::MAX,
            next.1@ == self@.push(InstructionView::Add { lhs: lhs@, rhs: rhs@ }),
            next.0@ == result_at(self.block(), self@.len()),
    {
        let (result, builder) = self.emit(Instruction::Add { lhs: lhs.value(), rhs: rhs.value() });
        builder.keep(result)
    }

    /// Wrapping subtraction of two integers of one type.
    pub fn build_sub<T: Integer>(self, lhs: &Value<T>, rhs: &Value<T>) -> (next: (
        Value<T>,
        Builder<Cons<Value<T>, E>>,
    ))
        ensures
            next.1.block() == self.block(),
            next.1.environment() == Cons::link(next.0, self.environment()),
            next.1@.len() <= usize::MAX,
            next.1@ == self@.push(InstructionView::Sub { lhs: lhs@, rhs: rhs@ }),
            next.0@ == result_at(self.block(), self@.len()),
    {
        let (result, builder) = self.emit(Instruction::Sub { lhs: lhs.value(), rhs: rhs.value() });
        builder.keep(result)
    }

    /// Whether two integers are equal, as an integer of their own type: 1
    /// where they are, 0 where they are not. The one-bit outcome of the
    /// comparison is widened to `T` with zeros.
    pub fn build_eq<T: Integer>(self, lhs: &Value<T>, rhs: &Value<T>) -> (next: (
        Value<T>,
        Builder<Cons<Value<T>, E>>,
    ))
        ensures
            next.1.block() == self.block(),
            next.1.environment() == Cons::link(next.0, self.environment()),
            next.1@.len() <= usize::MAX,
            next.1@ == self@ + seq![
                InstructionView::Compare { predicate: Predicate::Equal, lhs: lhs@, rhs: rhs@ },
                InstructionView::IntCast {
                    value: result_at(self.block(), self@.len()),
                    to: T::descriptor(),
                    signed: false,
                },
            ],
            next.0@ == result_at(self.block(), self@.len() + 1),
    {
        let (outcome, builder) = self.emit(
            Instruction::Compare {
                predicate: Predicate::Equal,
                lhs: lhs.value(),
                rhs: rhs.value(),
            },
        );
        let (result, builder) = builder.emit(
            Instruction::IntCast { value: outcome, to: T::value_type(), signed: false },
        );
        builder.keep(result)
    }

    /// Whether the first integer is less than the second, as an integer of
    /// their own type: 1 where it is, 0 where it is not. The two are compared
    /// as the numbers they are as a `T`, signed or unsigned, and the one-bit
    /// outcome is widened to `T` with zeros.
    pub fn build_lt<T: Integer>(self, lhs: &Value<T>, rhs: &Value<T>) -> (next: (
        Value<T>,
        Builder<Cons<Value<T>, E>>,
    ))
        ensures
            next.1.block() == self.block(),
            next.1.environment() == Cons::link(next.0, self.environment()),
            next.1@.len() <= usize::MAX,
            next.1@ == self@ + seq![
                InstructionView::Compare { predicate: less_than::<T>(), lhs: lhs@, rhs: rhs@ },
                InstructionView::IntCast {
                    value: result_at(self.block(), self@.len()),
                    to: T::descriptor(),
                    signed: false,
                },
            ],
            next.0@ == result_at(self.block(), self@.len() + 1),
    {
        let (outcome, builder) = self.emit(
            Instruction::Compare {
                predicate: if T::is_signed() {
                    Predicate::SignedLess
                } else {
                    Predicate::UnsignedLess
                },
                lhs: lhs.value(),
                rhs: rhs.value(),
            },
        );
        let (result, builder) = builder.emit(
            Instruction::IntCast { value: outcome, to: T::value_type(), signed: false },
        );
        builder.keep(result)
    }

    /// Chooses between two values without branching: the condition is
    /// narrowed to one bit, and that bit selects `t` when set, `f` otherwise.
    pub fn build_conditional_value<T: Integer, U: ValueType>(
        self,
        value: &Value<T>,
        t: &Value<U>,
        f: &Value<U>,
    ) -> (next: (Value<U>, Builder<Cons<Value<U>, E>>))
        ensures
            next.1.block() == self.block(),
            next.1.environment() == Cons::link(next.0, self.environment()),
            next.1@.len() <= usize::MAX,
            next.1@ == self@ + seq![
                InstructionView::IntCast { value: value@, to: Type::Int(1), signed: false },
                InstructionView::Select {
                    condition: result_at(self.block(), self@.len()),
                    then_value: t@,
                    else_value: f@,
                },
            ],
            next.0@ == result_at(self.block(), self@.len() + 1),
    {
        let (condition, builder) = self.emit(
            Instruction::IntCast { value: value.value(), to: Type::Int(1), signed: false },
        );
        let (result, builder) = builder.emit(
            Instruction::Select { condition, then_value: t.value(), else_value: f.value() },
        );
        builder.keep(result)
    }

    /// Reads the value that a pointer points to.
    pub fn build_load<T: ValueType>(self, ptr: &Value<Pointer<T>>) -> (next: (
        Value<T>,
        Builder<Cons<Value<T>, E>>,
    ))
        ensures
            next.1.block() == self.block(),
            next.1.environment() == Cons::link(next.0, self.environment()),
            next.1@.len() <= usize::MAX,
            next.1@ == self@.push(InstructionView::Load { ty: T::descriptor(), pointer: ptr@ }),
            next.0@ == result_at(self.block(), self@.len()),
    {
        let (result, builder) = self.emit(
            Instruction::Load { ty: T::value_type(), pointer: ptr.value() },
        );
        builder.keep(result)
    }

    /// Writes a value through a pointer. No new value comes of it.
    pub fn build_store<T: ValueType>(self, ptr: &Value<Pointer<T>>, value: &Value<T>) -> (next:
        Builder<E>)
        ensures
            next.block() == self.block(),
            next.environment() == self.environment(),
            next@.len() <= usize::MAX,
            next@ == self@.push(InstructionView::Store { value: value@, pointer: ptr@ }),
    {
        let (_, builder) = self.emit(
            Instruction::Store { value: value.value(), pointer: ptr.value() },
        );
        builder
    }

    /// Reads element `index` of the array that `array` points to: the
    /// address of `(*array)[index]` is computed, then read.
    pub fn build_index_load<T: ValueType, const N: usize, I: Integer>(
        self,
        array: &Value<Pointer<[T; N]>>,
        index: &Value<I>,
    ) -> (next: (Value<T>, Builder<Cons<Value<T>, E>>))
        ensures
            next.1.block() == self.block(),
            next.1.environment() == Cons::link(next.0, self.environment()),
            next.1@.len() <= usize::MAX,
            next.1@ == self@ + seq![
                element_pointer::<T, N, I>(array@, index@),
                InstructionView::Load {
                    ty: T::descriptor(),
                    pointer: result_at(self.block(), self@.len()),
                },
            ],
            next.0@ == result_at(self.block(), self@.len() + 1),
    {
        let (address, builder) = self.build_element_pointer(array, index);
        let (result, builder) = builder.emit(
            Instruction::Load { ty: T::value_type(), pointer: address },
        );
        builder.keep(result)
    }

    /// Writes `value` to element `index` of the array that `array` points
    /// to: the address of `(*array)[index]` is computed, then written.
    pub fn build_index_store<T: ValueType, const N: usize, I: Integer>(
        self,
        array: &Value<Pointer<[T; N]>>,
        index: &Value<I>,
        value: &Value<T>,
    ) -> (next: Builder<E>)
        ensures
            next.block() == self.block(),
            next.environment() == self.environment(),
            next@.len() <= usize::MAX,
            next@ == self@ + seq![
                element_pointer::<T, N, I>(array@, index@),
                InstructionView::Store {
                    value: value@,
                    pointer: result_at(self.block(), self@.len()),
                },
            ],
    {
        let (address, builder) = self.build_element_pointer(array, index);
        let (_, builder) = builder.emit(
            Instruction::Store { value: value.value(), pointer: address },
        );
        builder
    }

    fn build_element_pointer<T: ValueType, const N: usize, I: Integer>(
        self,
        array: &Value<Pointer<[T; N]>>,
        index: &Value<I>,
    ) -> (next: (ValueRef, Builder<E>))
        ensures
            next.1.block() == self.block(),
            next.1.environment() == self.environment(),
            next.1@.len() <= usize::MAX,
            next.1@ == self@.push(element_pointer::<T, N, I>(array@, index@)),
            next.0 == result_at(self.block(), self@.len()),
    {
        let mut indices: Vec<ValueRef> = Vec::new();
        indices.push(I::zero());
        indices.push(index.value());
        assert(indices@ =~= seq![I::zero_reference(), index@]);
        self.emit(
            Instruction::ElementPointer {
                ty: <[T; N]>::value_type(),
                pointer: array.value(),
                indices,
            },
        )
    }

    /// Puts two values side by side in fresh stack storage: `a` in field 0,
    /// `b` in field 1. The result points to the pair.
    pub fn build_struct<A: ValueType, B: ValueType>(self, a: &Value<A>, b: &Value<B>) -> (next: (
        Value<Pointer<(A, B)>>,
        Builder<Cons<Value<Pointer<(A, B)>>, E>>,
    ))
        ensures
            next.1.block() == self.block(),
            next.1.environment() == Cons::link(next.0, self.environment()),
            next.1@.len() <= usize::MAX,
            next.1@ == self@ + seq![
                InstructionView::Alloca { ty: <(A, B)>::descriptor() },
                InstructionView::FieldPointer {
                    ty: <(A, B)>::descriptor(),
                    pointer: result_at(self.block(), self@.len()),
                    field: 0,
                },
                InstructionView::FieldPointer {
                    ty: <(A, B)>::descriptor(),
                    pointer: result_at(self.block(), self@.len()),
                    field: 1,
                },
                InstructionView::Store {
                    value: a@,
                    pointer: result_at(self.block(), self@.len() + 1),
                },
                InstructionView::Store {
                    value: b@,
                    pointer: result_at(self.block(), self@.len() + 2),
                },
            ],
            next.0@ == result_at(self.block(), self@.len()),
    {
        let (storage, builder) = self.emit(Instruction::Alloca { ty: <(A, B)>::value_type() });
        let (first, builder) = builder.emit(
            Instruction::FieldPointer { ty: <(A, B)>::value_type(), pointer: storage, field: 0 },
        );
        let (second, builder) = builder.emit(
            Instruction::FieldPointer { ty: <(A, B)>::value_type(), pointer: storage, field: 1 },
        );
        let (_, builder) = builder.emit(Instruction::Store { value: a.value(), pointer: first });
        let (_, builder) = builder.emit(Instruction::Store { value: b.value(), pointer: second });
        builder.keep(storage)
    }

    /// Starts a multiway branch on `switch` that goes to `default` when no
    /// case matches. The builder is given up: the block is terminated by
    /// [`JumpTable::finish`].
    pub fn build_jump_table<T: ValueType>(self, switch: &Value<T>, default: &Block) -> (table:
        JumpTable<T, E>)
        ensures
            table.block() == self.block(),
            table.environment() == self.environment(),
            table.emitted() == self@,
            table.scrutinee() == switch@,
            table.default() == *default,
            table.cases() == Seq::<(ValueRef, Block)>::empty(),
    {
        JumpTable::new(self, switch.value(), default)
    }

    /// Ends the block at a point that control never reaches.
    pub fn build_unreachable(self) -> (sealed: SealedBlock<E>)
        ensures
            sealed.block() == self.block(),
            sealed.environment() == self.environment(),
            sealed@.len() <= usize::MAX,
            sealed@ == self@.push(InstructionView::Unreachable),
            is_sealed(sealed@),
    {
        self.seal(Instruction::Unreachable)
    }

    /// Ends the block with a jump to `block`.
    pub fn build_jump(self, block: &Block) -> (sealed: SealedBlock<E>)
        ensures
            sealed.block() == self.block(),
            sealed.environment() == self.environment(),
            sealed@.len() <= usize::MAX,
            sealed@ == self@.push(InstructionView::Jump { target: *block }),
            is_sealed(sealed@),
    {
        self.seal(Instruction::Jump { target: *block })
    }

    /// Ends the block with a branch on whether `value` is zero: the zero of
    /// `T` is compared with `value` for equality, and control goes to `t`
    /// when they are equal, to `f` when they are not.
    pub fn build_conditional_jump<T: Integer>(
        self,
        value: &Value<T>,
        t: &Block,
        f: &Block,
    ) -> (sealed: SealedBlock<E>)
        ensures
            sealed.block() == self.block(),
            sealed.environment() == self.environment(),
            sealed@.len() <= usize::MAX,
            sealed@ == self@ + seq![
                InstructionView::Compare {
                    predicate: Predicate::Equal,
                    lhs: T::zero_reference(),
                    rhs: value@,
                },
                InstructionView::Branch {
                    condition: result_at(self.block(), self@.len()),
                    then_block: *t,
                    else_block: *f,
                },
            ],
            is_sealed(sealed@),
    {
        let (condition, builder) = self.emit(
            Instruction::Compare {
                predicate: Predicate::Equal,
                lhs: T::zero(),
                rhs: value.value(),
            },
        );
        let sealed = builder.seal(
            Instruction::Branch { condition, then_block: *t, else_block: *f },
        );
        sealed
    }

    /// Ends the block by returning `value` to the caller.
    pub fn build_ret<T: ValueType>(self, value: &Value<T>) -> (sealed: SealedBlock<E>)
        ensures
            sealed.block() == self.block(),
            sealed.environment() == self.environment(),
            sealed@.len() <= usize::MAX,
            sealed@ == self@.push(InstructionView::Return { value: value@ }),
            is_sealed(sealed@),
    {
        self.seal(Instruction::Return { value: value.value() })
    }

    /// Ends the block by returning to the caller without a value.
    pub fn build_void_ret(self) -> (sealed: SealedBlock<E>)
        ensures
            sealed.block() == self.block(),
            sealed.environment() == self.environment(),
            sealed@.len() <= usize::MAX,
            sealed@ == self@.push(InstructionView::ReturnVoid),
            is_sealed(sealed@),
    {
        self.seal(Instruction::ReturnVoid)
    }
}

/// The order of the values of `T`: signed for a signed type, unsigned for an
/// unsigned one.
pub open spec fn less_than<T: Integer>() -> Predicate {
    if T::signed() {
        Predicate::SignedLess
    } else {
        Predicate::UnsignedLess
    }
}

/// The instruction that computes the address of `(*array)[index]`: from the
/// array pointer, step over no whole array, then to element `index`.
pub open spec fn element_pointer<T: ValueType, const N: usize, I: Integer>(
    array: ValueRef,
    index: ValueRef,
) -> InstructionView {
    InstructionView::ElementPointer {
        ty: <[T; N]>::descriptor(),
        pointer: array,
        indices: seq![I::zero_reference(), index],
    }
}

} // verus!
