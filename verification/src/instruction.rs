use vstd::prelude::*;

use crate::block::Block;
use crate::types::Type;
use crate::value::ValueRef;

verus! {

/// How two integers are compared.
#[derive(Clone, Copy, Debug, PartialEq, Eq, Structural)]
pub enum Predicate {
    /// The two integers are the same.
    Equal,
    /// The first integer is less than the second, both read as signed.
    SignedLess,
    /// The first integer is less than the second, both read as unsigned.
    UnsignedLess,
}

/// One instruction, as it is handed to the backend.
///
/// The first group leaves the block open. All but `Store` have a result,
/// which later instructions refer to by the position of the instruction in
/// its block. The second group are the terminators.
#[derive(Debug, PartialEq, Eq)]
pub enum Instruction {
    /// `lhs + rhs` on two integers of one type; the sum wraps around.
    Add { lhs: ValueRef, rhs: ValueRef },
    /// `lhs - rhs` on two integers of one type; the difference wraps around.
    Sub { lhs: ValueRef, rhs: ValueRef },
    /// Whether `predicate` holds of `lhs` and `rhs`, as one bit.
    Compare { predicate: Predicate, lhs: ValueRef, rhs: ValueRef },
    /// The integer `value` as an integer of type `to`. A narrower type gets
    /// the low bits. A wider type gets the same number: the new high bits
    /// repeat the sign bit where `signed` is set, and are zero where it is
    /// not.
    IntCast { value: ValueRef, to: Type, signed: bool },
    /// `then_value` where the one-bit `condition` is set, `else_value` where
    /// it is not.
    Select { condition: ValueRef, then_value: ValueRef, else_value: ValueRef },
    /// The value of type `ty` that `pointer` points to.
    Load { ty: Type, pointer: ValueRef },
    /// Writes `value` to where `pointer` points.
    Store { value: ValueRef, pointer: ValueRef },
    /// The address reached from `pointer`, which points to a `ty`, by
    /// following `indices` in order: the first steps over whole values of
    /// type `ty`, each further one goes into an element.
    ElementPointer { ty: Type, pointer: ValueRef, indices: Vec<ValueRef> },
    /// The address of field `field` of the struct `ty` that `pointer` points to.
    FieldPointer { ty: Type, pointer: ValueRef, field: u32 },
    /// Fresh stack storage for one `ty`; the result is its address.
    Alloca { ty: Type },
    /// Field `index` of the struct value `aggregate`.
    ExtractValue { aggregate: ValueRef, index: u32 },
    /// What `function`, which has the type `signature`, returns when it is
    /// called with `arguments`.
    Call { signature: Type, function: ValueRef, arguments: Vec<ValueRef> },
    /// Control goes to `target`.
    Jump { target: Block },
    /// Control goes to `then_block` where the one-bit `condition` is set, to
    /// `else_block` where it is not.
    Branch { condition: ValueRef, then_block: Block, else_block: Block },
    /// Control goes to the block of the case whose constant equals `value`,
    /// to `default` where there is none. `cases` are kept in the order they
    /// were added.
    Switch { value: ValueRef, default: Block, cases: Vec<(ValueRef, Block)> },
    /// Control goes back to the caller, with `value`.
    Return { value: ValueRef },
    /// Control goes back to the caller, with no value.
    ReturnVoid,
    /// Control never gets here.
    Unreachable,
}

/// What an [`Instruction`] says, with its lists as sequences.
pub enum InstructionView {
    Add { lhs: ValueRef, rhs: ValueRef },
    Sub { lhs: ValueRef, rhs: ValueRef },
    Compare { predicate: Predicate, lhs: ValueRef, rhs: ValueRef },
    IntCast { value: ValueRef, to: Type, signed: bool },
    Select { condition: ValueRef, then_value: ValueRef, else_value: ValueRef },
    Load { ty: Type, pointer: ValueRef },
    Store { value: ValueRef, pointer: ValueRef },
    ElementPointer { ty: Type, pointer: ValueRef, indices: Seq<ValueRef> },
    FieldPointer { ty: Type, pointer: ValueRef, field: u32 },
    Alloca { ty: Type },
    ExtractValue { aggregate: ValueRef, index: u32 },
    Call { signature: Type, function: ValueRef, arguments: Seq<ValueRef> },
    Jump { target: Block },
    Branch { condition: ValueRef, then_block: Block, else_block: Block },
    Switch { value: ValueRef, default: Block, cases: Seq<(ValueRef, Block)> },
    Return { value: ValueRef },
    ReturnVoid,
    Unreachable,
}

impl View for Instruction {
    type V = InstructionView;

    open spec fn view(&self) -> InstructionView {
        match *self {
            Instruction::Add { lhs, rhs } => InstructionView::Add { lhs, rhs },
            Instruction::Sub { lhs, rhs } => InstructionView::Sub { lhs, rhs },
            Instruction::Compare { predicate, lhs, rhs } => InstructionView::Compare {
                predicate,
                lhs,
                rhs,
            },
            Instruction::IntCast { value, to, signed } => InstructionView::IntCast {
                value,
                to,
                signed,
            },
            Instruction::Select { condition, then_value, else_value } => InstructionView::Select {
                condition,
                then_value,
                else_value,
            },
            Instruction::Load { ty, pointer } => InstructionView::Load { ty, pointer },
            Instruction::Store { value, pointer } => InstructionView::Store { value, pointer },
            Instruction::ElementPointer { ty, pointer, indices } => InstructionView::ElementPointer {
                ty,
                pointer,
                indices: indices@,
            },
            Instruction::FieldPointer { ty, pointer, field } => InstructionView::FieldPointer {
                ty,
                pointer,
                field,
            },
            Instruction::Alloca { ty } => InstructionView::Alloca { ty },
            Instruction::ExtractValue { aggregate, index } => InstructionView::ExtractValue {
                aggregate,
                index,
            },
            Instruction::Call { signature, function, arguments } => InstructionView::Call {
                signature,
                function,
                arguments: arguments@,
            },
            Instruction::Jump { target } => InstructionView::Jump { target },
            Instruction::Branch { condition, then_block, else_block } => InstructionView::Branch {
                condition,
                then_block,
                else_block,
            },
            Instruction::Switch { value, default, cases } => InstructionView::Switch {
                value,
                default,
                cases: cases@,
            },
            Instruction::Return { value } => InstructionView::Return { value },
            Instruction::ReturnVoid => InstructionView::ReturnVoid,
            Instruction::Unreachable => InstructionView::Unreachable,
        }
    }
}

impl Instruction {
    /// Whether the instruction ends the control flow of its block.
    pub fn is_terminator(&self) -> (terminator: bool)
        ensures
            terminator == self@.is_terminator(),
    {
        match self {
            Instruction::Jump { .. }
            | Instruction::Branch { .. }
            | Instruction::Switch { .. }
            | Instruction::Return { .. }
            | Instruction::ReturnVoid
            | Instruction::Unreachable => true,
            _ => false,
        }
    }
}

impl InstructionView {
    /// Whether the instruction ends the control flow of its block.
    pub open spec fn is_terminator(self) -> bool {
        self is Jump || self is Branch || self is Switch || self is Return || self is ReturnVoid
            || self is Unreachable
    }
}

/// What a list of instructions says, one view per instruction.
pub open spec fn views(instructions: Seq<Instruction>) -> Seq<InstructionView> {
    Seq::new(instructions.len(), |i: int| instructions[i]@)
}

/// No instruction of the list ends a block: more may follow.
pub open spec fn is_open(instructions: Seq<InstructionView>) -> bool {
    forall|i: int| 0 <= i < instructions.len() ==> !(#[trigger] instructions[i]).is_terminator()
}

/// The list is a finished block: its last instruction is a terminator, and
/// no instruction before it is one.
pub open spec fn is_sealed(instructions: Seq<InstructionView>) -> bool {
    &&& instructions.len() > 0
    &&& instructions.last().is_terminator()
    &&& is_open(instructions.drop_last())
}

/// A block that is still open becomes a finished block by exactly one
/// terminator. The terminator is then the only one in the block and stands
/// last, and whatever were appended behind it, the block would be neither
/// open nor finished.
pub proof fn lemma_one_terminator(
    open: Seq<InstructionView>,
    terminator: InstructionView,
    more: InstructionView,
)
    requires
        is_open(open),
        terminator.is_terminator(),
    ensures
        is_sealed(open.push(terminator)),
        forall|i: int|
            0 <= i < open.len() + 1 ==> ((#[trigger] open.push(terminator)[i]).is_terminator() <==> i
                == open.len()),
        !is_open(open.push(terminator).push(more)),
        !is_sealed(open.push(terminator).push(more)),
{
    assert(open.push(terminator).push(more).drop_last()[open.len() as int].is_terminator());
}

/// A finished block holds exactly one terminator, and holds it last.
pub proof fn lemma_sealed(instructions: Seq<InstructionView>)
    requires
        is_sealed(instructions),
    ensures
        forall|i: int|
            0 <= i < instructions.len() ==> ((#[trigger] instructions[i]).is_terminator() <==> i
                == instructions.len() - 1),
{
    assert forall|i: int| 0 <= i < instructions.len() implies ((#[trigger] instructions[i]).is_terminator()
        <==> i == instructions.len() - 1) by {
        if i < instructions.len() - 1 {
            assert(instructions.drop_last()[i] == instructions[i]);
        }
    }
}

} // verus!
