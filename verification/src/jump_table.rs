use std::marker::PhantomData;
use vstd::prelude::*;

use crate::block::Block;
use crate::builder::{Builder, SealedBlock};
use crate::instruction::{is_sealed, Instruction, InstructionView};
use crate::types::ValueType;
use crate::value::{Value, ValueRef};

verus! {

/// One arm of a multiway branch: the constant to match and where to go.
pub struct Case {
    value: ValueRef,
    block: Block,
}

impl View for Case {
    type V = (ValueRef, Block);

    closed spec fn view(&self) -> (ValueRef, Block) {
        (self.value, self.block)
    }
}

impl Case {
    pub fn new(value: ValueRef, block: &Block) -> (case: Case)
        ensures
            case@ == (value, *block),
    {
        Case { value, block: *block }
    }
}

/// A multiway branch that is still collecting its cases. It owns the
/// builder of the block it will terminate.
#[must_use]
pub struct JumpTable<T, E> {
    builder: Builder<E>,
    value: ValueRef,
    default: Block,
    cases: Vec<Case>,
    phantom: PhantomData<T>,
}

impl<T, E> JumpTable<T, E> {
    /// The block that the branch will terminate.
    pub closed spec fn block(&self) -> Block {
        self.builder.block()
    }

    /// The environment of the builder that the branch took over.
    pub closed spec fn environment(&self) -> E {
        self.builder.environment()
    }

    /// The instructions emitted to the block before the branch.
    pub closed spec fn emitted(&self) -> Seq<InstructionView> {
        self.builder@
    }

    /// The value that the branch examines.
    pub closed spec fn scrutinee(&self) -> ValueRef {
        self.value
    }

    /// Where control goes when no case matches.
    pub closed spec fn default(&self) -> Block {
        self.default
    }

    /// The cases collected so far, in the order they were added.
    pub closed spec fn cases(&self) -> Seq<(ValueRef, Block)> {
        pairs(self.cases@)
    }
}

/// What a list of cases says, one pair per case.
pub open spec fn pairs(cases: Seq<Case>) -> Seq<(ValueRef, Block)> {
    Seq::new(cases.len(), |i: int| cases[i]@)
}

impl<T: ValueType, E> JumpTable<T, E> {
    pub(crate) fn new(builder: Builder<E>, value: ValueRef, default: &Block) -> (table: Self)
        ensures
            table.block() == builder.block(),
            table.environment() == builder.environment(),
            table.emitted() == builder@,
            table.scrutinee() == value,
            table.default() == *default,
            table.cases() == Seq::<(ValueRef, Block)>::empty(),
    {
        let table = JumpTable {
            builder,
            value,
            default: *default,
            cases: Vec::new(),
            phantom: PhantomData,
        };
        table
    }

    /// Adds one case behind those already there: when the scrutinee equals
    /// `value`, control goes to `block`.
    pub fn case(self, value: &Value<T>, block: &Block) -> (table: Self)
        ensures
            table.block() == self.block(),
            table.environment() == self.environment(),
            table.emitted() == self.emitted(),
            table.scrutinee() == self.scrutinee(),
            table.default() == self.default(),
            table.cases() == self.cases().push((value@, *block)),
    {
        let mut table = self;
        table.cases.push(Case::new(value.value(), block));
        table
    }

    /// Terminates the block with the branch: one switch on the scrutinee,
    /// with the default edge and the cases in the order they were added.
    pub fn finish(self) -> (sealed: SealedBlock<E>)
        ensures
            sealed.block() == self.block(),
            sealed.environment() == self.environment(),
            sealed@.len() <= usize::MAX,
            sealed@ == self.emitted().push(
                InstructionView::Switch {
                    value: self.scrutinee(),
                    default: self.default(),
                    cases: self.cases(),
                },
            ),
            is_sealed(sealed@),
    {
        let JumpTable { builder, value, default, cases, phantom: _ } = self;
        let mut edges: Vec<(ValueRef, Block)> = Vec::new();
        let mut i: usize = 0;
        while i < cases.len()
            invariant
                i <= cases.len(),
                edges@ == pairs(cases@).take(i as int),
            decreases cases.len() - i,
        {
            let case = &cases[i];
            edges.push((case.value, case.block));
            i += 1;
        }
        assert(pairs(cases@).take(i as int) =~= pairs(cases@));
        builder.seal(Instruction::Switch { value, default, cases: edges })
    }
}

} // verus!
