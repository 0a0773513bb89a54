use vstd::prelude::*;

use crate::builder::Builder;
use crate::instruction::InstructionView;
use crate::module::{Module, ModuleView};

verus! {

/// A handle to one basic block: the position of the block among the blocks
/// that its module has declared.
#[derive(Clone, Copy, Debug, PartialEq, Eq, Structural)]
pub struct Block {
    value: usize,
}

impl View for Block {
    type V = usize;

    closed spec fn view(&self) -> usize {
        self.value
    }
}

impl Block {
    pub(crate) fn new(value: usize) -> (block: Block)
        ensures
            block@ == value,
    {
        Block { value }
    }

    /// The builder of this block, positioned at its end, with an empty
    /// environment.
    ///
    /// A block holds nothing until its builder has been handed out, and the
    /// builder is handed out once: `None` comes back for a block that
    /// `module` has not appended or whose builder was handed out before.
    /// So a builder always starts at the end of an empty block, no two
    /// builders ever append to one block, and the results of a block are
    /// numbered once.
    pub fn build(&self, module: &mut Module) -> (builder: Option<Builder<()>>)
        ensures
            builder is Some <==> self@ < old(module)@.blocks.len() && !old(module)@.built.contains(
                self@,
            ),
            builder matches Some(builder) ==> {
                &&& builder.block() == *self
                &&& builder@ == Seq::<InstructionView>::empty()
                &&& builder.environment() == ()
                &&& final(module)@ == (ModuleView {
                    built: old(module)@.built.push(self@),
                    ..old(module)@
                })
            },
            builder is None ==> final(module)@ == old(module)@,
    {
        if module.claim(self.value) {
            Some(Builder::new(*self))
        } else {
            None
        }
    }

    /// The position this handle stands for.
    pub fn value(&self) -> (value: usize)
        ensures
            value == self@,
    {
        self.value
    }
}

} // verus!
