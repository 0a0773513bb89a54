//! A typed construction layer for a block-structured, single-assignment
//! intermediate representation.
//!
//! A [`Module`] declares functions and globals, a [`Function`] appends
//! blocks, and a [`Block`] yields, once, the [`Builder`] that fills it. Every
//! value is a [`Value`] that carries its semantic type as a compile-time tag,
//! so an operand of the wrong type does not compile. A builder is handed on
//! by value from one operation to the next and is given up to the one
//! terminator it emits, which leaves a [`SealedBlock`] behind: nothing can
//! follow a terminator. What the operations produce is also kept in the
//! builder's environment, a [`Cons`] list, newest first, from which it can be
//! fetched again by position with its type intact.
//!
//! Nothing here talks to a code generator. What is declared and emitted is
//! recorded as plain data, in order, for a backend to replay.

pub mod block;
pub mod builder;
pub mod function;
pub mod hlist;
pub mod instruction;
pub mod jump_table;
pub mod module;
pub mod types;
pub mod value;

pub use self::block::Block;
pub use self::builder::{Builder, SealedBlock};
pub use self::function::Function;
pub use self::hlist::{Cons, HList, Here, Holds, IndexableBy, Next};
pub use self::instruction::{Instruction, InstructionView, Predicate};
pub use self::jump_table::JumpTable;
pub use self::module::Module;
pub use self::types::{
    FunctionType, Pointer, Signature, Type, ValueType, Variadic, VariadicFunctionType,
};
pub use self::value::{Constant, Integer, UntypedValue, Value, ValueRef};
