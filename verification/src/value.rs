use std::marker::PhantomData;
use vstd::prelude::*;

use crate::types::ValueType;

verus! {

/// A reference to one value of the program under construction.
///
/// A reference is plain data: it names the value by where it comes from, so
/// that it can be copied freely and resolved by whoever replays the program.
#[derive(Clone, Copy, Debug, PartialEq, Eq, Structural)]
pub enum ValueRef {
    /// An integer constant of `width` bits. `bits` holds them: the two's
    /// complement pattern of the number at that width, with zeros above.
    Constant { width: u32, bits: u64 },
    /// The function declared at position `index` of its module.
    Function { index: usize },
    /// Parameter number `position` of the function declared at position
    /// `function` of its module.
    Parameter { function: usize, position: u32 },
    /// The address of the global declared at position `index` of its module.
    Global { index: usize },
    /// The address of the global at position `index`, as a pointer to bytes.
    Bytes { index: usize },
    /// The result of the instruction at position `index` of block `block`.
    Result { block: usize, index: usize },
}

/// The two's complement pattern of the integer `n` at a width of `width`
/// bits, 32 or 64, which `n` fits in.
pub open spec fn pattern(n: int, width: u32) -> u64 {
    if n >= 0 {
        n as u64
    } else if width == 32 {
        (n + 0x1_0000_0000) as u64
    } else {
        (n + 0x1_0000_0000_0000_0000) as u64
    }
}

/// A type whose values can be written into the program as constants.
pub trait Constant: ValueType + Sized {
    /// The reference to the constant with this value.
    spec fn reference(self) -> ValueRef;

    fn constant(self) -> (value: ValueRef)
        ensures
            value == self.reference(),
    ;
}

/// An integer type: a constant type that has a zero and an order.
pub trait Integer: Constant {
    /// The reference to the zero of this type.
    spec fn zero_reference() -> ValueRef;

    /// Whether the values of this type are read as signed numbers.
    spec fn signed() -> bool;

    fn zero() -> (value: ValueRef)
        ensures
            value == Self::zero_reference(),
    ;

    fn is_signed() -> (signed: bool)
        ensures
            signed == Self::signed(),
    ;
}

impl Constant for i32 {
    open spec fn reference(self) -> ValueRef {
        ValueRef::Constant { width: 32, bits: pattern(self as int, 32) }
    }

    fn constant(self) -> (value: ValueRef) {
        let low: u32 = #[verifier::truncate] (self as u32);
        let bits: u64 = low as u64;
        assert(bits == pattern(self as int, 32)) by (bit_vector)
            requires
                bits == (self as u32) as u64,
        ;
        ValueRef::Constant { width: 32, bits }
    }
}

impl Integer for i32 {
    open spec fn zero_reference() -> ValueRef {
        ValueRef::Constant { width: 32, bits: 0 }
    }

    open spec fn signed() -> bool {
        true
    }

    fn zero() -> (value: ValueRef) {
        let zero: i32 = 0;
        zero.constant()
    }

    fn is_signed() -> (signed: bool) {
        true
    }
}

impl Constant for i64 {
    open spec fn reference(self) -> ValueRef {
        ValueRef::Constant { width: 64, bits: pattern(self as int, 64) }
    }

    fn constant(self) -> (value: ValueRef) {
        let bits: u64 = #[verifier::truncate] (self as u64);
        assert(bits == pattern(self as int, 64)) by (bit_vector)
            requires
                bits == self as u64,
        ;
        ValueRef::Constant { width: 64, bits }
    }
}

impl Integer for i64 {
    open spec fn zero_reference() -> ValueRef {
        ValueRef::Constant { width: 64, bits: 0 }
    }

    open spec fn signed() -> bool {
        true
    }

    fn zero() -> (value: ValueRef) {
        let zero: i64 = 0;
        zero.constant()
    }

    fn is_signed() -> (signed: bool) {
        true
    }
}

impl Constant for u32 {
    open spec fn reference(self) -> ValueRef {
        ValueRef::Constant { width: 32, bits: pattern(self as int, 32) }
    }

    fn constant(self) -> (value: ValueRef) {
        ValueRef::Constant { width: 32, bits: self as u64 }
    }
}

impl Integer for u32 {
    open spec fn zero_reference() -> ValueRef {
        ValueRef::Constant { width: 32, bits: 0 }
    }

    open spec fn signed() -> bool {
        false
    }

    fn zero() -> (value: ValueRef) {
        let zero: u32 = 0;
        zero.constant()
    }

    fn is_signed() -> (signed: bool) {
        false
    }
}

impl Constant for u64 {
    open spec fn reference(self) -> ValueRef {
        ValueRef::Constant { width: 64, bits: pattern(self as int, 64) }
    }

    fn constant(self) -> (value: ValueRef) {
        ValueRef::Constant { width: 64, bits: self }
    }
}

impl Integer for u64 {
    open spec fn zero_reference() -> ValueRef {
        ValueRef::Constant { width: 64, bits: 0 }
    }

    open spec fn signed() -> bool {
        false
    }

    fn zero() -> (value: ValueRef) {
        let zero: u64 = 0;
        zero.constant()
    }

    fn is_signed() -> (signed: bool) {
        false
    }
}

/// A value whose type is not known to the compiler. It is accepted only
/// where a call takes arguments beyond its fixed parameters.
#[derive(Clone, Copy)]
pub struct UntypedValue {
    value: ValueRef,
}

impl View for UntypedValue {
    type V = ValueRef;

    closed spec fn view(&self) -> ValueRef {
        self.value
    }
}

impl UntypedValue {
    pub(crate) fn value(&self) -> (value: ValueRef)
        ensures
            value == self@,
    {
        self.value
    }
}

/// A reference to a value, tagged at compile time with the type `T` of the
/// value. The tag is not stored.
pub struct Value<T> {
    value: ValueRef,
    phantom: PhantomData<T>,
}

impl<T> View for Value<T> {
    type V = ValueRef;

    closed spec fn view(&self) -> ValueRef {
        self.value
    }
}

impl<T> Clone for Value<T> {
    fn clone(&self) -> (copy: Self)
        ensures
            copy == *self,
    {
        Value { value: self.value, phantom: self.phantom }
    }
}

impl<T> Copy for Value<T> {}

impl<T> Value<T> {
    /// The value with tag `T` that refers to `value`, for use in contracts.
    pub closed spec fn wrap(value: ValueRef) -> Self {
        Value { value, phantom: PhantomData }
    }

    /// A wrapped reference is the view of what wraps it.
    pub broadcast proof fn lemma_wrap(value: ValueRef)
        ensures
            (#[trigger] Self::wrap(value))@ == value,
    {
    }

    /// Tags a reference with `T`. Nothing checks that the value referred to
    /// has that type: the caller vouches for it.
    pub fn new(value: ValueRef) -> (typed: Self)
        ensures
            typed == Self::wrap(value),
            typed@ == value,
    {
        Value { value, phantom: PhantomData }
    }

    /// The constant with the value `t`.
    pub fn constant(t: T) -> (typed: Self) where T: Constant
        ensures
            typed == Self::wrap(t.reference()),
            typed@ == t.reference(),
    {
        Value { value: t.constant(), phantom: PhantomData }
    }

    /// The same reference without its tag.
    pub fn untyped(&self) -> (untyped: UntypedValue)
        ensures
            untyped@ == self@,
    {
        UntypedValue { value: self.value }
    }

    /// The reference behind the tag.
    pub fn value(&self) -> (value: ValueRef)
        ensures
            value == self@,
    {
        self.value
    }
}

} // verus!
