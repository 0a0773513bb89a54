use std::marker::PhantomData;
use vstd::prelude::*;

verus! {

/// A list of values of different types: the newest value, in front of the
/// list it was prepended to. The type of the list spells out the type of
/// every value in it.
pub struct Cons<Head, Tail> {
    value: Head,
    tail: Tail,
}

/// A list of values of different types: `()`, the empty list, or a [`Cons`].
pub trait HList: Sized {
    /// The number of values in the list.
    spec fn len(&self) -> nat;

    /// The list that holds `value` in front of everything in this list.
    fn cons<Head>(self, value: Head) -> (list: Cons<Head, Self>)
        ensures
            list == Cons::link(value, self),
            list.first() == value,
            list.rest() == self,
    {
        Cons { value, tail: self }
    }
}

/// The position of the value that was prepended last.
pub struct Here;

/// The position one further from the newest value than `P`.
pub struct Next<P> {
    phantom: PhantomData<P>,
}

/// A list that holds a value at the position `P`. Every list that is not
/// empty holds one at [`Here`], and holds at [`Next<P>`] what the list
/// without its newest value holds at `P`.
pub trait Holds<P>: HList {
    /// The type of the value at the position.
    type Held;

    /// The value at the position.
    spec fn held(&self) -> Self::Held;

    fn fetch(&self) -> (value: &Self::Held)
        ensures
            *value == self.held(),
    ;
}

/// Position 0, counted from the newest value.
pub type Position0 = Here;

/// Position 1, counted from the newest value.
pub type Position1 = Next<Position0>;

/// Position 2, counted from the newest value.
pub type Position2 = Next<Position1>;

/// Position 3, counted from the newest value.
pub type Position3 = Next<Position2>;

/// Position 4, counted from the newest value.
pub type Position4 = Next<Position3>;

/// Position 5, counted from the newest value.
pub type Position5 = Next<Position4>;

/// Position 6, counted from the newest value.
pub type Position6 = Next<Position5>;

/// Position 7, counted from the newest value.
pub type Position7 = Next<Position6>;

/// A list that holds a value at position `INDEX`. Position 0 is the value
/// that was prepended last, position 1 the one before it, and so on: it is
/// the position [`Here`] with `INDEX` times [`Next`] around it, which
/// reaches as far as the list does.
pub trait IndexableBy<const INDEX: usize>: HList {
    /// The type of the value at position `INDEX`.
    type Result;

    /// The value at position `INDEX`.
    spec fn at(&self) -> Self::Result;

    fn index(&self) -> (value: &Self::Result)
        ensures
            *value == self.at(),
    ;
}

impl HList for () {
    open spec fn len(&self) -> nat {
        0
    }
}

impl<Head, Tail: HList> HList for Cons<Head, Tail> {
    open spec fn len(&self) -> nat {
        self.rest().len() + 1
    }
}

impl<Head, Tail> Cons<Head, Tail> {
    /// The list that holds `value` in front of `tail`.
    pub closed spec fn link(value: Head, tail: Tail) -> Self {
        Cons { value, tail }
    }

    /// The newest value of the list.
    pub closed spec fn first(&self) -> Head {
        self.value
    }

    /// The list without its newest value.
    pub closed spec fn rest(&self) -> Tail {
        self.tail
    }

    /// A list is its newest value in front of its rest, and nothing more.
    pub broadcast proof fn lemma_link(value: Head, tail: Tail)
        ensures
            (#[trigger] Self::link(value, tail)).first() == value,
            Self::link(value, tail).rest() == tail,
    {
    }
}

impl<Head, Tail: HList> Holds<Here> for Cons<Head, Tail> {
    type Held = Head;

    open spec fn held(&self) -> Head {
        self.first()
    }

    fn fetch(&self) -> (value: &Head) {
        &self.value
    }
}

impl<P, Head, Tail: Holds<P>> Holds<Next<P>> for Cons<Head, Tail> {
    type Held = <Tail as Holds<P>>::Held;

    open spec fn held(&self) -> <Tail as Holds<P>>::Held {
        self.rest().held()
    }

    fn fetch(&self) -> (value: &<Tail as Holds<P>>::Held) {
        self.tail.fetch()
    }
}

impl<Head, Tail: HList> IndexableBy<0> for Cons<Head, Tail> where
    Cons<Head, Tail>: Holds<Position0>,
 {
    type Result = <Cons<Head, Tail> as Holds<Position0>>::Held;

    open spec fn at(&self) -> <Cons<Head, Tail> as Holds<Position0>>::Held {
        Holds::<Position0>::held(self)
    }

    fn index(&self) -> (value: &<Cons<Head, Tail> as Holds<Position0>>::Held) {
        Holds::<Position0>::fetch(self)
    }
}

impl<Head, Tail: HList> IndexableBy<1> for Cons<Head, Tail> where
    Cons<Head, Tail>: Holds<Position1>,
 {
    type Result = <Cons<Head, Tail> as Holds<Position1>>::Held;

    open spec fn at(&self) -> <Cons<Head, Tail> as Holds<Position1>>::Held {
        Holds::<Position1>::held(self)
    }

    fn index(&self) -> (value: &<Cons<Head, Tail> as Holds<Position1>>::Held) {
        Holds::<Position1>::fetch(self)
    }
}

impl<Head, Tail: HList> IndexableBy<2> for Cons<Head, Tail> where
    Cons<Head, Tail>: Holds<Position2>,
 {
    type Result = <Cons<Head, Tail> as Holds<Position2>>::Held;

    open spec fn at(&self) -> <Cons<Head, Tail> as Holds<Position2>>::Held {
        Holds::<Position2>::held(self)
    }

    fn index(&self) -> (value: &<Cons<Head, Tail> as Holds<Position2>>::Held) {
        Holds::<Position2>::fetch(self)
    }
}

impl<Head, Tail: HList> IndexableBy<3> for Cons<Head, Tail> where
    Cons<Head, Tail>: Holds<Position3>,
 {
    type Result = <Cons<Head, Tail> as Holds<Position3>>::Held;

    open spec fn at(&self) -> <Cons<Head, Tail> as Holds<Position3>>::Held {
        Holds::<Position3>::held(self)
    }

    fn index(&self) -> (value: &<Cons<Head, Tail> as Holds<Position3>>::Held) {
        Holds::<Position3>::fetch(self)
    }
}

impl<Head, Tail: HList> IndexableBy<4> for Cons<Head, Tail> where
    Cons<Head, Tail>: Holds<Position4>,
 {
    type Result = <Cons<Head, Tail> as Holds<Position4>>::Held;

    open spec fn at(&self) -> <Cons<Head, Tail> as Holds<Position4>>::Held {
        Holds::<Position4>::held(self)
    }

    fn index(&self) -> (value: &<Cons<Head, Tail> as Holds<Position4>>::Held) {
        Holds::<Position4>::fetch(self)
    }
}

impl<Head, Tail: HList> IndexableBy<5> for Cons<Head, Tail> where
    Cons<Head, Tail>: Holds<Position5>,
 {
    type Result = <Cons<Head, Tail> as Holds<Position5>>::Held;

    open spec fn at(&self) -> <Cons<Head, Tail> as Holds<Position5>>::Held {
        Holds::<Position5>::held(self)
    }

    fn index(&self) -> (value: &<Cons<Head, Tail> as Holds<Position5>>::Held) {
        Holds::<Position5>::fetch(self)
    }
}

impl<Head, Tail: HList> IndexableBy<6> for Cons<Head, Tail> where
    Cons<Head, Tail>: Holds<Position6>,
 {
    type Result = <Cons<Head, Tail> as Holds<Position6>>::Held;

    open spec fn at(&self) -> <Cons<Head, Tail> as Holds<Position6>>::Held {
        Holds::<Position6>::held(self)
    }

    fn index(&self) -> (value: &<Cons<Head, Tail> as Holds<Position6>>::Held) {
        Holds::<Position6>::fetch(self)
    }
}

impl<Head, Tail: HList> IndexableBy<7> for Cons<Head, Tail> where
    Cons<Head, Tail>: Holds<Position7>,
 {
    type Result = <Cons<Head, Tail> as Holds<Position7>>::Held;

    open spec fn at(&self) -> <Cons<Head, Tail> as Holds<Position7>>::Held {
        Holds::<Position7>::held(self)
    }

    fn index(&self) -> (value: &<Cons<Head, Tail> as Holds<Position7>>::Held) {
        Holds::<Position7>::fetch(self)
    }
}

impl<Head> Cons<Head, ()> {
    /// The list that holds `value` and nothing else.
    pub fn new(value: Head) -> (list: Self)
        ensures
            list == Cons::link(value, ()),
            list.first() == value,
    {
        Cons { value, tail: () }
    }
}

impl<Head, Tail: HList> Cons<Head, Tail> {
    /// The list that holds `value` in front of everything in this list.
    pub fn cons<Newest>(self, value: Newest) -> (list: Cons<Newest, Self>)
        ensures
            list == Cons::link(value, self),
            list.first() == value,
            list.rest() == self,
    {
        Cons { value, tail: self }
    }

    /// The value at position `INDEX`, with the type it was prepended with.
    /// A position that the list does not have is refused by the compiler.
    pub fn get<const INDEX: usize>(&self) -> (value: &<Self as IndexableBy<INDEX>>::Result) where
        Self: IndexableBy<INDEX>,

        ensures
            *value == IndexableBy::<INDEX>::at(self),
    {
        self.index()
    }
}

/// Prepending makes a list one longer.
pub proof fn lemma_cons_len<Head, Tail: HList>(list: Tail, value: Head)
    ensures
        Cons::link(value, list).len() == list.len() + 1,
{
}

/// The value prepended last is at position 0, whatever the list held before.
pub proof fn lemma_newest_first<Head, Tail: HList>(list: Tail, value: Head)
    ensures
        Holds::<Here>::held(&Cons::link(value, list)) == value,
        IndexableBy::<0>::at(&Cons::link(value, list)) == value,
{
}

/// Prepending moves every value one position further from the front and
/// changes none: what the list held at any position `P`, the longer list
/// holds at the position after `P`.
pub proof fn lemma_shift<P, Head, Tail: Holds<P>>(list: Tail, value: Head)
    ensures
        Holds::<Next<P>>::held(&Cons::link(value, list)) == Holds::<P>::held(&list),
{
}

/// Once one value has been prepended behind it, a value is at position 1.
pub proof fn lemma_after_1<Head, Tail: HList, A>(
    list: Tail,
    value: Head,
    a: A,
)
    ensures
        ({
            let behind = Cons::link(value, list);
            let first = Cons::link(a, behind);
            IndexableBy::<1>::at(&first) == value
        }),
{
}

/// Once two values have been prepended behind it, a value is at position 2.
pub proof fn lemma_after_2<Head, Tail: HList, A, B>(
    list: Tail,
    value: Head,
    a: A,
    b: B,
)
    ensures
        ({
            let behind = Cons::link(value, list);
            let first = Cons::link(a, behind);
            let second = Cons::link(b, first);
            IndexableBy::<2>::at(&second) == value
        }),
{
}

/// Once three values have been prepended behind it, a value is at position 3.
pub proof fn lemma_after_3<Head, Tail: HList, A, B, C>(
    list: Tail,
    value: Head,
    a: A,
    b: B,
    c: C,
)
    ensures
        ({
            let behind = Cons::link(value, list);
            let first = Cons::link(a, behind);
            let second = Cons::link(b, first);
            let third = Cons::link(c, second);
            IndexableBy::<3>::at(&third) == value
        }),
{
}

/// Once four values have been prepended behind it, a value is at position 4.
pub proof fn lemma_after_4<Head, Tail: HList, A, B, C, D>(
    list: Tail,
    value: Head,
    a: A,
    b: B,
    c: C,
    d: D,
)
    ensures
        ({
            let behind = Cons::link(value, list);
            let first = Cons::link(a, behind);
            let second = Cons::link(b, first);
            let third = Cons::link(c, second);
            let fourth = Cons::link(d, third);
            IndexableBy::<4>::at(&fourth) == value
        }),
{
}

/// Once five values have been prepended behind it, a value is at position 5.
pub proof fn lemma_after_5<Head, Tail: HList, A, B, C, D, E>(
    list: Tail,
    value: Head,
    a: A,
    b: B,
    c: C,
    d: D,
    e: E,
)
    ensures
        ({
            let behind = Cons::link(value, list);
            let first = Cons::link(a, behind);
            let second = Cons::link(b, first);
            let third = Cons::link(c, second);
            let fourth = Cons::link(d, third);
            let fifth = Cons::link(e, fourth);
            IndexableBy::<5>::at(&fifth) == value
        }),
{
}

/// Once six values have been prepended behind it, a value is at position 6.
pub proof fn lemma_after_6<Head, Tail: HList, A, B, C, D, E, F>(
    list: Tail,
    value: Head,
    a: A,
    b: B,
    c: C,
    d: D,
    e: E,
    f: F,
)
    ensures
        ({
            let behind = Cons::link(value, list);
            let first = Cons::link(a, behind);
            let second = Cons::link(b, first);
            let third = Cons::link(c, second);
            let fourth = Cons::link(d, third);
            let fifth = Cons::link(e, fourth);
            let sixth = Cons::link(f, fifth);
            IndexableBy::<6>::at(&sixth) == value
        }),
{
}

/// Once seven values have been prepended behind it, a value is at position 7.
pub proof fn lemma_after_7<Head, Tail: HList, A, B, C, D, E, F, G>(
    list: Tail,
    value: Head,
    a: A,
    b: B,
    c: C,
    d: D,
    e: E,
    f: F,
    g: G,
)
    ensures
        ({
            let behind = Cons::link(value, list);
            let first = Cons::link(a, behind);
            let second = Cons::link(b, first);
            let third = Cons::link(c, second);
            let fourth = Cons::link(d, third);
            let fifth = Cons::link(e, fourth);
            let sixth = Cons::link(f, fifth);
            let seventh = Cons::link(g, sixth);
            IndexableBy::<7>::at(&seventh) == value
        }),
{
}

} // verus!
