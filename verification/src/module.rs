use vstd::prelude::*;
use vstd::slice::slice_to_vec;
use vstd::string::StringSliceAdditionalSpecFns;

use crate::function::Function;
use crate::types::{FunctionType, Pointer, Type, ValueType};
use crate::value::{Constant, Integer, Value, ValueRef};

verus! {

/// How a global starts out.
#[derive(Debug, PartialEq, Eq)]
pub enum Initializer {
    /// The bytes of a string, closed by a zero byte.
    Text(Vec<u8>),
    /// `count` copies of one constant of type `element`.
    Repeat { element: Type, value: ValueRef, count: u32 },
    /// One constant.
    Value(ValueRef),
}

/// What an [`Initializer`] says, with its bytes as a sequence.
pub enum InitializerView {
    Text(Seq<u8>),
    Repeat { element: Type, value: ValueRef, count: u32 },
    Value(ValueRef),
}

impl View for Initializer {
    type V = InitializerView;

    open spec fn view(&self) -> InitializerView {
        match *self {
            Initializer::Text(bytes) => InitializerView::Text(bytes@),
            Initializer::Repeat { element, value, count } => InitializerView::Repeat {
                element,
                value,
                count,
            },
            Initializer::Value(value) => InitializerView::Value(value),
        }
    }
}

/// A function that a module declares.
#[derive(Debug, PartialEq, Eq)]
pub struct FunctionDeclaration {
    pub name: String,
    pub signature: Type,
}

/// What a [`FunctionDeclaration`] says.
pub struct FunctionView {
    pub name: Seq<char>,
    pub signature: Type,
}

impl View for FunctionDeclaration {
    type V = FunctionView;

    open spec fn view(&self) -> FunctionView {
        FunctionView { name: self.name@, signature: self.signature }
    }
}

/// A block that was appended to a function of the module.
#[derive(Debug, PartialEq, Eq)]
pub struct BlockDeclaration {
    /// The position of the function among the functions of the module.
    pub function: usize,
    pub name: String,
}

/// What a [`BlockDeclaration`] says.
pub struct BlockView {
    pub function: usize,
    pub name: Seq<char>,
}

impl View for BlockDeclaration {
    type V = BlockView;

    open spec fn view(&self) -> BlockView {
        BlockView { function: self.function, name: self.name@ }
    }
}

/// A global of the module. Every global is private to its module.
#[derive(Debug, PartialEq, Eq)]
pub struct GlobalDeclaration {
    pub name: String,
    pub ty: Type,
    /// Whether the program may only read the global.
    pub constant: bool,
    pub initializer: Initializer,
}

/// What a [`GlobalDeclaration`] says.
pub struct GlobalView {
    pub name: Seq<char>,
    pub ty: Type,
    pub constant: bool,
    pub initializer: InitializerView,
}

impl View for GlobalDeclaration {
    type V = GlobalView;

    open spec fn view(&self) -> GlobalView {
        GlobalView {
            name: self.name@,
            ty: self.ty,
            constant: self.constant,
            initializer: self.initializer@,
        }
    }
}

/// Everything that was declared in one unit of the program: its functions,
/// their blocks and its globals, each list in the order of declaration.
pub struct Module {
    name: String,
    source: String,
    functions: Vec<FunctionDeclaration>,
    blocks: Vec<BlockDeclaration>,
    built: Vec<usize>,
    globals: Vec<GlobalDeclaration>,
}

/// What a [`Module`] holds.
pub struct ModuleView {
    pub name: Seq<char>,
    pub source: Seq<char>,
    pub functions: Seq<FunctionView>,
    pub blocks: Seq<BlockView>,
    /// The blocks whose builder has been handed out, in the order it was.
    pub built: Seq<usize>,
    pub globals: Seq<GlobalView>,
}

impl ModuleView {
    /// Every block belongs to a declared function, and every builder that
    /// was handed out was that of an appended block, handed out once.
    pub open spec fn well_formed(self) -> bool {
        &&& forall|i: int|
            0 <= i < self.blocks.len() ==> (#[trigger] self.blocks[i]).function
                < self.functions.len()
        &&& forall|i: int| 0 <= i < self.built.len() ==> #[trigger] self.built[i] < self.blocks.len()
        &&& forall|i: int, j: int|
            0 <= i < j < self.built.len() ==> #[trigger] self.built[i] != #[trigger] self.built[j]
    }
}

impl View for Module {
    type V = ModuleView;

    closed spec fn view(&self) -> ModuleView {
        ModuleView {
            name: self.name@,
            source: self.source@,
            functions: Seq::new(self.functions@.len(), |i: int| self.functions@[i]@),
            blocks: Seq::new(self.blocks@.len(), |i: int| self.blocks@[i]@),
            built: self.built@,
            globals: Seq::new(self.globals@.len(), |i: int| self.globals@[i]@),
        }
    }
}

/// Whether a string can be handed to the backend as a name or as text: it
/// holds no zero byte.
pub open spec fn is_c_string(text: &str) -> bool {
    !text.spec_bytes().contains(0u8)
}

/// Tests whether a string can be handed to the backend as a name or as text.
pub fn check_c_string(text: &str) -> (accepted: bool)
    ensures
        accepted == is_c_string(text),
{
    let bytes = text.as_bytes();
    let mut i: usize = 0;
    while i < bytes.len()
        invariant
            i <= bytes.len(),
            bytes@ == text.spec_bytes(),
            forall|j: int| 0 <= j < i ==> bytes@[j] != 0u8,
        decreases bytes.len() - i,
    {
        if bytes[i] == 0u8 {
            return false;
        }
        i += 1;
    }
    true
}

impl Module {
    /// What every module holds.
    #[verifier::type_invariant]
    pub open spec fn well_formed(self) -> bool {
        self@.well_formed()
    }

    /// Takes everything out of the module, which is left empty and without
    /// a name.
    fn take(&mut self) -> (taken: Module)
        ensures
            taken == *old(self),
    {
        let mut taken = Module {
            name: String::new(),
            source: String::new(),
            functions: Vec::new(),
            blocks: Vec::new(),
            built: Vec::new(),
            globals: Vec::new(),
        };
        core::mem::swap(self, &mut taken);
        taken
    }

    /// An empty module called `name`, said to come from the file `source`.
    pub fn new(name: &str, source: &str) -> (module: Module)
        requires
            is_c_string(name),
            is_c_string(source),
        ensures
            module@ == (ModuleView {
                name: name@,
                source: source@,
                functions: Seq::empty(),
                blocks: Seq::empty(),
                built: Seq::empty(),
                globals: Seq::empty(),
            }),
    {
        let module = Module {
            name: name.to_owned(),
            source: source.to_owned(),
            functions: Vec::new(),
            blocks: Vec::new(),
            built: Vec::new(),
            globals: Vec::new(),
        };
        assert(module@.functions =~= Seq::empty());
        assert(module@.blocks =~= Seq::empty());
        assert(module@.globals =~= Seq::empty());
        module
    }

    /// Declares a function called `name` with the signature `T`.
    pub fn add_function<T: FunctionType>(&mut self, name: &str) -> (function: Function<T>)
        requires
            is_c_string(name),
        ensures
            final(self)@ == (ModuleView {
                functions: old(self)@.functions.push(
                    FunctionView { name: name@, signature: T::signature() },
                ),
                ..old(self)@
            }),
            function@ == (ValueRef::Function { index: old(self)@.functions.len() as usize }),
    {
        let taken = self.take();
        proof {
            use_type_invariant(&taken);
        }
        let Module { name: own, source, mut functions, blocks, built, globals } = taken;
        let index = functions.len();
        functions.push(FunctionDeclaration { name: name.to_owned(), signature: T::function_type() });
        assert forall|i: int| 0 <= i < blocks@.len() implies (#[trigger] blocks@[i]).function
            < functions@.len() by {
            assert(taken@.blocks[i].function < taken@.functions.len());
        }
        let grown = Module { name: own, source, functions, blocks, built, globals };
        assert(grown@.functions =~= old(self)@.functions.push(
            FunctionView { name: name@, signature: T::signature() },
        ));
        *self = grown;
        Function::new(ValueRef::Function { index })
    }

    /// Appends a block called `name` to the function declared at position
    /// `function`.
    pub(crate) fn add_block(&mut self, function: usize, name: &str) -> (index: usize)
        requires
            function < old(self)@.functions.len(),
            is_c_string(name),
        ensures
            final(self)@ == (ModuleView {
                blocks: old(self)@.blocks.push(BlockView { function, name: name@ }),
                ..old(self)@
            }),
            index == old(self)@.blocks.len(),
    {
        let taken = self.take();
        proof {
            use_type_invariant(&taken);
        }
        let Module { name: own, source, functions, mut blocks, built, globals } = taken;
        let index = blocks.len();
        blocks.push(BlockDeclaration { function, name: name.to_owned() });
        assert forall|i: int| 0 <= i < blocks@.len() implies (#[trigger] blocks@[i]).function
            < functions@.len() by {
            if i < blocks@.len() - 1 {
                assert(taken@.blocks[i].function < taken@.functions.len());
            }
        }
        let grown = Module { name: own, source, functions, blocks, built, globals };
        assert(grown@.blocks =~= old(self)@.blocks.push(BlockView { function, name: name@ }));
        *self = grown;
        index
    }

    /// Hands out the right to build the block at position `block`, once:
    /// granted to a block that was appended and has not been claimed before.
    pub(crate) fn claim(&mut self, block: usize) -> (granted: bool)
        ensures
            granted <==> block < old(self)@.blocks.len() && !old(self)@.built.contains(block),
            granted ==> final(self)@ == (ModuleView {
                built: old(self)@.built.push(block),
                ..old(self)@
            }),
            !granted ==> final(self)@ == old(self)@,
    {
        proof {
            use_type_invariant(&*self);
        }
        if block >= self.blocks.len() {
            return false;
        }
        let mut i: usize = 0;
        while i < self.built.len()
            invariant
                i <= self.built.len(),
                *self == *old(self),
                forall|j: int| 0 <= j < i ==> self.built@[j] != block,
            decreases self.built.len() - i,
        {
            if self.built[i] == block {
                return false;
            }
            i += 1;
        }
        let taken = self.take();
        let Module { name: own, source, functions, blocks, mut built, globals } = taken;
        built.push(block);
        assert forall|i: int| 0 <= i < built@.len() implies #[trigger] built@[i] < blocks@.len() by {
            if i < built@.len() - 1 {
                assert(taken@.built[i] < taken@.blocks.len());
            }
        }
        let claimed = Module { name: own, source, functions, blocks, built, globals };
        *self = claimed;
        true
    }

    fn add(&mut self, global: GlobalDeclaration) -> (index: usize)
        ensures
            final(self)@ == (ModuleView {
                globals: old(self)@.globals.push(global@),
                ..old(self)@
            }),
            index == old(self)@.globals.len(),
    {
        let taken = self.take();
        proof {
            use_type_invariant(&taken);
        }
        let Module { name: own, source, functions, blocks, built, mut globals } = taken;
        let index = globals.len();
        globals.push(global);
        assert forall|i: int| 0 <= i < blocks@.len() implies (#[trigger] blocks@[i]).function
            < functions@.len() by {
            assert(taken@.blocks[i].function < taken@.functions.len());
        }
        let grown = Module { name: own, source, functions, blocks, built, globals };
        assert(grown@.globals =~= old(self)@.globals.push(global@));
        *self = grown;
        index
    }

    /// Adds a read-only global that holds the bytes of `string` and a
    /// closing zero byte, and returns a pointer to its first byte.
    pub fn add_string(&mut self, string: &str) -> (value: Value<String>)
        requires
            is_c_string(string),
        ensures
            final(self)@ == (ModuleView {
                globals: old(self)@.globals.push(
                    GlobalView {
                        name: "string"@,
                        ty: Type::Array(
                            Box::new(Type::Int(8)),
                            (string.spec_bytes().len() + 1) as u32,
                        ),
                        constant: true,
                        initializer: InitializerView::Text(string.spec_bytes().push(0u8)),
                    },
                ),
                ..old(self)@
            }),
            value@ == (ValueRef::Bytes { index: old(self)@.globals.len() as usize }),
    {
        let mut bytes = slice_to_vec(string.as_bytes());
        bytes.push(0u8);
        let count: u32 = #[verifier::truncate] (bytes.len() as u32);
        let index = self.add(
            GlobalDeclaration {
                name: "string".to_owned(),
                ty: Type::Array(Box::new(Type::Int(8)), count),
                constant: true,
                initializer: Initializer::Text(bytes),
            },
        );
        Value::new(ValueRef::Bytes { index })
    }

    /// Adds a writable global that holds `N` zeros of the integer type `T`,
    /// and returns a pointer to it.
    pub fn add_array<T: Integer, const N: usize>(&mut self) -> (value: Value<Pointer<[T; N]>>)
        ensures
            final(self)@ == (ModuleView {
                globals: old(self)@.globals.push(
                    GlobalView {
                        name: "array"@,
                        ty: <[T; N]>::descriptor(),
                        constant: false,
                        initializer: InitializerView::Repeat {
                            element: T::descriptor(),
                            value: T::zero_reference(),
                            count: N as u32,
                        },
                    },
                ),
                ..old(self)@
            }),
            value@ == (ValueRef::Global { index: old(self)@.globals.len() as usize }),
    {
        let index = self.add(
            GlobalDeclaration {
                name: "array".to_owned(),
                ty: <[T; N]>::value_type(),
                constant: false,
                initializer: Initializer::Repeat {
                    element: T::value_type(),
                    value: T::zero(),
                    count: #[verifier::truncate] (N as u32),
                },
            },
        );
        Value::new(ValueRef::Global { index })
    }

    /// Adds a writable global that starts out as `value`, and returns a
    /// pointer to it.
    pub fn add_global<T: ValueType + Constant>(&mut self, value: T) -> (pointer: Value<Pointer<T>>)
        ensures
            final(self)@ == (ModuleView {
                globals: old(self)@.globals.push(
                    GlobalView {
                        name: "value"@,
                        ty: T::descriptor(),
                        constant: false,
                        initializer: InitializerView::Value(value.reference()),
                    },
                ),
                ..old(self)@
            }),
            pointer@ == (ValueRef::Global { index: old(self)@.globals.len() as usize }),
    {
        let index = self.add(
            GlobalDeclaration {
                name: "value".to_owned(),
                ty: T::value_type(),
                constant: false,
                initializer: Initializer::Value(value.constant()),
            },
        );
        Value::new(ValueRef::Global { index })
    }

    /// The name of the module.
    pub fn name(&self) -> (name: &String)
        ensures
            name@ == self@.name,
    {
        &self.name
    }

    /// The name of the file that the module is said to come from.
    pub fn source(&self) -> (source: &String)
        ensures
            source@ == self@.source,
    {
        &self.source
    }

    /// The functions declared so far.
    pub fn functions(&self) -> (functions: &Vec<FunctionDeclaration>)
        ensures
            functions@.len() == self@.functions.len(),
            forall|i: int| 0 <= i < functions@.len() ==> (#[trigger] functions@[i])@ == self@.functions[i],
    {
        &self.functions
    }

    /// The blocks appended so far.
    pub fn blocks(&self) -> (blocks: &Vec<BlockDeclaration>)
        ensures
            blocks@.len() == self@.blocks.len(),
            forall|i: int| 0 <= i < blocks@.len() ==> (#[trigger] blocks@[i])@ == self@.blocks[i],
    {
        &self.blocks
    }

    /// The blocks whose builder has been handed out, in the order it was.
    pub fn built(&self) -> (built: &Vec<usize>)
        ensures
            built@ == self@.built,
    {
        &self.built
    }

    /// The globals added so far.
    pub fn globals(&self) -> (globals: &Vec<GlobalDeclaration>)
        ensures
            globals@.len() == self@.globals.len(),
            forall|i: int| 0 <= i < globals@.len() ==> (#[trigger] globals@[i])@ == self@.globals[i],
    {
        &self.globals
    }
}

} // verus!
