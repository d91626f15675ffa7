//! The compiled form of a program: instructions, constants, and the two pools
//! that instructions point into.

use vstd::prelude::*;

verus! {

/// Where in the source files an instruction came from.
#[derive(Clone, Copy, Debug, PartialEq, Eq, Structural)]
pub struct SourceInfo {
    /// Offset in the processed output.
    pub offset: u32,
    /// Index into the file names of the compiled program.
    pub file_index: u8,
    /// Line in the source file, counted from 1.
    pub file_line: u16,
}

/// One instruction of the stack machine.
#[derive(Clone, Copy, Debug, PartialEq, Eq, Structural)]
pub enum Instruction {
    /// Marks the start of a statement.
    EndStatement,
    /// Pushes the constant with the given index.
    Push(u16),
    /// Assigns the top of the stack to the global variable with the given name index.
    AssignTo(u16, SourceInfo),
    /// Assigns the top of the stack to the local variable with the given name index.
    AssignToLocal(u16, SourceInfo),
    /// Builds an array from the given number of values on the stack.
    MakeArray(u16, SourceInfo),
    /// Calls the nular command with the given name index.
    CallNular(u16, SourceInfo),
    /// Calls the unary command with the given name index.
    CallUnary(u16, SourceInfo),
    /// Calls the binary command with the given name index.
    CallBinary(u16, SourceInfo),
    /// Reads the variable with the given name index.
    GetVariable(u16, SourceInfo),
}

/// A sequence of instructions: the code of one block.
#[derive(Clone, Debug, PartialEq, Eq)]
pub struct Instructions {
    pub contents: Vec<Instruction>,
}

/// The mathematical value of an [`Instructions`].
pub struct InstructionsView {
    pub contents: Seq<Instruction>,
}

impl View for Instructions {
    type V = InstructionsView;

    open spec fn view(&self) -> InstructionsView {
        InstructionsView { contents: self.contents@ }
    }
}

/// A value known at compile time.
#[derive(Debug, PartialEq, Eq)]
pub enum Constant {
    /// A compiled block of code.
    Code(Instructions),
    /// A string.
    String(String),
    /// A number, held as the bit pattern of a 64-bit IEEE 754 float.
    Scalar(u64),
    /// A boolean.
    Boolean(bool),
    /// An array of constants.
    Array(Vec<Constant>),
    /// A nular command whose value is fixed, by its canonical name.
    NularCommand(String),
}

/// The mathematical value of a [`Constant`]. Two constants are the same
/// constant exactly when their values are equal.
pub enum ConstantView {
    Code(InstructionsView),
    String(Seq<char>),
    Scalar(u64),
    Boolean(bool),
    Array(Seq<ConstantView>),
    NularCommand(Seq<char>),
}

impl View for Constant {
    type V = ConstantView;

    open spec fn view(&self) -> ConstantView
        decreases self,
    {
        match self {
            Constant::Code(code) => ConstantView::Code(code@),
            Constant::String(text) => ConstantView::String(text@),
            Constant::Scalar(bits) => ConstantView::Scalar(*bits),
            Constant::Boolean(value) => ConstantView::Boolean(*value),
            Constant::Array(items) => ConstantView::Array(constant_views(items@)),
            Constant::NularCommand(name) => ConstantView::NularCommand(name@),
        }
    }
}

/// The values of a sequence of constants, one for one.
pub open spec fn constant_views(items: Seq<Constant>) -> Seq<ConstantView>
    decreases items,
{
    Seq::new(
        items.len(),
        |i: int|
            if 0 <= i < items.len() {
                items[i]@
            } else {
                ConstantView::Boolean(false)
            },
    )
}

/// A compiled program: the pools, and the index of the constant that holds
/// the code to start with.
#[derive(Debug, PartialEq, Eq)]
pub struct Compiled {
    pub entry_point: u16,
    pub constants_cache_compression: bool,
    pub constants_cache: Vec<Constant>,
    pub names_cache: Vec<String>,
    pub file_names: Vec<String>,
}

/// The mathematical value of a [`Compiled`].
pub struct CompiledView {
    pub entry_point: u16,
    pub constants_cache_compression: bool,
    pub constants_cache: Seq<ConstantView>,
    pub names_cache: Seq<Seq<char>>,
    pub file_names: Seq<Seq<char>>,
}

impl View for Compiled {
    type V = CompiledView;

    open spec fn view(&self) -> CompiledView {
        CompiledView {
            entry_point: self.entry_point,
            constants_cache_compression: self.constants_cache_compression,
            constants_cache: self.constants_cache@.map_values(|constant: Constant| constant@),
            names_cache: self.names_cache@.map_values(|name: String| name@),
            file_names: self.file_names@.map_values(|name: String| name@),
        }
    }
}

/// A value that a pool can hold: two of them can be compared, and are the same
/// entry exactly when their mathematical values are equal.
pub trait Pooled: View + Sized {
    /// Whether the two values are the same entry.
    fn same(&self, other: &Self) -> (b: bool)
        ensures
            b == (self@ == other@),
    ;
}

impl Pooled for String {
    fn same(&self, other: &Self) -> (b: bool) {
        *self == *other
    }
}

impl Instructions {
    /// Whether the two sequences hold the same instructions.
    pub fn same(&self, other: &Instructions) -> (b: bool)
        ensures
            b == (self@ == other@),
    {
        if self.contents.len() != other.contents.len() {
            return false;
        }
        let mut i: usize = 0;
        while i < self.contents.len()
            invariant
                i <= self.contents.len(),
                self.contents.len() == other.contents.len(),
                forall|j: int| 0 <= j < i ==> self.contents@[j] == other.contents@[j],
            decreases self.contents.len() - i,
        {
            if self.contents[i] != other.contents[i] {
                return false;
            }
            i += 1;
        }
        assert(self.contents@ =~= other.contents@);
        true
    }
}

/// Whether the two lists hold the same constants, place by place.
fn same_constants(a: &Vec<Constant>, b: &Vec<Constant>) -> (r: bool)
    ensures
        r == (constant_views(a@) == constant_views(b@)),
    decreases a,
{
    if a.len() != b.len() {
        assert(constant_views(a@).len() != constant_views(b@).len());
        return false;
    }
    let mut i: usize = 0;
    while i < a.len()
        invariant
            i <= a.len(),
            a.len() == b.len(),
            forall|j: int| 0 <= j < i ==> a@[j]@ == b@[j]@,
        decreases a.len() - i,
    {
        if !a[i].equals(&b[i]) {
            assert(constant_views(a@)[i as int] != constant_views(b@)[i as int]);
            return false;
        }
        i += 1;
    }
    assert(constant_views(a@) =~= constant_views(b@));
    true
}

impl Constant {
    /// Whether the two constants have the same value, compared part by part.
    pub fn equals(&self, other: &Constant) -> (b: bool)
        ensures
            b == (self@ == other@),
        decreases self,
    {
        match self {
            Constant::Code(a) => match other {
                Constant::Code(b) => a.same(b),
                _ => false,
            },
            Constant::String(a) => match other {
                Constant::String(b) => *a == *b,
                _ => false,
            },
            Constant::Scalar(a) => match other {
                Constant::Scalar(b) => *a == *b,
                _ => false,
            },
            Constant::Boolean(a) => match other {
                Constant::Boolean(b) => *a == *b,
                _ => false,
            },
            Constant::Array(a) => match other {
                Constant::Array(b) => same_constants(a, b),
                _ => false,
            },
            Constant::NularCommand(a) => match other {
                Constant::NularCommand(b) => *a == *b,
                _ => false,
            },
        }
    }
}

impl Pooled for Constant {
    fn same(&self, other: &Self) -> (b: bool) {
        self.equals(other)
    }
}

} // verus!
