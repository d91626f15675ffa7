//! The scripting language: its statement tree and the compiler that lowers the
//! tree into an indexed bytecode program.

pub mod compiler;
pub mod grammar;

use std::ops::Range;
use vstd::prelude::*;

verus! {

/// A number, held as the bit pattern of a 64-bit IEEE 754 float.
#[derive(Clone, Copy, Debug, PartialEq, Eq)]
pub struct Scalar(pub u64);

/// An expression of the language. A span is the range of offsets in the
/// processed output that the expression was read from.
#[derive(Debug, PartialEq, Eq)]
pub enum Expression {
    /// A block of code between braces.
    Code(Statements),
    /// A string literal.
    String(String),
    /// A number literal.
    Number(Scalar),
    /// `true` or `false`.
    Boolean(bool),
    /// An array of expressions.
    Array(Vec<Expression>, Range<usize>),
    /// A command without arguments, by the name as it was written.
    NularCommand(String, Range<usize>),
    /// A command with one argument, by the name as it was written.
    UnaryCommand(String, Box<Expression>, Range<usize>),
    /// A command with two arguments, by the name as it was written.
    BinaryCommand(String, Box<Expression>, Box<Expression>, Range<usize>),
    /// A variable, by the name as it was written.
    Variable(String, Range<usize>),
}

/// A statement of the language.
#[derive(Debug, PartialEq, Eq)]
pub enum Statement {
    /// Assignment to a global variable.
    AssignGlobal(String, Expression, Range<usize>),
    /// Assignment to a local variable.
    AssignLocal(String, Expression, Range<usize>),
    /// An expression on its own.
    Expression(Expression),
}

/// A list of statements.
#[derive(Debug, PartialEq, Eq)]
pub struct Statements {
    pub content: Vec<Statement>,
}

} // verus!
