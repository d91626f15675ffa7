//! What the compiler computes, as mathematical functions from a tree and the
//! pools before it to the instructions and the pools after it.
//!
//! Every function here takes the pools as they stand and returns them as they
//! are left, so that the order in which values are first met is part of the
//! result. An error ends the whole computation; what it returns says how far
//! the computation had come: the instructions that were emitted before it, and
//! the pools as they stood.

use super::CompileErrorView;
use super::location::located;
use super::pool::interned;
use super::serializer::{CompiledView, ConstantView, Instruction, InstructionsView};
use crate::common::reporting::Processed;
use crate::sqf::grammar::CommandGrammar;
use crate::sqf::{Expression, Statement, Statements};
use crate::text::ascii_lowercase;
use vstd::prelude::*;

verus! {

/// The two pools of one compilation.
pub struct PoolView {
    pub constants: Seq<ConstantView>,
    pub names: Seq<Seq<char>>,
}

/// Where folding stopped: the error, and the pools as they stood.
pub struct Failed {
    pub error: CompileErrorView,
    pub pool: PoolView,
}

/// Where lowering stopped: the error, the instructions that were emitted
/// before it, and the pools as they stood.
pub struct Stopped {
    pub error: CompileErrorView,
    pub instructions: Seq<Instruction>,
    pub pool: PoolView,
}

/// Whether the pools `after` are the pools `before` with entries added at the
/// end: every entry of before stands at its index.
pub open spec fn grown(before: PoolView, after: PoolView) -> bool {
    before.constants.is_prefix_of(after.constants) && before.names.is_prefix_of(after.names)
}

/// The largest number of elements that an array may have.
pub open spec fn array_limit() -> nat {
    65536
}

/// The canonical form of a name: its lower-case form, where the grammar
/// knows that form. Otherwise the error holds the name as it was written.
pub open spec fn normalized(grammar: CommandGrammar, name: Seq<char>) -> Result<
    Seq<char>,
    CompileErrorView,
> {
    let lower = ascii_lowercase(name);
    if grammar.valid(lower) {
        Ok(lower)
    } else {
        Err(CompileErrorView::InvalidName(name))
    }
}

/// Interning a constant: the pools afterwards and the index of the constant.
pub open spec fn with_constant(pool: PoolView, constant: ConstantView) -> Result<
    (PoolView, u16),
    CompileErrorView,
> {
    match interned(pool.constants, constant) {
        Err(e) => Err(e),
        Ok((constants, index)) => Ok((PoolView { constants, names: pool.names }, index)),
    }
}

/// Interning a name, after it was brought into canonical form: the pools
/// afterwards and the index of the name.
pub open spec fn with_name(grammar: CommandGrammar, pool: PoolView, name: Seq<char>) -> Result<
    (PoolView, u16),
    CompileErrorView,
> {
    match normalized(grammar, name) {
        Err(e) => Err(e),
        Ok(lower) => match interned(pool.names, lower) {
            Err(e) => Err(e),
            Ok((names, index)) => Ok((PoolView { constants: pool.constants, names }, index)),
        },
    }
}

/// The constant that an expression folds to, if it folds to one.
///
/// Literals fold to themselves. A code block folds to its compiled form, which
/// interns what the block holds. An array folds where each of its elements
/// folds; the attempt goes through the elements in order and stops at the
/// first that does not fold. An array that folds and has more elements than
/// an array may have is an error. A nular command folds where the grammar
/// marks it as constant. Nothing else folds.
pub open spec fn folded(
    expression: Expression,
    processed: Processed,
    grammar: CommandGrammar,
    pool: PoolView,
) -> Result<(Option<ConstantView>, PoolView), Failed>
    decreases expression, 0nat,
{
    match expression {
        Expression::Code(statements) => match coded(statements, processed, grammar, pool) {
            Err(failed) => Err(failed),
            Ok((code, after)) => Ok((Some(ConstantView::Code(code)), after)),
        },
        Expression::String(text) => Ok((Some(ConstantView::String(text@)), pool)),
        Expression::Number(number) => Ok((Some(ConstantView::Scalar(number.0)), pool)),
        Expression::Boolean(value) => Ok((Some(ConstantView::Boolean(value)), pool)),
        Expression::Array(items, _) => match folded_items(
            items@,
            items@.len(),
            processed,
            grammar,
            pool,
        ) {
            Err(failed) => Err(failed),
            Ok((None, after)) => Ok((None, after)),
            Ok((Some(constants), after)) => if constants.len() > array_limit() {
                Err(Failed { error: CompileErrorView::ListTooLong, pool: after })
            } else {
                Ok((Some(ConstantView::Array(constants)), after))
            },
        },
        Expression::NularCommand(name, _) => if grammar.constant(ascii_lowercase(name@)) {
            match normalized(grammar, name@) {
                Err(error) => Err(Failed { error, pool }),
                Ok(lower) => Ok((Some(ConstantView::NularCommand(lower)), pool)),
            }
        } else {
            Ok((None, pool))
        },
        _ => Ok((None, pool)),
    }
}

/// The constants that the first `n` of `items` fold to, if each of them
/// folds; `None` from the first that does not fold on.
pub open spec fn folded_items(
    items: Seq<Expression>,
    n: nat,
    processed: Processed,
    grammar: CommandGrammar,
    pool: PoolView,
) -> Result<(Option<Seq<ConstantView>>, PoolView), Failed>
    decreases items, n,
{
    if n == 0 || n > items.len() {
        Ok((Some(Seq::empty()), pool))
    } else {
        match folded_items(items, (n - 1) as nat, processed, grammar, pool) {
            Err(failed) => Err(failed),
            Ok((None, after)) => Ok((None, after)),
            Ok((Some(constants), after)) => match folded(
                items[n - 1],
                processed,
                grammar,
                after,
            ) {
                Err(failed) => Err(failed),
                Ok((None, last)) => Ok((None, last)),
                Ok((Some(constant), last)) => Ok((Some(constants.push(constant)), last)),
            },
        }
    }
}

/// The instructions that leave the value of an expression on the stack.
///
/// An expression that folds is one push of its constant. Otherwise an array
/// is its elements in order and one `MakeArray`; a command is its arguments in
/// order and one call; a variable is one `GetVariable`. An array whose number
/// of elements does not fit in 16 bits is an error before any of its elements
/// is lowered.
pub open spec fn lowered(
    expression: Expression,
    processed: Processed,
    grammar: CommandGrammar,
    pool: PoolView,
) -> Result<(Seq<Instruction>, PoolView), Stopped>
    decreases expression, 1nat,
{
    match folded(expression, processed, grammar, pool) {
        Err(failed) => Err(
            Stopped { error: failed.error, instructions: Seq::empty(), pool: failed.pool },
        ),
        Ok((Some(constant), after)) => match with_constant(after, constant) {
            Err(error) => Err(Stopped { error, instructions: Seq::empty(), pool: after }),
            Ok((last, index)) => Ok((seq![Instruction::Push(index)], last)),
        },
        Ok((None, after)) => match expression {
            Expression::Array(items, span) => if items@.len() > u16::MAX {
                Err(
                    Stopped {
                        error: CompileErrorView::ListTooLong,
                        instructions: Seq::empty(),
                        pool: after,
                    },
                )
            } else {
                match lowered_items(items@, items@.len(), processed, grammar, after) {
                    Err(stopped) => Err(stopped),
                    Ok((instructions, last)) => Ok(
                        (
                            instructions.push(
                                Instruction::MakeArray(
                                    items@.len() as u16,
                                    located(processed, span.start),
                                ),
                            ),
                            last,
                        ),
                    ),
                }
            },
            Expression::NularCommand(name, span) => match with_name(grammar, after, name@) {
                Err(error) => Err(Stopped { error, instructions: Seq::empty(), pool: after }),
                Ok((last, index)) => Ok(
                    (seq![Instruction::CallNular(index, located(processed, span.start))], last),
                ),
            },
            Expression::UnaryCommand(name, operand, span) => match lowered(
                *operand,
                processed,
                grammar,
                after,
            ) {
                Err(stopped) => Err(stopped),
                Ok((instructions, then)) => match with_name(grammar, then, name@) {
                    Err(error) => Err(Stopped { error, instructions, pool: then }),
                    Ok((last, index)) => Ok(
                        (
                            instructions.push(
                                Instruction::CallUnary(index, located(processed, span.start)),
                            ),
                            last,
                        ),
                    ),
                },
            },
            Expression::BinaryCommand(name, left, right, span) => match lowered(
                *left,
                processed,
                grammar,
                after,
            ) {
                Err(stopped) => Err(stopped),
                Ok((first, then)) => match lowered(*right, processed, grammar, then) {
                    Err(stopped) => Err(
                        Stopped { instructions: first + stopped.instructions, ..stopped },
                    ),
                    Ok((second, next)) => match with_name(grammar, next, name@) {
                        Err(error) => Err(
                            Stopped { error, instructions: first + second, pool: next },
                        ),
                        Ok((last, index)) => Ok(
                            (
                                (first + second).push(
                                    Instruction::CallBinary(index, located(processed, span.start)),
                                ),
                                last,
                            ),
                        ),
                    },
                },
            },
            Expression::Variable(name, span) => match with_name(grammar, after, name@) {
                Err(error) => Err(Stopped { error, instructions: Seq::empty(), pool: after }),
                Ok((last, index)) => Ok(
                    (seq![Instruction::GetVariable(index, located(processed, span.start))], last),
                ),
            },
            _ => Ok((Seq::empty(), after)),
        },
    }
}

/// The instructions of the first `n` of `items`, one after the other.
pub open spec fn lowered_items(
    items: Seq<Expression>,
    n: nat,
    processed: Processed,
    grammar: CommandGrammar,
    pool: PoolView,
) -> Result<(Seq<Instruction>, PoolView), Stopped>
    decreases items, n,
{
    if n == 0 || n > items.len() {
        Ok((Seq::empty(), pool))
    } else {
        match lowered_items(items, (n - 1) as nat, processed, grammar, pool) {
            Err(stopped) => Err(stopped),
            Ok((instructions, after)) => match lowered(items[n - 1], processed, grammar, after) {
                Err(stopped) => Err(
                    Stopped { instructions: instructions + stopped.instructions, ..stopped },
                ),
                Ok((more, last)) => Ok((instructions + more, last)),
            },
        }
    }
}

/// The instructions of one statement: the boundary marker, the expression,
/// and for an assignment the instruction that stores the value.
pub open spec fn lowered_statement(
    statement: Statement,
    processed: Processed,
    grammar: CommandGrammar,
    pool: PoolView,
) -> Result<(Seq<Instruction>, PoolView), Stopped>
    decreases statement, 0nat,
{
    let marker = seq![Instruction::EndStatement];
    match statement {
        Statement::AssignGlobal(name, expression, span) => match lowered(
            expression,
            processed,
            grammar,
            pool,
        ) {
            Err(stopped) => Err(
                Stopped { instructions: marker + stopped.instructions, ..stopped },
            ),
            Ok((instructions, after)) => match with_name(grammar, after, name@) {
                Err(error) => Err(
                    Stopped { error, instructions: marker + instructions, pool: after },
                ),
                Ok((last, index)) => Ok(
                    (
                        (marker + instructions).push(
                            Instruction::AssignTo(index, located(processed, span.start)),
                        ),
                        last,
                    ),
                ),
            },
        },
        Statement::AssignLocal(name, expression, span) => match lowered(
            expression,
            processed,
            grammar,
            pool,
        ) {
            Err(stopped) => Err(
                Stopped { instructions: marker + stopped.instructions, ..stopped },
            ),
            Ok((instructions, after)) => match with_name(grammar, after, name@) {
                Err(error) => Err(
                    Stopped { error, instructions: marker + instructions, pool: after },
                ),
                Ok((last, index)) => Ok(
                    (
                        (marker + instructions).push(
                            Instruction::AssignToLocal(index, located(processed, span.start)),
                        ),
                        last,
                    ),
                ),
            },
        },
        Statement::Expression(expression) => match lowered(expression, processed, grammar, pool) {
            Err(stopped) => Err(
                Stopped { instructions: marker + stopped.instructions, ..stopped },
            ),
            Ok((instructions, last)) => Ok((marker + instructions, last)),
        },
    }
}

/// The instructions of the first `n` of `items`, one statement after the
/// other.
pub open spec fn lowered_statements(
    items: Seq<Statement>,
    n: nat,
    processed: Processed,
    grammar: CommandGrammar,
    pool: PoolView,
) -> Result<(Seq<Instruction>, PoolView), Stopped>
    decreases items, n,
{
    if n == 0 || n > items.len() {
        Ok((Seq::empty(), pool))
    } else {
        match lowered_statements(items, (n - 1) as nat, processed, grammar, pool) {
            Err(stopped) => Err(stopped),
            Ok((instructions, after)) => match lowered_statement(
                items[n - 1],
                processed,
                grammar,
                after,
            ) {
                Err(stopped) => Err(
                    Stopped { instructions: instructions + stopped.instructions, ..stopped },
                ),
                Ok((more, last)) => Ok((instructions + more, last)),
            },
        }
    }
}

/// The compiled form of a list of statements: their instructions, in a
/// sequence of their own. What they hold is interned into the pools that they
/// share with the code around them.
pub open spec fn coded(
    statements: Statements,
    processed: Processed,
    grammar: CommandGrammar,
    pool: PoolView,
) -> Result<(InstructionsView, PoolView), Failed>
    decreases statements, 0nat,
{
    match lowered_statements(
        statements.content@,
        statements.content@.len(),
        processed,
        grammar,
        pool,
    ) {
        Err(stopped) => Err(Failed { error: stopped.error, pool: stopped.pool }),
        Ok((contents, last)) => Ok((InstructionsView { contents }, last)),
    }
}

/// The pools before anything is compiled.
pub open spec fn empty_pool() -> PoolView {
    PoolView { constants: Seq::empty(), names: Seq::empty() }
}

/// The program that a list of statements compiles to.
///
/// The statements are compiled into empty pools. Their code is then added to
/// the constants as the last entry, and is the entry point; the constants
/// hold nothing but what folded and this code. The file names are the sources
/// of the processed output.
pub open spec fn compiled(statements: Statements, processed: Processed, grammar: CommandGrammar)
    -> Result<CompiledView, CompileErrorView> {
    match coded(statements, processed, grammar, empty_pool()) {
        Err(failed) => Err(failed.error),
        Ok((code, pool)) => if pool.constants.len() > u16::MAX {
            Err(CompileErrorView::ListTooLong)
        } else {
            Ok(
                CompiledView {
                    entry_point: pool.constants.len() as u16,
                    constants_cache_compression: true,
                    constants_cache: pool.constants.push(ConstantView::Code(code)),
                    names_cache: pool.names,
                    file_names: processed.sources@.map_values(|path: String| path@),
                },
            )
        },
    }
}

/// Once folding a list has failed or met an element that does not fold, more
/// elements change nothing.
pub proof fn folded_items_stops(
    items: Seq<Expression>,
    k: nat,
    n: nat,
    processed: Processed,
    grammar: CommandGrammar,
    pool: PoolView,
)
    requires
        k <= n <= items.len(),
        !(folded_items(items, k, processed, grammar, pool) matches Ok((Some(_), _))),
    ensures
        folded_items(items, n, processed, grammar, pool) == folded_items(
            items,
            k,
            processed,
            grammar,
            pool,
        ),
    decreases n,
{
    if n > k {
        folded_items_stops(items, k, (n - 1) as nat, processed, grammar, pool);
    }
}

/// Once lowering a list has failed, more elements change nothing.
pub proof fn lowered_items_stops(
    items: Seq<Expression>,
    k: nat,
    n: nat,
    processed: Processed,
    grammar: CommandGrammar,
    pool: PoolView,
)
    requires
        k <= n <= items.len(),
        lowered_items(items, k, processed, grammar, pool) is Err,
    ensures
        lowered_items(items, n, processed, grammar, pool) == lowered_items(
            items,
            k,
            processed,
            grammar,
            pool,
        ),
    decreases n,
{
    if n > k {
        lowered_items_stops(items, k, (n - 1) as nat, processed, grammar, pool);
    }
}

/// Once lowering a list of statements has failed, more statements change
/// nothing.
pub proof fn lowered_statements_stops(
    items: Seq<Statement>,
    k: nat,
    n: nat,
    processed: Processed,
    grammar: CommandGrammar,
    pool: PoolView,
)
    requires
        k <= n <= items.len(),
        lowered_statements(items, k, processed, grammar, pool) is Err,
    ensures
        lowered_statements(items, n, processed, grammar, pool) == lowered_statements(
            items,
            k,
            processed,
            grammar,
            pool,
        ),
    decreases n,
{
    if n > k {
        lowered_statements_stops(items, k, (n - 1) as nat, processed, grammar, pool);
    }
}

} // verus!
