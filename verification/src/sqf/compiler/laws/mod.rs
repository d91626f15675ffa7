//! What holds of every compilation: of the pools, of names, of folding, and
//! of the program as a whole.

pub mod aim;
pub mod growth;
pub mod stack;

use crate::common::reporting::Processed;
use crate::lists::{slot, slot_exists, slot_is_unique};
use crate::sqf::compiler::location::located;
use crate::sqf::compiler::lowering::{
    compiled, folded, folded_items, folded_items_stops, lowered, lowered_items, with_constant,
    with_name, Failed, PoolView, Stopped,
};
use crate::sqf::compiler::pool::interned;
use crate::sqf::compiler::serializer::{Compiled, ConstantView, Instruction};
use crate::sqf::compiler::{compiles_to, CompileError, CompileErrorView};
use crate::sqf::grammar::CommandGrammar;
use crate::sqf::{Expression, Statements};
use crate::text::ascii_lowercase;
use vstd::prelude::*;

verus! {

/// A value that was interned is found again: interning an equal value
/// afterwards gives the same index and leaves the pool as it is.
pub proof fn equal_values_share_an_index<V>(pool: Seq<V>, a: V, b: V)
    requires
        a == b,
    ensures
        interned(pool, a) matches Ok((after, index)) ==> interned(after, b) == Ok::<
            (Seq<V>, u16),
            CompileErrorView,
        >((after, index)),
{
    let i = slot(pool, a);
    slot_exists(pool, a);
    if i <= u16::MAX {
        let after = interned(pool, a)->Ok_0.0;
        slot_is_unique(after, b, i);
    }
}

/// Interning fails exactly when the place of the value is beyond the reach
/// of a 16-bit index: the value is none of the first 65536 entries. So a
/// pool takes its 65536th distinct value and refuses the 65537th.
pub proof fn pool_capacity<V>(pool: Seq<V>, value: V)
    ensures
        interned(pool, value) is Err <==> (forall|j: int|
            0 <= j < pool.len() && j <= 65535 ==> pool[j] != value) && pool.len() >= 65536,
        interned(pool, value) is Err ==> interned(pool, value) == Err::<
            (Seq<V>, u16),
            CompileErrorView,
        >(CompileErrorView::ListTooLong),
        !pool.contains(value) && pool.len() <= 65535 ==> interned(pool, value) == Ok::<
            (Seq<V>, u16),
            CompileErrorView,
        >((pool.push(value), pool.len() as u16)),
        !pool.contains(value) && pool.len() >= 65536 ==> interned(pool, value) is Err,
{
    slot_exists(pool, value);
}

/// Two spellings of a name that differ only in the case of their letters are
/// one entry of the name pool.
pub proof fn spellings_share_an_index(
    grammar: CommandGrammar,
    pool: PoolView,
    a: Seq<char>,
    b: Seq<char>,
)
    requires
        ascii_lowercase(a) == ascii_lowercase(b),
    ensures
        with_name(grammar, pool, a) matches Ok((after, index)) ==> with_name(grammar, after, b)
            == Ok::<(PoolView, u16), CompileErrorView>((after, index)),
{
    equal_values_share_an_index(pool.names, ascii_lowercase(a), ascii_lowercase(b));
}

/// A name is refused exactly when the grammar does not know its lower-case
/// form, and the error then holds the name as it was written.
pub proof fn unknown_names_are_refused(grammar: CommandGrammar, pool: PoolView, name: Seq<char>)
    ensures
        !grammar.valid(ascii_lowercase(name)) ==> with_name(grammar, pool, name) == Err::<
            (PoolView, u16),
            CompileErrorView,
        >(CompileErrorView::InvalidName(name)),
        grammar.valid(ascii_lowercase(name)) ==> !(with_name(grammar, pool, name) matches Err(
            CompileErrorView::InvalidName(_),
        )),
{
    pool_capacity(pool.names, ascii_lowercase(name));
}

/// A unary command whose name the grammar does not know fails to compile.
/// Where its operand compiles, the error is the invalid name, as it was
/// written: the instructions of the operand are all that was emitted, no
/// call among them, and the pools are as the operand left them, without the
/// name. Otherwise the command fails as the operand does.
pub proof fn unknown_unary_command_is_refused(
    expression: Expression,
    processed: Processed,
    grammar: CommandGrammar,
    pool: PoolView,
)
    requires
        expression is UnaryCommand,
        !grammar.valid(ascii_lowercase(expression->UnaryCommand_0@)),
    ensures
        match lowered(*expression->UnaryCommand_1, processed, grammar, pool) {
            Ok((instructions, after)) => lowered(expression, processed, grammar, pool) == Err::<
                (Seq<Instruction>, PoolView),
                Stopped,
            >(
                Stopped {
                    error: CompileErrorView::InvalidName(expression->UnaryCommand_0@),
                    instructions,
                    pool: after,
                },
            ),
            Err(stopped) => lowered(expression, processed, grammar, pool) == Err::<
                (Seq<Instruction>, PoolView),
                Stopped,
            >(stopped),
        },
{
    assert(folded(expression, processed, grammar, pool) == Ok::<
        (Option<ConstantView>, PoolView),
        Failed,
    >((None, pool)));
}

/// A binary command whose left operand fails to compile fails as the left
/// operand does: with its error, with what it had emitted, and with the pools
/// as they stood. Nothing of the right operand is compiled, and the name of
/// the command is not interned.
pub proof fn left_operand_fails_first(
    expression: Expression,
    processed: Processed,
    grammar: CommandGrammar,
    pool: PoolView,
)
    requires
        expression is BinaryCommand,
        lowered(*expression->BinaryCommand_1, processed, grammar, pool) is Err,
    ensures
        lowered(expression, processed, grammar, pool) == lowered(
            *expression->BinaryCommand_1,
            processed,
            grammar,
            pool,
        ),
{
    assert(folded(expression, processed, grammar, pool) == Ok::<
        (Option<ConstantView>, PoolView),
        Failed,
    >((None, pool)));
}

/// Compiling is a function of its input: two results for the same
/// statements, processed output and grammar are the same program, or the
/// same error.
pub proof fn compiling_is_deterministic(
    statements: Statements,
    processed: Processed,
    grammar: CommandGrammar,
    first: Result<Compiled, CompileError>,
    second: Result<Compiled, CompileError>,
)
    requires
        compiles_to(statements, processed, grammar, first),
        compiles_to(statements, processed, grammar, second),
    ensures
        match (first, second) {
            (Ok(a), Ok(b)) => a@ == b@,
            (Err(a), Err(b)) => a@ == b@,
            _ => false,
        },
{
}

/// In every program the entry point is the last constant, and that constant
/// is code.
pub proof fn entry_point_is_last(
    statements: Statements,
    processed: Processed,
    grammar: CommandGrammar,
)
    ensures
        compiled(statements, processed, grammar) matches Ok(program) ==> {
            &&& program.entry_point == program.constants_cache.len() - 1
            &&& program.constants_cache[program.entry_point as int] is Code
            &&& program.constants_cache_compression
        },
{
}

/// A literal or a block of code always folds: where it compiles at all, it
/// is a constant, so that it never reaches the instructions for expressions
/// that do not fold.
pub proof fn literals_and_code_fold(
    expression: Expression,
    processed: Processed,
    grammar: CommandGrammar,
    pool: PoolView,
)
    requires
        expression is Code || expression is String || expression is Number
            || expression is Boolean,
    ensures
        !(folded(expression, processed, grammar, pool) matches Ok((None, _))),
        lowered(expression, processed, grammar, pool) matches Ok((instructions, _))
            ==> instructions.len() == 1 && instructions[0] is Push,
{
}

/// Whether the expression is a literal: a string, a number or a boolean.
pub open spec fn is_literal(expression: Expression) -> bool {
    expression is String || expression is Number || expression is Boolean
}

/// The constant that a literal stands for.
pub open spec fn literal_value(expression: Expression) -> ConstantView {
    match expression {
        Expression::String(text) => ConstantView::String(text@),
        Expression::Number(number) => ConstantView::Scalar(number.0),
        Expression::Boolean(value) => ConstantView::Boolean(value),
        _ => ConstantView::Boolean(false),
    }
}

/// The constants that the first `n` of a list of literals stand for.
pub open spec fn literal_values(items: Seq<Expression>, n: nat) -> Seq<ConstantView> {
    Seq::new(n, |i: int| literal_value(items[i]))
}

/// A list of literals folds to their values and leaves the pools alone.
pub proof fn literals_fold(
    items: Seq<Expression>,
    n: nat,
    processed: Processed,
    grammar: CommandGrammar,
    pool: PoolView,
)
    requires
        n <= items.len(),
        forall|i: int| 0 <= i < items.len() ==> is_literal(#[trigger] items[i]),
    ensures
        folded_items(items, n, processed, grammar, pool) == Ok::<
            (Option<Seq<ConstantView>>, PoolView),
            Failed,
        >((Some(literal_values(items, n)), pool)),
    decreases n,
{
    if n == 0 {
        assert(literal_values(items, 0) =~= Seq::empty());
    } else {
        literals_fold(items, (n - 1) as nat, processed, grammar, pool);
        let last = items[n - 1];
        assert(folded(last, processed, grammar, pool) == Ok::<
            (Option<ConstantView>, PoolView),
            Failed,
        >((Some(literal_value(last)), pool)));
        assert(literal_values(items, n) =~= literal_values(items, (n - 1) as nat).push(
            literal_value(last),
        ));
    }
}

/// An array of literals that has no more elements than an array may have
/// is one constant: it compiles to exactly one `Push`, of the array of their
/// values, and to no `MakeArray`. It fails only where the constant pool is
/// full, and then nothing is emitted and the pools are left as they were.
pub proof fn literal_array_is_one_push(
    expression: Expression,
    processed: Processed,
    grammar: CommandGrammar,
    pool: PoolView,
)
    requires
        expression is Array,
        expression->Array_0@.len() <= 65536,
        forall|i: int|
            0 <= i < expression->Array_0@.len() ==> is_literal(#[trigger] expression->Array_0@[i]),
    ensures
        ({
            let items = expression->Array_0@;
            let constant = ConstantView::Array(literal_values(items, items.len()));
            &&& folded(expression, processed, grammar, pool) == Ok::<
                (Option<ConstantView>, PoolView),
                Failed,
            >((Some(constant), pool))
            &&& lowered(expression, processed, grammar, pool) == match with_constant(
                pool,
                constant,
            ) {
                Ok((after, index)) => Ok((seq![Instruction::Push(index)], after)),
                Err(error) => Err(Stopped { error, instructions: Seq::empty(), pool }),
            }
        }),
{
    let items = expression->Array_0@;
    literals_fold(items, items.len(), processed, grammar, pool);
}

/// An array of literals that has more elements than an array may have fails
/// to compile: nothing is emitted and the pools are left as they were. One
/// with 65536 elements folds.
pub proof fn constant_array_capacity(
    expression: Expression,
    processed: Processed,
    grammar: CommandGrammar,
    pool: PoolView,
)
    requires
        expression is Array,
        expression->Array_0@.len() > 65536,
        forall|i: int|
            0 <= i < expression->Array_0@.len() ==> is_literal(#[trigger] expression->Array_0@[i]),
    ensures
        folded(expression, processed, grammar, pool) == Err::<
            (Option<ConstantView>, PoolView),
            Failed,
        >(Failed { error: CompileErrorView::ListTooLong, pool }),
        lowered(expression, processed, grammar, pool) == Err::<
            (Seq<Instruction>, PoolView),
            Stopped,
        >(Stopped { error: CompileErrorView::ListTooLong, instructions: Seq::empty(), pool }),
{
    let items = expression->Array_0@;
    literals_fold(items, items.len(), processed, grammar, pool);
}

/// Whether the expression is of a kind that never folds: a variable, a unary
/// or binary command, or a nular command that the grammar does not mark as
/// constant.
pub open spec fn never_folds(expression: Expression, grammar: CommandGrammar) -> bool {
    match expression {
        Expression::Variable(_, _) => true,
        Expression::UnaryCommand(_, _, _) => true,
        Expression::BinaryCommand(_, _, _, _) => true,
        Expression::NularCommand(name, _) => !grammar.constant(ascii_lowercase(name@)),
        _ => false,
    }
}

/// A list with an element that never folds does not fold, however many of
/// its elements are tried beyond that one.
pub proof fn one_element_stops_the_fold(
    items: Seq<Expression>,
    k: int,
    n: nat,
    processed: Processed,
    grammar: CommandGrammar,
    pool: PoolView,
)
    requires
        0 <= k < n <= items.len(),
        never_folds(items[k], grammar),
    ensures
        !(folded_items(items, n, processed, grammar, pool) matches Ok((Some(_), _))),
{
    let upto = folded_items(items, k as nat, processed, grammar, pool);
    if upto matches Ok((Some(_), _)) {
        let after = upto->Ok_0.1;
        assert(folded(items[k], processed, grammar, after) == Ok::<
            (Option<ConstantView>, PoolView),
            Failed,
        >((None, after)));
    }
    folded_items_stops(items, (k + 1) as nat, n, processed, grammar, pool);
}

/// An array with an element that never folds is not folded, not even in
/// part: where it compiles, its instructions are those of each element in
/// order, followed by one `MakeArray` with the number of elements.
pub proof fn mixed_array_is_made_at_run_time(
    expression: Expression,
    k: int,
    processed: Processed,
    grammar: CommandGrammar,
    pool: PoolView,
)
    requires
        expression is Array,
        0 <= k < expression->Array_0@.len(),
        never_folds(expression->Array_0@[k], grammar),
    ensures
        !(folded(expression, processed, grammar, pool) matches Ok((Some(_), _))),
        lowered(expression, processed, grammar, pool) matches Ok((instructions, after)) ==> {
            let items = expression->Array_0@;
            let span = expression->Array_1;
            &&& items.len() <= 65535
            &&& folded(expression, processed, grammar, pool) matches Ok((None, attempted))
            &&& lowered_items(items, items.len(), processed, grammar, attempted) matches Ok(
                (elements, last),
            )
            &&& instructions == elements.push(
                Instruction::MakeArray(items.len() as u16, located(processed, span.start)),
            )
            &&& after == last
        },
{
    let items = expression->Array_0@;
    one_element_stops_the_fold(items, k, items.len(), processed, grammar, pool);
}

/// An array that does not fold and has more elements than a 16-bit count can
/// hold fails to compile, before any of its elements is lowered: nothing is
/// emitted, and the pools are as the attempt to fold left them. One with
/// 65535 elements does not fail for its length.
pub proof fn array_capacity(
    expression: Expression,
    processed: Processed,
    grammar: CommandGrammar,
    pool: PoolView,
)
    requires
        expression is Array,
        folded(expression, processed, grammar, pool) matches Ok((None, _)),
    ensures
        ({
            let items = expression->Array_0@;
            let attempted = folded(expression, processed, grammar, pool)->Ok_0.1;
            &&& items.len() >= 65536 ==> lowered(expression, processed, grammar, pool) == Err::<
                (Seq<Instruction>, PoolView),
                Stopped,
            >(
                Stopped {
                    error: CompileErrorView::ListTooLong,
                    instructions: Seq::empty(),
                    pool: attempted,
                },
            )
            &&& items.len() <= 65535 ==> (lowered(expression, processed, grammar, pool) is Err
                ==> lowered_items(items, items.len(), processed, grammar, attempted) is Err)
        }),
{
}

} // verus!
