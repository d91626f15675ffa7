//! The pools only grow: what compiling leaves of them, whether it succeeds
//! or fails.

use crate::common::reporting::Processed;
use crate::lists::{slot, slot_exists, slot_is_unique};
use crate::sqf::compiler::CompileErrorView;
use crate::sqf::compiler::lowering::{
    coded, compiled, empty_pool, folded, folded_items, lowered, lowered_items, lowered_statement,
    lowered_statements, with_constant, with_name, Failed, PoolView, Stopped,
};
use crate::sqf::compiler::pool::interned;
use crate::sqf::compiler::serializer::{ConstantView, Instruction};
use crate::sqf::grammar::CommandGrammar;
use crate::sqf::{Expression, Statement, Statements};
use crate::text::ascii_lowercase;
use vstd::prelude::*;

verus! {

/// Whether no value stands twice in either pool.
pub open spec fn deduplicated(pool: PoolView) -> bool {
    pool.constants.no_duplicates() && pool.names.no_duplicates()
}

/// Whether every name in the pool is in canonical form: known to the
/// grammar, and without an ASCII capital.
pub open spec fn canonical(grammar: CommandGrammar, pool: PoolView) -> bool {
    forall|i: int|
        0 <= i < pool.names.len() ==> grammar.valid(#[trigger] pool.names[i]) && ascii_lowercase(
            pool.names[i],
        ) == pool.names[i]
}

/// Whether `after` is `before` with entries added at the end, is free of
/// duplicates if `before` was, and holds only canonical names if `before`
/// did.
pub open spec fn kept(grammar: CommandGrammar, before: PoolView, after: PoolView) -> bool {
    &&& before.constants.is_prefix_of(after.constants)
    &&& before.names.is_prefix_of(after.names)
    &&& deduplicated(before) ==> deduplicated(after)
    &&& canonical(grammar, before) ==> canonical(grammar, after)
}

/// Bringing a text into lower case twice changes nothing the second time.
pub proof fn lowercase_is_idempotent(text: Seq<char>)
    ensures
        ascii_lowercase(ascii_lowercase(text)) == ascii_lowercase(text),
{
}

/// Interning adds at the end or not at all, adds no value a second time, and
/// returns an index at which the value stands.
pub proof fn interning_keeps<V>(pool: Seq<V>, value: V)
    ensures
        interned(pool, value) matches Ok((after, index)) ==> {
            &&& pool.is_prefix_of(after)
            &&& pool.no_duplicates() ==> after.no_duplicates()
            &&& index < after.len()
            &&& after[index as int] == value
        },
{
    slot_exists(pool, value);
}

/// Interning a constant keeps what the pools hold.
pub proof fn with_constant_keeps(grammar: CommandGrammar, pool: PoolView, constant: ConstantView)
    ensures
        with_constant(pool, constant) matches Ok((after, _)) ==> kept(grammar, pool, after),
{
    interning_keeps(pool.constants, constant);
}

/// Interning a name keeps what the pools hold.
pub proof fn with_name_keeps(grammar: CommandGrammar, pool: PoolView, name: Seq<char>)
    ensures
        with_name(grammar, pool, name) matches Ok((after, _)) ==> kept(grammar, pool, after),
{
    interning_keeps(pool.names, ascii_lowercase(name));
    lowercase_is_idempotent(name);
}

/// The pools that folding leaves, whether it succeeds or fails.
pub open spec fn left_by_folding<T>(result: Result<(T, PoolView), Failed>) -> PoolView {
    match result {
        Ok((_, pool)) => pool,
        Err(failed) => failed.pool,
    }
}

/// The pools that lowering leaves, whether it succeeds or fails.
pub open spec fn left_by_lowering(result: Result<(Seq<Instruction>, PoolView), Stopped>)
    -> PoolView {
    match result {
        Ok((_, pool)) => pool,
        Err(stopped) => stopped.pool,
    }
}

/// Folding an expression only adds to the pools, whether it succeeds or
/// fails: every entry keeps its index, and pools without duplicates stay
/// without duplicates.
pub proof fn folding_keeps(
    expression: Expression,
    processed: Processed,
    grammar: CommandGrammar,
    pool: PoolView,
)
    ensures
        kept(
            grammar,
            pool,
            left_by_folding(folded(expression, processed, grammar, pool)),
        ),
    decreases expression, 0nat,
{
    match expression {
        Expression::Code(statements) => {
            code_keeps(statements, processed, grammar, pool);
        },
        Expression::Array(items, _) => {
            folding_items_keeps(items@, items@.len(), processed, grammar, pool);
        },
        _ => {},
    }
}

/// Folding a list of expressions only adds to the pools.
pub proof fn folding_items_keeps(
    items: Seq<Expression>,
    n: nat,
    processed: Processed,
    grammar: CommandGrammar,
    pool: PoolView,
)
    ensures
        kept(
            grammar,
            pool,
            left_by_folding(folded_items(items, n, processed, grammar, pool)),
        ),
    decreases items, n,
{
    if 0 < n <= items.len() {
        folding_items_keeps(items, (n - 1) as nat, processed, grammar, pool);
        if folded_items(items, (n - 1) as nat, processed, grammar, pool) matches Ok(
            (Some(_), _),
        ) {
            let after = folded_items(items, (n - 1) as nat, processed, grammar, pool)->Ok_0.1;
            folding_keeps(items[n - 1], processed, grammar, after);
        }
    }
}

/// Compiling an expression only adds to the pools, whether it succeeds or
/// fails: every entry keeps its index, and pools without duplicates stay
/// without duplicates.
pub proof fn lowering_keeps(
    expression: Expression,
    processed: Processed,
    grammar: CommandGrammar,
    pool: PoolView,
)
    ensures
        kept(
            grammar,
            pool,
            left_by_lowering(lowered(expression, processed, grammar, pool)),
        ),
    decreases expression, 1nat,
{
    folding_keeps(expression, processed, grammar, pool);
    match folded(expression, processed, grammar, pool) {
        Err(_) => {},
        Ok((Some(constant), after)) => {
            with_constant_keeps(grammar, after, constant);
        },
        Ok((None, after)) => match expression {
            Expression::Array(items, _) => {
                lowering_items_keeps(items@, items@.len(), processed, grammar, after);
            },
            Expression::NularCommand(name, _) => {
                with_name_keeps(grammar, after, name@);
            },
            Expression::UnaryCommand(name, operand, _) => {
                lowering_keeps(*operand, processed, grammar, after);
                if let Ok((_, then)) = lowered(*operand, processed, grammar, after) {
                    with_name_keeps(grammar, then, name@);
                }
            },
            Expression::BinaryCommand(name, left, right, _) => {
                lowering_keeps(*left, processed, grammar, after);
                if let Ok((_, then)) = lowered(*left, processed, grammar, after) {
                    lowering_keeps(*right, processed, grammar, then);
                    if let Ok((_, next)) = lowered(*right, processed, grammar, then) {
                        with_name_keeps(grammar, next, name@);
                    }
                }
            },
            Expression::Variable(name, _) => {
                with_name_keeps(grammar, after, name@);
            },
            _ => {},
        },
    }
}

/// Compiling a list of expressions only adds to the pools.
pub proof fn lowering_items_keeps(
    items: Seq<Expression>,
    n: nat,
    processed: Processed,
    grammar: CommandGrammar,
    pool: PoolView,
)
    ensures
        kept(
            grammar,
            pool,
            left_by_lowering(lowered_items(items, n, processed, grammar, pool)),
        ),
    decreases items, n,
{
    if 0 < n <= items.len() {
        lowering_items_keeps(items, (n - 1) as nat, processed, grammar, pool);
        if let Ok((_, after)) = lowered_items(items, (n - 1) as nat, processed, grammar, pool) {
            lowering_keeps(items[n - 1], processed, grammar, after);
        }
    }
}

/// Compiling a statement only adds to the pools.
pub proof fn statement_keeps(
    statement: Statement,
    processed: Processed,
    grammar: CommandGrammar,
    pool: PoolView,
)
    ensures
        kept(
            grammar,
            pool,
            left_by_lowering(lowered_statement(statement, processed, grammar, pool)),
        ),
    decreases statement, 0nat,
{
    match statement {
        Statement::AssignGlobal(name, expression, _) => {
            lowering_keeps(expression, processed, grammar, pool);
            if let Ok((_, after)) = lowered(expression, processed, grammar, pool) {
                with_name_keeps(grammar, after, name@);
            }
        },
        Statement::AssignLocal(name, expression, _) => {
            lowering_keeps(expression, processed, grammar, pool);
            if let Ok((_, after)) = lowered(expression, processed, grammar, pool) {
                with_name_keeps(grammar, after, name@);
            }
        },
        Statement::Expression(expression) => {
            lowering_keeps(expression, processed, grammar, pool);
        },
    }
}

/// Compiling a list of statements only adds to the pools.
pub proof fn statements_keep(
    items: Seq<Statement>,
    n: nat,
    processed: Processed,
    grammar: CommandGrammar,
    pool: PoolView,
)
    ensures
        kept(
            grammar,
            pool,
            left_by_lowering(lowered_statements(items, n, processed, grammar, pool)),
        ),
    decreases items, n,
{
    if 0 < n <= items.len() {
        statements_keep(items, (n - 1) as nat, processed, grammar, pool);
        if let Ok((_, after)) = lowered_statements(items, (n - 1) as nat, processed, grammar, pool) {
            statement_keeps(items[n - 1], processed, grammar, after);
        }
    }
}

/// Compiling a block of code only adds to the pools, which it shares with
/// the code around it.
pub proof fn code_keeps(
    statements: Statements,
    processed: Processed,
    grammar: CommandGrammar,
    pool: PoolView,
)
    ensures
        kept(
            grammar,
            pool,
            left_by_folding(coded(statements, processed, grammar, pool)),
        ),
    decreases statements, 0nat,
{
    let items = statements.content@;
    statements_keep(items, items.len(), processed, grammar, pool);
}

/// A constant that the pools hold before an expression is compiled is found
/// at the same index afterwards, wherever in the tree it is met again, and
/// interning it there adds nothing.
pub proof fn constants_keep_their_index(
    expression: Expression,
    processed: Processed,
    grammar: CommandGrammar,
    pool: PoolView,
    constant: ConstantView,
)
    requires
        pool.constants.contains(constant),
    ensures
        lowered(expression, processed, grammar, pool) matches Ok((_, after)) ==> {
            &&& slot(after.constants, constant) == slot(pool.constants, constant)
            &&& with_constant(pool, constant) matches Ok((_, index)) ==> with_constant(
                after,
                constant,
            ) == Ok::<(PoolView, u16), CompileErrorView>((after, index))
        },
{
    lowering_keeps(expression, processed, grammar, pool);
    slot_exists(pool.constants, constant);
    if let Ok((_, after)) = lowered(expression, processed, grammar, pool) {
        let i = slot(pool.constants, constant);
        assert(i < pool.constants.len()) by {
            let k = choose|k: int| 0 <= k < pool.constants.len() && pool.constants[k] == constant;
            assert(i <= k);
        }
        assert(forall|j: int|
            0 <= j < pool.constants.len() ==> after.constants[j] == pool.constants[j]);
        slot_is_unique(after.constants, constant, i);
    }
}

/// In a program no name stands twice, every name is in canonical form, and
/// no constant stands twice among those before the entry point.
pub proof fn program_keeps_each_value_once(
    statements: Statements,
    processed: Processed,
    grammar: CommandGrammar,
)
    ensures
        compiled(statements, processed, grammar) matches Ok(program) ==> {
            &&& program.names_cache.no_duplicates()
            &&& program.constants_cache.drop_last().no_duplicates()
            &&& canonical(
                grammar,
                PoolView { constants: program.constants_cache, names: program.names_cache },
            )
        },
{
    code_keeps(statements, processed, grammar, empty_pool());
    if let Ok(program) = compiled(statements, processed, grammar) {
        let pool = coded(statements, processed, grammar, empty_pool())->Ok_0.1;
        assert(program.constants_cache.drop_last() =~= pool.constants);
    }
}

} // verus!
