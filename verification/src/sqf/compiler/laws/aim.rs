//! Every index in a program points into its pools and file names.

use crate::common::reporting::Processed;
use crate::lists::slot_exists;
use crate::sqf::compiler::laws::growth::{
    folding_keeps, interning_keeps, kept, lowering_keeps, statement_keeps, with_name_keeps,
};
use crate::sqf::compiler::location::source_info_points_into_the_sources;
use crate::sqf::compiler::lowering::{
    coded, compiled, empty_pool, folded, folded_items, grown, lowered, lowered_items,
    lowered_statement, lowered_statements, with_constant, with_name, PoolView,
};
use crate::sqf::compiler::serializer::{ConstantView, Instruction};
use crate::sqf::grammar::CommandGrammar;
use crate::sqf::{Expression, Statement, Statements};
use crate::text::ascii_lowercase;
use vstd::prelude::*;

verus! {

/// Whether the instruction points into the pools and the file names: the
/// index of a push is the index of a constant, the index of any other
/// instruction is the index of a name, and the file of its source
/// information is one of `files` files.
pub open spec fn aimed(instruction: Instruction, pool: PoolView, files: nat) -> bool {
    match instruction {
        Instruction::EndStatement => true,
        Instruction::Push(index) => index < pool.constants.len(),
        Instruction::MakeArray(_, info) => info.file_index < files,
        Instruction::AssignTo(index, info) => index < pool.names.len() && info.file_index < files,
        Instruction::AssignToLocal(index, info) => index < pool.names.len() && info.file_index
            < files,
        Instruction::CallNular(index, info) => index < pool.names.len() && info.file_index
            < files,
        Instruction::CallUnary(index, info) => index < pool.names.len() && info.file_index
            < files,
        Instruction::CallBinary(index, info) => index < pool.names.len() && info.file_index
            < files,
        Instruction::GetVariable(index, info) => index < pool.names.len() && info.file_index
            < files,
    }
}

/// Whether every instruction points into the pools and the file names.
pub open spec fn all_aimed(instructions: Seq<Instruction>, pool: PoolView, files: nat) -> bool {
    forall|k: int| 0 <= k < instructions.len() ==> aimed(#[trigger] instructions[k], pool, files)
}

/// Instructions that point into pools point into the same pools after these
/// have grown.
pub proof fn aimed_after_growth(
    grammar: CommandGrammar,
    instructions: Seq<Instruction>,
    before: PoolView,
    after: PoolView,
    files: nat,
)
    requires
        all_aimed(instructions, before, files),
        kept(grammar, before, after),
    ensures
        all_aimed(instructions, after, files),
{
}

/// The instructions of an expression whose spans all have source
/// information point into the pools as compiling leaves them, and into the
/// sources.
pub proof fn lowering_aims(
    expression: Expression,
    processed: Processed,
    grammar: CommandGrammar,
    pool: PoolView,
)
    requires
        expression.mapped(processed),
    ensures
        lowered(expression, processed, grammar, pool) matches Ok((instructions, after))
            ==> all_aimed(instructions, after, processed.sources@.len()),
    decreases expression, 1nat,
{
    let files = processed.sources@.len();
    match folded(expression, processed, grammar, pool) {
        Err(_) => {},
        Ok((Some(constant), after)) => {
            interning_keeps(after.constants, constant);
        },
        Ok((None, after)) => match expression {
            Expression::Array(items, span) => {
                source_info_points_into_the_sources(processed, span.start);
                lowering_items_aims(items@, items@.len(), processed, grammar, after);
            },
            Expression::NularCommand(name, span) => {
                source_info_points_into_the_sources(processed, span.start);
                interning_keeps(after.names, ascii_lowercase(name@));
            },
            Expression::UnaryCommand(name, operand, span) => {
                source_info_points_into_the_sources(processed, span.start);
                lowering_aims(*operand, processed, grammar, after);
                if let Ok((first, then)) = lowered(*operand, processed, grammar, after) {
                    interning_keeps(then.names, ascii_lowercase(name@));
                    with_name_keeps(grammar, then, name@);
                    if let Ok((last, _)) = with_name(grammar, then, name@) {
                        aimed_after_growth(grammar, first, then, last, files);
                    }
                }
            },
            Expression::BinaryCommand(name, left, right, span) => {
                source_info_points_into_the_sources(processed, span.start);
                lowering_aims(*left, processed, grammar, after);
                if let Ok((first, then)) = lowered(*left, processed, grammar, after) {
                    lowering_aims(*right, processed, grammar, then);
                    lowering_keeps(*right, processed, grammar, then);
                    if let Ok((second, next)) = lowered(*right, processed, grammar, then) {
                        interning_keeps(next.names, ascii_lowercase(name@));
                        with_name_keeps(grammar, next, name@);
                        if let Ok((last, _)) = with_name(grammar, next, name@) {
                            aimed_after_growth(grammar, first, then, next, files);
                            aimed_after_growth(grammar, first, next, last, files);
                            aimed_after_growth(grammar, second, next, last, files);
                        }
                    }
                }
            },
            Expression::Variable(name, span) => {
                source_info_points_into_the_sources(processed, span.start);
                interning_keeps(after.names, ascii_lowercase(name@));
            },
            _ => {},
        },
    }
}

/// The instructions of a list of expressions point into the pools as
/// compiling leaves them.
pub proof fn lowering_items_aims(
    items: Seq<Expression>,
    n: nat,
    processed: Processed,
    grammar: CommandGrammar,
    pool: PoolView,
)
    requires
        forall|i: int| 0 <= i < items.len() ==> (#[trigger] items[i]).mapped(processed),
    ensures
        lowered_items(items, n, processed, grammar, pool) matches Ok((instructions, after))
            ==> all_aimed(instructions, after, processed.sources@.len()),
    decreases items, n,
{
    if 0 < n <= items.len() {
        lowering_items_aims(items, (n - 1) as nat, processed, grammar, pool);
        if let Ok((instructions, after)) = lowered_items(
            items,
            (n - 1) as nat,
            processed,
            grammar,
            pool,
        ) {
            lowering_aims(items[n - 1], processed, grammar, after);
            lowering_keeps(items[n - 1], processed, grammar, after);
            if let Ok((_, last)) = lowered(items[n - 1], processed, grammar, after) {
                aimed_after_growth(
                    grammar,
                    instructions,
                    after,
                    last,
                    processed.sources@.len(),
                );
            }
        }
    }
}

/// The instructions of a statement point into the pools as compiling
/// leaves them.
pub proof fn statement_aims(
    statement: Statement,
    processed: Processed,
    grammar: CommandGrammar,
    pool: PoolView,
)
    requires
        statement.mapped(processed),
    ensures
        lowered_statement(statement, processed, grammar, pool) matches Ok((instructions, after))
            ==> all_aimed(instructions, after, processed.sources@.len()),
    decreases statement, 0nat,
{
    let files = processed.sources@.len();
    match statement {
        Statement::AssignGlobal(name, expression, span) => {
            source_info_points_into_the_sources(processed, span.start);
            lowering_aims(expression, processed, grammar, pool);
            if let Ok((first, after)) = lowered(expression, processed, grammar, pool) {
                interning_keeps(after.names, ascii_lowercase(name@));
                with_name_keeps(grammar, after, name@);
                if let Ok((last, _)) = with_name(grammar, after, name@) {
                    aimed_after_growth(grammar, first, after, last, files);
                }
            }
        },
        Statement::AssignLocal(name, expression, span) => {
            source_info_points_into_the_sources(processed, span.start);
            lowering_aims(expression, processed, grammar, pool);
            if let Ok((first, after)) = lowered(expression, processed, grammar, pool) {
                interning_keeps(after.names, ascii_lowercase(name@));
                with_name_keeps(grammar, after, name@);
                if let Ok((last, _)) = with_name(grammar, after, name@) {
                    aimed_after_growth(grammar, first, after, last, files);
                }
            }
        },
        Statement::Expression(expression) => {
            lowering_aims(expression, processed, grammar, pool);
        },
    }
}

/// The instructions of a list of statements point into the pools as
/// compiling leaves them.
pub proof fn statements_aim(
    items: Seq<Statement>,
    n: nat,
    processed: Processed,
    grammar: CommandGrammar,
    pool: PoolView,
)
    requires
        forall|i: int| 0 <= i < items.len() ==> (#[trigger] items[i]).mapped(processed),
    ensures
        lowered_statements(items, n, processed, grammar, pool) matches Ok((instructions, after))
            ==> all_aimed(instructions, after, processed.sources@.len()),
    decreases items, n,
{
    if 0 < n <= items.len() {
        statements_aim(items, (n - 1) as nat, processed, grammar, pool);
        if let Ok((instructions, after)) = lowered_statements(
            items,
            (n - 1) as nat,
            processed,
            grammar,
            pool,
        ) {
            statement_aims(items[n - 1], processed, grammar, after);
            statement_keeps(items[n - 1], processed, grammar, after);
            if let Ok((_, last)) = lowered_statement(items[n - 1], processed, grammar, after) {
                aimed_after_growth(
                    grammar,
                    instructions,
                    after,
                    last,
                    processed.sources@.len(),
                );
            }
        }
    }
}

/// In a program compiled from statements whose spans all have source
/// information, every instruction of the entry point points into the pools
/// and the file names of the program.
pub proof fn entry_point_is_aimed(
    statements: Statements,
    processed: Processed,
    grammar: CommandGrammar,
)
    requires
        statements.mapped(processed),
    ensures
        compiled(statements, processed, grammar) matches Ok(program) ==> {
            &&& program.constants_cache[program.entry_point as int] matches ConstantView::Code(code)
            &&& all_aimed(
                code.contents,
                PoolView { constants: program.constants_cache, names: program.names_cache },
                program.file_names.len(),
            )
        },
{
    let items = statements.content@;
    statements_aim(items, items.len(), processed, grammar, empty_pool());
}

/// Whether every instruction inside a constant points into the pools and
/// the file names: the instructions of a block of code, and those of the
/// blocks in an array.
pub open spec fn constant_aimed(constant: ConstantView, pool: PoolView, files: nat) -> bool
    decreases constant,
{
    match constant {
        ConstantView::Code(code) => all_aimed(code.contents, pool, files),
        ConstantView::Array(items) => forall|i: int|
            0 <= i < items.len() ==> constant_aimed(#[trigger] items[i], pool, files),
        _ => true,
    }
}

/// Whether every instruction inside the constants of the pools points into
/// the pools and the file names.
pub open spec fn pool_aimed(pool: PoolView, files: nat) -> bool {
    forall|i: int|
        0 <= i < pool.constants.len() ==> constant_aimed(#[trigger] pool.constants[i], pool, files)
}

/// A constant whose instructions point into pools has them point into the
/// same pools after these have grown.
pub proof fn constant_aimed_after_growth(
    constant: ConstantView,
    before: PoolView,
    after: PoolView,
    files: nat,
)
    requires
        constant_aimed(constant, before, files),
        grown(before, after),
    ensures
        constant_aimed(constant, after, files),
    decreases constant,
{
    match constant {
        ConstantView::Array(items) => {
            assert forall|i: int| 0 <= i < items.len() implies constant_aimed(
                #[trigger] items[i],
                after,
                files,
            ) by {
                constant_aimed_after_growth(items[i], before, after, files);
            }
        },
        _ => {},
    }
}

/// Pools whose constants point into them still do after they have grown by
/// constants that point into the grown pools.
pub proof fn pool_aimed_after_growth(before: PoolView, after: PoolView, files: nat)
    requires
        pool_aimed(before, files),
        grown(before, after),
        forall|i: int|
            before.constants.len() <= i < after.constants.len() ==> constant_aimed(
                #[trigger] after.constants[i],
                after,
                files,
            ),
    ensures
        pool_aimed(after, files),
{
    assert forall|i: int| 0 <= i < after.constants.len() implies constant_aimed(
        #[trigger] after.constants[i],
        after,
        files,
    ) by {
        if i < before.constants.len() {
            assert(after.constants[i] == before.constants[i]);
            constant_aimed_after_growth(before.constants[i], before, after, files);
        }
    }
}

/// Interning a constant whose instructions point into the pools keeps the
/// pools pointing into themselves.
pub proof fn interning_keeps_aim(pool: PoolView, constant: ConstantView, files: nat)
    requires
        pool_aimed(pool, files),
        constant_aimed(constant, pool, files),
    ensures
        with_constant(pool, constant) matches Ok((after, _)) ==> pool_aimed(after, files),
{
    if let Ok((after, _)) = with_constant(pool, constant) {
        slot_exists(pool.constants, constant);
        if after.constants.len() > pool.constants.len() {
            constant_aimed_after_growth(constant, pool, after, files);
        }
        pool_aimed_after_growth(pool, after, files);
    }
}

/// Interning a name keeps the pools pointing into themselves.
pub proof fn naming_keeps_aim(
    grammar: CommandGrammar,
    pool: PoolView,
    name: Seq<char>,
    files: nat,
)
    requires
        pool_aimed(pool, files),
    ensures
        with_name(grammar, pool, name) matches Ok((after, _)) ==> pool_aimed(after, files),
{
    if let Ok((after, _)) = with_name(grammar, pool, name) {
        slot_exists(pool.names, ascii_lowercase(name));
        pool_aimed_after_growth(pool, after, files);
    }
}

/// Folding an expression whose spans all have source information keeps the
/// pools pointing into themselves, and gives a constant whose instructions
/// point into them.
pub proof fn folding_keeps_aim(
    expression: Expression,
    processed: Processed,
    grammar: CommandGrammar,
    pool: PoolView,
)
    requires
        expression.mapped(processed),
        pool_aimed(pool, processed.sources@.len()),
    ensures
        folded(expression, processed, grammar, pool) matches Ok((constant, after)) ==> {
            &&& pool_aimed(after, processed.sources@.len())
            &&& constant matches Some(value) ==> constant_aimed(
                value,
                after,
                processed.sources@.len(),
            )
        },
    decreases expression, 0nat,
{
    match expression {
        Expression::Code(statements) => {
            code_keeps_aim(statements, processed, grammar, pool);
        },
        Expression::Array(items, _) => {
            folding_items_keeps_aim(items@, items@.len(), processed, grammar, pool);
        },
        _ => {},
    }
}

/// Folding a list of expressions keeps the pools pointing into themselves,
/// and gives constants whose instructions point into them.
pub proof fn folding_items_keeps_aim(
    items: Seq<Expression>,
    n: nat,
    processed: Processed,
    grammar: CommandGrammar,
    pool: PoolView,
)
    requires
        n <= items.len(),
        forall|i: int| 0 <= i < items.len() ==> (#[trigger] items[i]).mapped(processed),
        pool_aimed(pool, processed.sources@.len()),
    ensures
        folded_items(items, n, processed, grammar, pool) matches Ok((constants, after)) ==> {
            &&& pool_aimed(after, processed.sources@.len())
            &&& constants matches Some(values) ==> forall|i: int|
                0 <= i < values.len() ==> constant_aimed(
                    #[trigger] values[i],
                    after,
                    processed.sources@.len(),
                )
        },
    decreases items, n,
{
    let files = processed.sources@.len();
    if n > 0 {
        folding_items_keeps_aim(items, (n - 1) as nat, processed, grammar, pool);
        if let Ok((Some(values), after)) = folded_items(
            items,
            (n - 1) as nat,
            processed,
            grammar,
            pool,
        ) {
            folding_keeps_aim(items[n - 1], processed, grammar, after);
            folding_keeps(items[n - 1], processed, grammar, after);
            if let Ok((Some(value), last)) = folded(items[n - 1], processed, grammar, after) {
                let all = values.push(value);
                assert forall|i: int| 0 <= i < all.len() implies constant_aimed(
                    #[trigger] all[i],
                    last,
                    files,
                ) by {
                    if i < values.len() {
                        assert(all[i] == values[i]);
                        constant_aimed_after_growth(values[i], after, last, files);
                    }
                }
            }
        }
    }
}

/// Compiling an expression whose spans all have source information keeps
/// the pools pointing into themselves.
pub proof fn lowering_keeps_aim(
    expression: Expression,
    processed: Processed,
    grammar: CommandGrammar,
    pool: PoolView,
)
    requires
        expression.mapped(processed),
        pool_aimed(pool, processed.sources@.len()),
    ensures
        lowered(expression, processed, grammar, pool) matches Ok((_, after)) ==> pool_aimed(
            after,
            processed.sources@.len(),
        ),
    decreases expression, 1nat,
{
    let files = processed.sources@.len();
    folding_keeps_aim(expression, processed, grammar, pool);
    match folded(expression, processed, grammar, pool) {
        Err(_) => {},
        Ok((Some(constant), after)) => {
            interning_keeps_aim(after, constant, files);
        },
        Ok((None, after)) => match expression {
            Expression::Array(items, _) => {
                lowering_items_keeps_aim(items@, items@.len(), processed, grammar, after);
            },
            Expression::NularCommand(name, _) => {
                naming_keeps_aim(grammar, after, name@, files);
            },
            Expression::UnaryCommand(name, operand, _) => {
                lowering_keeps_aim(*operand, processed, grammar, after);
                if let Ok((_, then)) = lowered(*operand, processed, grammar, after) {
                    naming_keeps_aim(grammar, then, name@, files);
                }
            },
            Expression::BinaryCommand(name, left, right, _) => {
                lowering_keeps_aim(*left, processed, grammar, after);
                if let Ok((_, then)) = lowered(*left, processed, grammar, after) {
                    lowering_keeps_aim(*right, processed, grammar, then);
                    if let Ok((_, next)) = lowered(*right, processed, grammar, then) {
                        naming_keeps_aim(grammar, next, name@, files);
                    }
                }
            },
            Expression::Variable(name, _) => {
                naming_keeps_aim(grammar, after, name@, files);
            },
            _ => {},
        },
    }
}

/// Compiling a list of expressions keeps the pools pointing into
/// themselves.
pub proof fn lowering_items_keeps_aim(
    items: Seq<Expression>,
    n: nat,
    processed: Processed,
    grammar: CommandGrammar,
    pool: PoolView,
)
    requires
        n <= items.len(),
        forall|i: int| 0 <= i < items.len() ==> (#[trigger] items[i]).mapped(processed),
        pool_aimed(pool, processed.sources@.len()),
    ensures
        lowered_items(items, n, processed, grammar, pool) matches Ok((_, after)) ==> pool_aimed(
            after,
            processed.sources@.len(),
        ),
    decreases items, n,
{
    if n > 0 {
        lowering_items_keeps_aim(items, (n - 1) as nat, processed, grammar, pool);
        if let Ok((_, after)) = lowered_items(items, (n - 1) as nat, processed, grammar, pool) {
            lowering_keeps_aim(items[n - 1], processed, grammar, after);
        }
    }
}

/// Compiling a statement keeps the pools pointing into themselves.
pub proof fn statement_keeps_aim(
    statement: Statement,
    processed: Processed,
    grammar: CommandGrammar,
    pool: PoolView,
)
    requires
        statement.mapped(processed),
        pool_aimed(pool, processed.sources@.len()),
    ensures
        lowered_statement(statement, processed, grammar, pool) matches Ok((_, after))
            ==> pool_aimed(after, processed.sources@.len()),
    decreases statement, 0nat,
{
    let files = processed.sources@.len();
    match statement {
        Statement::AssignGlobal(name, expression, _) => {
            lowering_keeps_aim(expression, processed, grammar, pool);
            if let Ok((_, after)) = lowered(expression, processed, grammar, pool) {
                naming_keeps_aim(grammar, after, name@, files);
            }
        },
        Statement::AssignLocal(name, expression, _) => {
            lowering_keeps_aim(expression, processed, grammar, pool);
            if let Ok((_, after)) = lowered(expression, processed, grammar, pool) {
                naming_keeps_aim(grammar, after, name@, files);
            }
        },
        Statement::Expression(expression) => {
            lowering_keeps_aim(expression, processed, grammar, pool);
        },
    }
}

/// Compiling a list of statements keeps the pools pointing into themselves.
pub proof fn statements_keep_aim(
    items: Seq<Statement>,
    n: nat,
    processed: Processed,
    grammar: CommandGrammar,
    pool: PoolView,
)
    requires
        n <= items.len(),
        forall|i: int| 0 <= i < items.len() ==> (#[trigger] items[i]).mapped(processed),
        pool_aimed(pool, processed.sources@.len()),
    ensures
        lowered_statements(items, n, processed, grammar, pool) matches Ok((_, after))
            ==> pool_aimed(after, processed.sources@.len()),
    decreases items, n,
{
    if n > 0 {
        statements_keep_aim(items, (n - 1) as nat, processed, grammar, pool);
        if let Ok((_, after)) = lowered_statements(
            items,
            (n - 1) as nat,
            processed,
            grammar,
            pool,
        ) {
            statement_keeps_aim(items[n - 1], processed, grammar, after);
        }
    }
}

/// Compiling a block of code keeps the pools pointing into themselves, and
/// the instructions of the block point into them.
pub proof fn code_keeps_aim(
    statements: Statements,
    processed: Processed,
    grammar: CommandGrammar,
    pool: PoolView,
)
    requires
        statements.mapped(processed),
        pool_aimed(pool, processed.sources@.len()),
    ensures
        coded(statements, processed, grammar, pool) matches Ok((code, after)) ==> {
            &&& pool_aimed(after, processed.sources@.len())
            &&& all_aimed(code.contents, after, processed.sources@.len())
        },
    decreases statements, 0nat,
{
    let items = statements.content@;
    statements_keep_aim(items, items.len(), processed, grammar, pool);
    statements_aim(items, items.len(), processed, grammar, pool);
}

/// In a program compiled from statements whose spans all have source
/// information, every instruction points into the pools and the file names
/// of the program: those of the entry point, and those of every block of
/// code among the constants, however deep.
pub proof fn program_is_aimed(statements: Statements, processed: Processed, grammar: CommandGrammar)
    requires
        statements.mapped(processed),
    ensures
        compiled(statements, processed, grammar) matches Ok(program) ==> pool_aimed(
            PoolView { constants: program.constants_cache, names: program.names_cache },
            program.file_names.len(),
        ),
{
    let files = processed.sources@.len();
    code_keeps_aim(statements, processed, grammar, empty_pool());
    if let Ok(program) = compiled(statements, processed, grammar) {
        let (code, pool) = coded(statements, processed, grammar, empty_pool())->Ok_0;
        let whole = PoolView { constants: program.constants_cache, names: program.names_cache };
        assert(grown(pool, whole));
        assert(all_aimed(code.contents, whole, files));
        pool_aimed_after_growth(pool, whole, files);
    }
}

} // verus!
