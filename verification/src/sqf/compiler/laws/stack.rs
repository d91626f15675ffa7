//! What the instructions of an expression leave on the stack.

use crate::common::reporting::Processed;
use crate::sqf::compiler::location::located;
use crate::sqf::compiler::lowering::{
    folded, lowered, lowered_items, lowered_statement, with_constant, PoolView,
};
use crate::sqf::compiler::serializer::Instruction;
use crate::sqf::grammar::CommandGrammar;
use crate::sqf::{Expression, Statement};
use vstd::prelude::*;

verus! {

/// How many values an instruction adds to the stack, counting what it takes
/// off against what it puts on.
pub open spec fn effect(instruction: Instruction) -> int {
    match instruction {
        Instruction::EndStatement => 0,
        Instruction::Push(_) => 1,
        Instruction::GetVariable(_, _) => 1,
        Instruction::CallNular(_, _) => 1,
        Instruction::CallUnary(_, _) => 0,
        Instruction::CallBinary(_, _) => -1,
        Instruction::MakeArray(count, _) => 1 - count,
        Instruction::AssignTo(_, _) => -1,
        Instruction::AssignToLocal(_, _) => -1,
    }
}

/// How many values a sequence of instructions adds to the stack.
pub open spec fn effect_of(instructions: Seq<Instruction>) -> int
    decreases instructions.len(),
{
    if instructions.len() == 0 {
        0
    } else {
        effect_of(instructions.drop_last()) + effect(instructions.last())
    }
}

/// The effect of one sequence after another is the sum of their effects.
pub proof fn effects_add_up(first: Seq<Instruction>, second: Seq<Instruction>)
    ensures
        effect_of(first + second) == effect_of(first) + effect_of(second),
    decreases second.len(),
{
    if second.len() == 0 {
        assert(first + second =~= first);
    } else {
        effects_add_up(first, second.drop_last());
        assert((first + second).drop_last() =~= first + second.drop_last());
        assert((first + second).last() == second.last());
    }
}

/// The effect of a sequence with one more instruction.
pub proof fn effect_of_push(instructions: Seq<Instruction>, last: Instruction)
    ensures
        effect_of(instructions.push(last)) == effect_of(instructions) + effect(last),
        effect_of(seq![last]) == effect(last),
{
    assert(instructions.push(last).drop_last() =~= instructions);
    assert(seq![last].drop_last() =~= Seq::<Instruction>::empty());
    assert(effect_of(seq![last].drop_last()) == 0);
    assert(seq![last].last() == last);
}

/// The instructions of an expression leave exactly one value on the stack:
/// its own.
pub proof fn expression_leaves_one_value(
    expression: Expression,
    processed: Processed,
    grammar: CommandGrammar,
    pool: PoolView,
)
    ensures
        lowered(expression, processed, grammar, pool) matches Ok((instructions, _)) ==> effect_of(
            instructions,
        ) == 1,
    decreases expression, 1nat,
{
    if let Ok((instructions, _)) = lowered(expression, processed, grammar, pool) {
        match folded(expression, processed, grammar, pool) {
            Err(_) => {},
            Ok((Some(constant), after)) => {
                effect_of_push(Seq::empty(), Instruction::Push(with_constant(after, constant)->Ok_0.1));
            },
            Ok((None, after)) => match expression {
                Expression::Array(items, span) => {
                    elements_leave_their_values(items@, items@.len(), processed, grammar, after);
                    let elements = lowered_items(
                        items@,
                        items@.len(),
                        processed,
                        grammar,
                        after,
                    )->Ok_0.0;
                    effect_of_push(
                        elements,
                        Instruction::MakeArray(items@.len() as u16, located(processed, span.start)),
                    );
                },
                Expression::NularCommand(name, span) => {
                    effect_of_push(Seq::empty(), instructions[0]);
                },
                Expression::UnaryCommand(name, operand, span) => {
                    expression_leaves_one_value(*operand, processed, grammar, after);
                    effect_of_push(instructions.drop_last(), instructions.last());
                    assert(instructions.drop_last() =~= lowered(
                        *operand,
                        processed,
                        grammar,
                        after,
                    )->Ok_0.0);
                },
                Expression::BinaryCommand(name, left, right, span) => {
                    expression_leaves_one_value(*left, processed, grammar, after);
                    let (first, then) = lowered(*left, processed, grammar, after)->Ok_0;
                    expression_leaves_one_value(*right, processed, grammar, then);
                    let second = lowered(*right, processed, grammar, then)->Ok_0.0;
                    effects_add_up(first, second);
                    effect_of_push(first + second, instructions.last());
                    assert(instructions.drop_last() =~= first + second);
                },
                Expression::Variable(name, span) => {
                    effect_of_push(Seq::empty(), instructions[0]);
                },
                _ => {},
            },
        }
    }
}

/// The instructions of a list of expressions leave one value on the stack
/// for each of them.
pub proof fn elements_leave_their_values(
    items: Seq<Expression>,
    n: nat,
    processed: Processed,
    grammar: CommandGrammar,
    pool: PoolView,
)
    requires
        n <= items.len(),
    ensures
        lowered_items(items, n, processed, grammar, pool) matches Ok((instructions, _))
            ==> effect_of(instructions) == n,
    decreases items, n,
{
    if n > 0 {
        elements_leave_their_values(items, (n - 1) as nat, processed, grammar, pool);
        if let Ok((instructions, after)) = lowered_items(
            items,
            (n - 1) as nat,
            processed,
            grammar,
            pool,
        ) {
            expression_leaves_one_value(items[n - 1], processed, grammar, after);
            if let Ok((more, _)) = lowered(items[n - 1], processed, grammar, after) {
                effects_add_up(instructions, more);
            }
        }
    }
}

/// An assignment takes the value of its expression off the stack again; an
/// expression on its own leaves its value there.
pub proof fn statement_effect(
    statement: Statement,
    processed: Processed,
    grammar: CommandGrammar,
    pool: PoolView,
)
    ensures
        lowered_statement(statement, processed, grammar, pool) matches Ok((instructions, _))
            ==> instructions[0] == Instruction::EndStatement && effect_of(instructions) == (
        if statement is Expression {
            1int
        } else {
            0int
        }),
{
    if let Ok((instructions, _)) = lowered_statement(statement, processed, grammar, pool) {
        let marker = seq![Instruction::EndStatement];
        effect_of_push(Seq::empty(), Instruction::EndStatement);
        match statement {
            Statement::AssignGlobal(_, expression, _) => {
                expression_leaves_one_value(expression, processed, grammar, pool);
                let first = lowered(expression, processed, grammar, pool)->Ok_0.0;
                effects_add_up(marker, first);
                effect_of_push(marker + first, instructions.last());
                assert(instructions.drop_last() =~= marker + first);
            },
            Statement::AssignLocal(_, expression, _) => {
                expression_leaves_one_value(expression, processed, grammar, pool);
                let first = lowered(expression, processed, grammar, pool)->Ok_0.0;
                effects_add_up(marker, first);
                effect_of_push(marker + first, instructions.last());
                assert(instructions.drop_last() =~= marker + first);
            },
            Statement::Expression(expression) => {
                expression_leaves_one_value(expression, processed, grammar, pool);
                let first = lowered(expression, processed, grammar, pool)->Ok_0.0;
                effects_add_up(marker, first);
            },
        }
    }
}

} // verus!
