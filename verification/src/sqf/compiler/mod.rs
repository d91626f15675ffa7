//! Lowers a statement tree into instructions, and collects the constants and
//! names that the instructions point at.

pub mod laws;
pub mod location;
pub mod lowering;
pub mod pool;
pub mod serializer;

use self::laws::growth::{
    code_keeps, folding_keeps, left_by_folding, lowering_keeps, statement_keeps,
};
use self::location::location_to_source;
use self::lowering::{
    coded, compiled, empty_pool, folded, folded_items, folded_items_stops, grown, lowered,
    lowered_items, lowered_items_stops, lowered_statement, lowered_statements,
    lowered_statements_stops, normalized, with_constant, with_name, Failed, PoolView, Stopped,
};
use self::pool::add_or_get_index;
use self::serializer::{
    constant_views, Compiled, Constant, ConstantView, Instruction, Instructions,
};
use crate::common::reporting::Processed;
use crate::lists::{copied, views};
use crate::sqf::grammar::CommandGrammar;
use crate::sqf::{Expression, Statement, Statements};
use crate::text::to_ascii_lowercase;
use vstd::prelude::*;
use vstd::string::StringExecFns;

verus! {

/// Why a tree could not be compiled.
#[derive(Debug, PartialEq, Eq)]
pub enum CompileError {
    /// A pool or an array needs more entries than a 16-bit index can reach.
    ListTooLong,
    /// A name is not one that the command grammar knows; holds the name as
    /// it was written.
    InvalidName(String),
}

/// The mathematical value of a [`CompileError`].
pub enum CompileErrorView {
    ListTooLong,
    InvalidName(Seq<char>),
}

impl View for CompileError {
    type V = CompileErrorView;

    open spec fn view(&self) -> CompileErrorView {
        match self {
            CompileError::ListTooLong => CompileErrorView::ListTooLong,
            CompileError::InvalidName(name) => CompileErrorView::InvalidName(name@),
        }
    }
}

impl CompileError {
    /// The text that describes the error.
    pub open spec fn text(self) -> Seq<char> {
        match self {
            CompileError::ListTooLong => "cannot convert list longer than 2^16 elements"@,
            CompileError::InvalidName(name) => "invalid name "@ + name@,
        }
    }

    /// The error as a line for the user.
    pub fn message(&self) -> (text: String)
        ensures
            text@ == self.text(),
    {
        match self {
            CompileError::ListTooLong => String::from_str(
                "cannot convert list longer than 2^16 elements",
            ),
            CompileError::InvalidName(name) => String::from_str("invalid name ").concat(
                name.as_str(),
            ),
        }
    }
}

/// The pools of one compilation, shared by the program and every block of
/// code in it.
#[derive(Debug)]
pub struct Context {
    pub constants_cache: Vec<Constant>,
    pub names_cache: Vec<String>,
}

impl View for Context {
    type V = PoolView;

    open spec fn view(&self) -> PoolView {
        PoolView { constants: views(self.constants_cache@), names: views(self.names_cache@) }
    }
}

/// Brings a name into canonical form: lower case, and known to the grammar.
/// A name that the grammar does not know is returned in the error as it was
/// written.
pub fn try_normalize_name(grammar: &CommandGrammar, name: &str) -> (r: Result<
    String,
    CompileError,
>)
    ensures
        match normalized(*grammar, name@) {
            Ok(lower) => r matches Ok(text) && text@ == lower,
            Err(e) => r matches Err(f) && f@ == e,
        },
{
    let name_lower = to_ascii_lowercase(name);
    if grammar.is_valid_identifier(name_lower.as_str()) {
        Ok(name_lower)
    } else {
        Err(CompileError::InvalidName(name.to_owned()))
    }
}

impl Context {
    /// Empty pools.
    pub fn new() -> (ctx: Context)
        ensures
            ctx@ == empty_pool(),
    {
        let ctx = Context { constants_cache: Vec::new(), names_cache: Vec::new() };
        assert(ctx@.constants =~= Seq::empty());
        assert(ctx@.names =~= Seq::empty());
        ctx
    }

    /// Gives the index of a constant, adding it where the pool does not hold
    /// it yet. On an error the pools are left as they were.
    pub fn add_constant(&mut self, constant: Constant) -> (r: Result<u16, CompileError>)
        ensures
            match with_constant(old(self)@, constant@) {
                Ok((pool, index)) => r == Ok::<u16, CompileError>(index) && final(self)@ == pool,
                Err(e) => r matches Err(f) && f@ == e && final(self)@ == old(self)@,
            },
    {
        add_or_get_index(&mut self.constants_cache, constant)
    }

    /// Gives the index of a name, adding its canonical form where the pool
    /// does not hold it yet. On an error the pools are left as they were.
    pub fn add_name(&mut self, grammar: &CommandGrammar, name: &str) -> (r: Result<
        u16,
        CompileError,
    >)
        ensures
            match with_name(*grammar, old(self)@, name@) {
                Ok((pool, index)) => r == Ok::<u16, CompileError>(index) && final(self)@ == pool,
                Err(e) => r matches Err(f) && f@ == e && final(self)@ == old(self)@,
            },
    {
        match try_normalize_name(grammar, name) {
            Ok(lower) => add_or_get_index(&mut self.names_cache, lower),
            Err(e) => Err(e),
        }
    }
}

/// The value of a constant that may be absent.
pub open spec fn constant_of(constant: Option<Constant>) -> Option<ConstantView> {
    match constant {
        Some(c) => Some(c@),
        None => None,
    }
}

/// The values of a list of constants that may be absent.
pub open spec fn constants_of(constants: Option<Vec<Constant>>) -> Option<Seq<ConstantView>> {
    match constants {
        Some(list) => Some(constant_views(list@)),
        None => None,
    }
}

/// Folds the elements of an array one after the other, up to the first that
/// does not fold.
fn fold_items(
    items: &Vec<Expression>,
    processed: &Processed,
    grammar: &CommandGrammar,
    ctx: &mut Context,
) -> (r: Result<Option<Vec<Constant>>, CompileError>)
    requires
        forall|i: int| 0 <= i < items@.len() ==> (#[trigger] items@[i]).mapped(*processed),
    ensures
        match folded_items(items@, items@.len(), *processed, *grammar, old(ctx)@) {
            Ok((constants, pool)) => r matches Ok(list) && constants_of(list) == constants
                && final(ctx)@ == pool,
            Err(failed) => r matches Err(f) && f@ == failed.error && final(ctx)@ == failed.pool,
        },
    decreases items@, items@.len(),
{
    let ghost before = ctx@;
    let mut constants: Vec<Constant> = Vec::new();
    let mut i: usize = 0;
    assert(constant_views(constants@) =~= Seq::empty());
    while i < items.len()
        invariant
            i <= items.len(),
            before == old(ctx)@,
            forall|k: int| 0 <= k < items@.len() ==> (#[trigger] items@[k]).mapped(*processed),
            folded_items(items@, i as nat, *processed, *grammar, before) == Ok::<
                (Option<Seq<ConstantView>>, PoolView),
                Failed,
            >((Some(constant_views(constants@)), ctx@)),
        decreases items.len() - i,
    {
        let ghost listed = constant_views(constants@);
        match items[i].compile_constant(processed, grammar, ctx) {
            Err(e) => {
                proof {
                    folded_items_stops(
                        items@,
                        (i + 1) as nat,
                        items@.len(),
                        *processed,
                        *grammar,
                        before,
                    );
                }
                return Err(e);
            },
            Ok(None) => {
                proof {
                    folded_items_stops(
                        items@,
                        (i + 1) as nat,
                        items@.len(),
                        *processed,
                        *grammar,
                        before,
                    );
                }
                return Ok(None);
            },
            Ok(Some(constant)) => {
                let ghost value = constant@;
                constants.push(constant);
                assert(constant_views(constants@) =~= listed.push(value));
            },
        }
        i += 1;
    }
    Ok(Some(constants))
}

/// Lowers the elements of an array one after the other.
fn lower_items(
    items: &Vec<Expression>,
    instructions: &mut Vec<Instruction>,
    processed: &Processed,
    grammar: &CommandGrammar,
    ctx: &mut Context,
) -> (r: Result<(), CompileError>)
    requires
        forall|i: int| 0 <= i < items@.len() ==> (#[trigger] items@[i]).mapped(*processed),
    ensures
        match lowered_items(items@, items@.len(), *processed, *grammar, old(ctx)@) {
            Ok((emitted, pool)) => r is Ok && final(instructions)@ == old(instructions)@ + emitted
                && final(ctx)@ == pool,
            Err(stopped) => r matches Err(f) && f@ == stopped.error && final(instructions)@
                == old(instructions)@ + stopped.instructions && final(ctx)@ == stopped.pool,
        },
    decreases items@, items@.len(),
{
    let ghost before = ctx@;
    let ghost mut emitted: Seq<Instruction> = Seq::empty();
    let mut i: usize = 0;
    while i < items.len()
        invariant
            i <= items.len(),
            before == old(ctx)@,
            forall|k: int| 0 <= k < items@.len() ==> (#[trigger] items@[k]).mapped(*processed),
            instructions@ == old(instructions)@ + emitted,
            lowered_items(items@, i as nat, *processed, *grammar, before) == Ok::<
                (Seq<Instruction>, PoolView),
                Stopped,
            >((emitted, ctx@)),
        decreases items.len() - i,
    {
        let ghost pool = ctx@;
        match items[i].compile_instructions(instructions, processed, grammar, ctx) {
            Err(e) => {
                proof {
                    lowered_items_stops(
                        items@,
                        (i + 1) as nat,
                        items@.len(),
                        *processed,
                        *grammar,
                        before,
                    );
                }
                return Err(e);
            },
            Ok(()) => {
                proof {
                    let more = lowered(items@[i as int], *processed, *grammar, pool)->Ok_0.0;
                    emitted = emitted + more;
                }
            },
        }
        i += 1;
    }
    Ok(())
}

impl Expression {
    /// Gives the constant that the expression folds to, or `None` where it
    /// does not fold. Folding a block of code compiles the block, which
    /// interns what the block holds. After an error the pools stand as they
    /// stood when it was met.
    pub fn compile_constant(
        &self,
        processed: &Processed,
        grammar: &CommandGrammar,
        ctx: &mut Context,
    ) -> (r: Result<Option<Constant>, CompileError>)
        requires
            self.mapped(*processed),
        ensures
            match folded(*self, *processed, *grammar, old(ctx)@) {
                Ok((constant, pool)) => r matches Ok(c) && constant_of(c) == constant
                    && final(ctx)@ == pool,
                Err(failed) => r matches Err(f) && f@ == failed.error && final(ctx)@ == failed.pool,
            },
            grown(old(ctx)@, final(ctx)@),
        decreases self, 0nat,
    {
        proof {
            folding_keeps(*self, *processed, *grammar, ctx@);
        }
        match self {
            Expression::Code(statements) => {
                match statements.compile_to_instructions(processed, grammar, ctx) {
                    Ok(code) => Ok(Some(Constant::Code(code))),
                    Err(e) => Err(e),
                }
            },
            Expression::String(text) => Ok(Some(Constant::String(text.clone()))),
            Expression::Number(number) => Ok(Some(Constant::Scalar(number.0))),
            Expression::Boolean(value) => Ok(Some(Constant::Boolean(*value))),
            Expression::Array(items, _) => {
                match fold_items(items, processed, grammar, ctx) {
                    Ok(Some(constants)) => {
                        if constants.len() > 65536 {
                            Err(CompileError::ListTooLong)
                        } else {
                            Ok(Some(Constant::Array(constants)))
                        }
                    },
                    Ok(None) => Ok(None),
                    Err(e) => Err(e),
                }
            },
            Expression::NularCommand(name, _) => {
                let lower = to_ascii_lowercase(name.as_str());
                if grammar.is_constant_nular(lower.as_str()) {
                    match try_normalize_name(grammar, name.as_str()) {
                        Ok(command) => Ok(Some(Constant::NularCommand(command))),
                        Err(e) => Err(e),
                    }
                } else {
                    Ok(None)
                }
            },
            _ => Ok(None),
        }
    }

    /// Appends the instructions that leave the value of the expression on
    /// the stack. After an error the list holds what was appended before it,
    /// and the pools stand as they stood when it was met.
    #[verifier::rlimit(40)]
    pub fn compile_instructions(
        &self,
        instructions: &mut Vec<Instruction>,
        processed: &Processed,
        grammar: &CommandGrammar,
        ctx: &mut Context,
    ) -> (r: Result<(), CompileError>)
        requires
            self.mapped(*processed),
        ensures
            match lowered(*self, *processed, *grammar, old(ctx)@) {
                Ok((emitted, pool)) => r is Ok && final(instructions)@ == old(instructions)@
                    + emitted && final(ctx)@ == pool,
                Err(stopped) => r matches Err(f) && f@ == stopped.error && final(instructions)@
                    == old(instructions)@ + stopped.instructions && final(ctx)@
                    == stopped.pool,
            },
            old(instructions)@.is_prefix_of(final(instructions)@),
            grown(old(ctx)@, final(ctx)@),
        decreases self, 1nat,
    {
        proof {
            lowering_keeps(*self, *processed, *grammar, ctx@);
        }
        let folded = match self.compile_constant(processed, grammar, ctx) {
            Ok(folded) => folded,
            Err(e) => {
                return Err(e);
            },
        };
        match folded {
            Some(constant) => {
                let constant_index = match ctx.add_constant(constant) {
                    Ok(index) => index,
                    Err(e) => {
                        return Err(e);
                    },
                };
                instructions.push(Instruction::Push(constant_index));
            },
            None => match self {
                Expression::Array(array, location) => {
                    if array.len() > 65535 {
                        return Err(CompileError::ListTooLong);
                    }
                    let array_len = array.len() as u16;
                    match lower_items(array, instructions, processed, grammar, ctx) {
                        Ok(()) => {},
                        Err(e) => {
                            return Err(e);
                        },
                    }
                    instructions.push(
                        Instruction::MakeArray(array_len, location_to_source(processed, location)),
                    );
                },
                Expression::NularCommand(command, location) => {
                    let name_index = match ctx.add_name(grammar, command.as_str()) {
                        Ok(index) => index,
                        Err(e) => {
                            return Err(e);
                        },
                    };
                    instructions.push(
                        Instruction::CallNular(name_index, location_to_source(processed, location)),
                    );
                },
                Expression::UnaryCommand(command, expr, location) => {
                    match expr.compile_instructions(instructions, processed, grammar, ctx) {
                        Ok(()) => {},
                        Err(e) => {
                            return Err(e);
                        },
                    }
                    let name_index = match ctx.add_name(grammar, command.as_str()) {
                        Ok(index) => index,
                        Err(e) => {
                            return Err(e);
                        },
                    };
                    instructions.push(
                        Instruction::CallUnary(name_index, location_to_source(processed, location)),
                    );
                },
                Expression::BinaryCommand(command, expr1, expr2, location) => {
                    match expr1.compile_instructions(instructions, processed, grammar, ctx) {
                        Ok(()) => {},
                        Err(e) => {
                            return Err(e);
                        },
                    }
                    match expr2.compile_instructions(instructions, processed, grammar, ctx) {
                        Ok(()) => {},
                        Err(e) => {
                            return Err(e);
                        },
                    }
                    let name_index = match ctx.add_name(grammar, command.as_str()) {
                        Ok(index) => index,
                        Err(e) => {
                            return Err(e);
                        },
                    };
                    instructions.push(
                        Instruction::CallBinary(
                            name_index,
                            location_to_source(processed, location),
                        ),
                    );
                },
                Expression::Variable(name, location) => {
                    let name_index = match ctx.add_name(grammar, name.as_str()) {
                        Ok(index) => index,
                        Err(e) => {
                            return Err(e);
                        },
                    };
                    instructions.push(
                        Instruction::GetVariable(
                            name_index,
                            location_to_source(processed, location),
                        ),
                    );
                },
                _ => {},
            },
        }
        Ok(())
    }
}

impl Statement {
    /// Appends the instructions of the statement: the boundary marker, the
    /// expression, and for an assignment the instruction that stores the
    /// value. After an error the list holds what was appended before it, and
    /// the pools stand as they stood when it was met.
    #[verifier::rlimit(40)]
    pub fn compile_instructions(
        &self,
        instructions: &mut Vec<Instruction>,
        processed: &Processed,
        grammar: &CommandGrammar,
        ctx: &mut Context,
    ) -> (r: Result<(), CompileError>)
        requires
            self.mapped(*processed),
        ensures
            match lowered_statement(*self, *processed, *grammar, old(ctx)@) {
                Ok((emitted, pool)) => r is Ok && final(instructions)@ == old(instructions)@
                    + emitted && final(ctx)@ == pool,
                Err(stopped) => r matches Err(f) && f@ == stopped.error && final(instructions)@
                    == old(instructions)@ + stopped.instructions && final(ctx)@
                    == stopped.pool,
            },
            old(instructions)@.is_prefix_of(final(instructions)@),
            grown(old(ctx)@, final(ctx)@),
        decreases self, 0nat,
    {
        proof {
            statement_keeps(*self, *processed, *grammar, ctx@);
        }
        let ghost marker = seq![Instruction::EndStatement];
        let ghost part = match self {
            Statement::AssignGlobal(_, expression, _) => lowered(
                *expression,
                *processed,
                *grammar,
                ctx@,
            ),
            Statement::AssignLocal(_, expression, _) => lowered(
                *expression,
                *processed,
                *grammar,
                ctx@,
            ),
            Statement::Expression(expression) => lowered(*expression, *processed, *grammar, ctx@),
        };
        instructions.push(Instruction::EndStatement);
        match self {
            Statement::AssignGlobal(name, expression, location) => {
                match expression.compile_instructions(instructions, processed, grammar, ctx) {
                    Ok(()) => {},
                    Err(e) => {
                        assert(instructions@ =~= old(instructions)@ + (marker
                            + part->Err_0.instructions));
                        return Err(e);
                    },
                }
                let ghost first = part->Ok_0.0;
                let name_index = match ctx.add_name(grammar, name.as_str()) {
                    Ok(index) => index,
                    Err(e) => {
                        assert(instructions@ =~= old(instructions)@ + (marker + first));
                        return Err(e);
                    },
                };
                let info = location_to_source(processed, location);
                instructions.push(Instruction::AssignTo(name_index, info));
                assert(instructions@ =~= old(instructions)@ + (marker + first).push(
                    Instruction::AssignTo(name_index, info),
                ));
            },
            Statement::AssignLocal(name, expression, location) => {
                match expression.compile_instructions(instructions, processed, grammar, ctx) {
                    Ok(()) => {},
                    Err(e) => {
                        assert(instructions@ =~= old(instructions)@ + (marker
                            + part->Err_0.instructions));
                        return Err(e);
                    },
                }
                let ghost first = part->Ok_0.0;
                let name_index = match ctx.add_name(grammar, name.as_str()) {
                    Ok(index) => index,
                    Err(e) => {
                        assert(instructions@ =~= old(instructions)@ + (marker + first));
                        return Err(e);
                    },
                };
                let info = location_to_source(processed, location);
                instructions.push(Instruction::AssignToLocal(name_index, info));
                assert(instructions@ =~= old(instructions)@ + (marker + first).push(
                    Instruction::AssignToLocal(name_index, info),
                ));
            },
            Statement::Expression(expression) => {
                match expression.compile_instructions(instructions, processed, grammar, ctx) {
                    Ok(()) => {
                        assert(instructions@ =~= old(instructions)@ + (marker + part->Ok_0.0));
                    },
                    Err(e) => {
                        assert(instructions@ =~= old(instructions)@ + (marker
                            + part->Err_0.instructions));
                        return Err(e);
                    },
                }
            },
        }
        Ok(())
    }
}

/// Whether `result` is what compiling the statements gives: the program or
/// the error that the statements, the processed output and the grammar
/// determine.
pub open spec fn compiles_to(
    statements: Statements,
    processed: Processed,
    grammar: CommandGrammar,
    result: Result<Compiled, CompileError>,
) -> bool {
    match compiled(statements, processed, grammar) {
        Ok(program) => result matches Ok(c) && c@ == program,
        Err(e) => result matches Err(f) && f@ == e,
    }
}

impl Statements {
    /// Compiles the statements into a program, where every span in them has
    /// source information; gives `None` where one has not.
    pub fn try_compile(&self, processed: &Processed, grammar: &CommandGrammar) -> (r: Option<
        Result<Compiled, CompileError>,
    >)
        ensures
            r is Some <==> self.mapped(*processed),
            r matches Some(result) ==> compiles_to(*self, *processed, *grammar, result),
    {
        if self.is_mapped(processed) {
            Some(self.compile(processed, grammar))
        } else {
            None
        }
    }

    /// Compiles the statements into a program.
    ///
    /// The pools start empty and are shared by every block of code in the
    /// statements. The code of the statements themselves becomes the last
    /// constant, and the entry point is its index. Every span in the
    /// statements has to be one that the processed output can answer for.
    pub fn compile(&self, processed: &Processed, grammar: &CommandGrammar) -> (r: Result<
        Compiled,
        CompileError,
    >)
        requires
            self.mapped(*processed),
        ensures
            compiles_to(*self, *processed, *grammar, r),
            r matches Ok(program) ==> program.entry_point == program.constants_cache@.len() - 1,
    {
        let mut ctx = Context::new();
        let entrypoint_code = match self.compile_to_instructions(processed, grammar, &mut ctx) {
            Ok(code) => code,
            Err(e) => {
                return Err(e);
            },
        };
        if ctx.constants_cache.len() > 65535 {
            return Err(CompileError::ListTooLong);
        }
        let entrypoint_index = ctx.constants_cache.len() as u16;
        let ghost pool = ctx@;
        let ghost code = entrypoint_code@;
        ctx.constants_cache.push(Constant::Code(entrypoint_code));
        let program = Compiled {
            entry_point: entrypoint_index,
            constants_cache_compression: true,
            constants_cache: ctx.constants_cache,
            names_cache: ctx.names_cache,
            file_names: copied(processed.sources()),
        };
        assert(program@.constants_cache =~= pool.constants.push(ConstantView::Code(code)));
        Ok(program)
    }

    /// Compiles the statements into a sequence of instructions of their own,
    /// interning what they hold into the shared pools. After an error the
    /// pools stand as they stood when it was met.
    pub fn compile_to_instructions(
        &self,
        processed: &Processed,
        grammar: &CommandGrammar,
        ctx: &mut Context,
    ) -> (r: Result<Instructions, CompileError>)
        requires
            self.mapped(*processed),
        ensures
            match coded(*self, *processed, *grammar, old(ctx)@) {
                Ok((code, pool)) => r matches Ok(c) && c@ == code && final(ctx)@ == pool,
                Err(failed) => r matches Err(f) && f@ == failed.error && final(ctx)@ == failed.pool,
            },
            grown(old(ctx)@, final(ctx)@),
        decreases self, 0nat,
    {
        proof {
            code_keeps(*self, *processed, *grammar, ctx@);
        }
        let ghost before = ctx@;
        let mut instructions: Vec<Instruction> = Vec::new();
        let mut i: usize = 0;
        while i < self.content.len()
            invariant
                i <= self.content.len(),
                before == old(ctx)@,
                self.mapped(*processed),
                grown(before, left_by_folding(coded(*self, *processed, *grammar, before))),
                lowered_statements(self.content@, i as nat, *processed, *grammar, before) == Ok::<
                    (Seq<Instruction>, PoolView),
                    Stopped,
                >((instructions@, ctx@)),
            decreases self.content.len() - i,
        {
            match self.content[i].compile_instructions(&mut instructions, processed, grammar, ctx) {
                Err(e) => {
                    proof {
                        lowered_statements_stops(
                            self.content@,
                            (i + 1) as nat,
                            self.content@.len(),
                            *processed,
                            *grammar,
                            before,
                        );
                    }
                    return Err(e);
                },
                Ok(()) => {},
            }
            i += 1;
        }
        Ok(Instructions { contents: instructions })
    }
}

} // verus!
