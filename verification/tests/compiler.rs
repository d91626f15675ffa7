use hemtt::common::reporting::{Mapping, Processed};
use hemtt::sqf::compiler::location::{find_source, location_to_source};
use hemtt::sqf::compiler::pool::add_or_get_index;
use hemtt::sqf::compiler::serializer::{
    Compiled, Constant, Instruction, Instructions, Pooled, SourceInfo,
};
use hemtt::sqf::compiler::{try_normalize_name, CompileError, Context};
use hemtt::sqf::grammar::CommandGrammar;
use hemtt::sqf::{Expression, Scalar, Statement, Statements};

fn number(value: f64) -> Expression {
    Expression::Number(Scalar(value.to_bits()))
}

fn scalar(value: f64) -> Constant {
    Constant::Scalar(value.to_bits())
}

fn grammar(identifiers: &[&str], constants: &[&str]) -> CommandGrammar {
    CommandGrammar {
        identifiers: identifiers.iter().map(|s| s.to_string()).collect(),
        constants: constants.iter().map(|s| s.to_string()).collect(),
    }
}

/// One file, `test.sqf`, whose line `n` is the stretch of offsets from
/// `10 * (n - 1)` to `10 * n`, for twenty lines.
fn processed() -> Processed {
    let mut mappings = Vec::new();
    for line in 1..=20usize {
        mappings.push(Mapping {
            processed_start: 10 * (line - 1),
            processed_end: 10 * line,
            path: "test.sqf".to_string(),
            line,
            was_macro: false,
        });
    }
    Processed { sources: vec!["test.sqf".to_string()], mappings, output: String::new() }
}

fn info(offset: u32) -> SourceInfo {
    SourceInfo { offset, file_index: 0, file_line: (offset / 10 + 1) as u16 }
}

fn program(content: Vec<Statement>) -> Statements {
    Statements { content }
}

fn compile(statements: &Statements, grammar: &CommandGrammar) -> Result<Compiled, CompileError> {
    statements.try_compile(&processed(), grammar).expect("every span is mapped")
}

fn code(contents: Vec<Instruction>) -> Constant {
    Constant::Code(Instructions { contents })
}

#[test]
fn pool_gives_first_index() {
    let mut names: Vec<String> = Vec::new();
    assert_eq!(add_or_get_index(&mut names, "a".to_string()), Ok(0));
    assert_eq!(add_or_get_index(&mut names, "b".to_string()), Ok(1));
    assert_eq!(add_or_get_index(&mut names, "a".to_string()), Ok(0));
    assert_eq!(names, vec!["a".to_string(), "b".to_string()]);
}

#[test]
fn pool_compares_constants_by_structure() {
    let mut pool: Vec<Constant> = Vec::new();
    let nested = || Constant::Array(vec![scalar(1.0), Constant::String("a".to_string())]);
    assert_eq!(add_or_get_index(&mut pool, nested()), Ok(0));
    assert_eq!(add_or_get_index(&mut pool, Constant::Array(vec![scalar(1.0)])), Ok(1));
    assert_eq!(add_or_get_index(&mut pool, Constant::Array(vec![nested()])), Ok(2));
    assert_eq!(add_or_get_index(&mut pool, nested()), Ok(0));
    assert_eq!(add_or_get_index(&mut pool, Constant::Array(vec![nested()])), Ok(2));
    assert_eq!(add_or_get_index(&mut pool, Constant::Boolean(true)), Ok(3));
    assert_eq!(add_or_get_index(&mut pool, Constant::NularCommand("a".to_string())), Ok(4));
    assert_eq!(add_or_get_index(&mut pool, Constant::String("a".to_string())), Ok(5));
    let longer = || code(vec![Instruction::Push(0), Instruction::EndStatement]);
    assert_eq!(add_or_get_index(&mut pool, code(vec![Instruction::Push(0)])), Ok(6));
    assert_eq!(add_or_get_index(&mut pool, longer()), Ok(7));
    assert_eq!(add_or_get_index(&mut pool, code(vec![Instruction::Push(1)])), Ok(8));
    assert_eq!(add_or_get_index(&mut pool, code(vec![Instruction::Push(0)])), Ok(6));
    assert_eq!(add_or_get_index(&mut pool, longer()), Ok(7));
    assert_eq!(pool.len(), 9);
}

#[test]
fn constants_are_the_same_by_value() {
    assert!(scalar(1.5).same(&scalar(1.5)));
    assert!(!scalar(1.5).same(&scalar(2.5)));
    assert!(!scalar(1.0).same(&Constant::Boolean(true)));
    assert!(Constant::String("a".to_string()).same(&Constant::String("a".to_string())));
    assert!(!Constant::String("a".to_string()).same(&Constant::NularCommand("a".to_string())));
    assert!(Constant::Array(vec![]).same(&Constant::Array(vec![])));
    assert!(!Constant::Array(vec![scalar(1.0)]).same(&Constant::Array(vec![])));
    assert!("a".to_string().same(&"a".to_string()));
    assert!(!"a".to_string().same(&"A".to_string()));
}

#[test]
fn pool_takes_65536_values_and_no_more() {
    let mut names: Vec<String> = (0..65535u32).map(|i| format!("n{i}")).collect();
    assert_eq!(add_or_get_index(&mut names, "n65534".to_string()), Ok(65534));
    assert_eq!(names.len(), 65535);
    assert_eq!(add_or_get_index(&mut names, "n65535".to_string()), Ok(65535));
    assert_eq!(names.len(), 65536);
    assert_eq!(
        add_or_get_index(&mut names, "one too many".to_string()),
        Err(CompileError::ListTooLong)
    );
    assert_eq!(names.len(), 65536);
    assert_eq!(add_or_get_index(&mut names, "n65535".to_string()), Ok(65535));
    assert_eq!(add_or_get_index(&mut names, "n0".to_string()), Ok(0));
}

#[test]
fn constant_pool_refuses_the_65537th_constant() {
    let mut ctx = Context {
        constants_cache: (0..65535u32).map(|i| scalar(f64::from(i))).collect(),
        names_cache: Vec::new(),
    };
    assert_eq!(ctx.add_constant(scalar(65535.0)), Ok(65535));
    assert_eq!(ctx.add_constant(Constant::Boolean(true)), Err(CompileError::ListTooLong));
    assert_eq!(ctx.constants_cache.len(), 65536);
    assert_eq!(ctx.add_constant(scalar(65535.0)), Ok(65535));
    assert_eq!(ctx.add_constant(scalar(0.0)), Ok(0));
}

#[test]
fn names_are_lowered_and_checked() {
    let grammar = grammar(&["foo", "+"], &[]);
    assert_eq!(try_normalize_name(&grammar, "FoO"), Ok("foo".to_string()));
    assert_eq!(try_normalize_name(&grammar, "foo"), Ok("foo".to_string()));
    assert_eq!(try_normalize_name(&grammar, "+"), Ok("+".to_string()));
    assert_eq!(
        try_normalize_name(&grammar, "Bar"),
        Err(CompileError::InvalidName("Bar".to_string()))
    );
    assert_eq!(try_normalize_name(&grammar, ""), Err(CompileError::InvalidName(String::new())));
}

#[test]
fn only_ascii_letters_are_lowered() {
    let grammar = grammar(&["Äb_1", "äb_1"], &[]);
    assert_eq!(try_normalize_name(&grammar, "ÄB_1"), Ok("Äb_1".to_string()));
    let strict = CommandGrammar { identifiers: vec!["äb_1".to_string()], constants: vec![] };
    assert_eq!(
        try_normalize_name(&strict, "ÄB_1"),
        Err(CompileError::InvalidName("ÄB_1".to_string()))
    );
}

#[test]
fn two_spellings_are_one_name() {
    let grammar = grammar(&["foo", "bar"], &[]);
    let mut ctx = Context::new();
    assert_eq!(ctx.add_name(&grammar, "Foo"), Ok(0));
    assert_eq!(ctx.add_name(&grammar, "bar"), Ok(1));
    assert_eq!(ctx.add_name(&grammar, "foo"), Ok(0));
    assert_eq!(ctx.add_name(&grammar, "FOO"), Ok(0));
    assert_eq!(ctx.names_cache, vec!["foo".to_string(), "bar".to_string()]);
    assert_eq!(ctx.add_name(&grammar, "Baz"), Err(CompileError::InvalidName("Baz".to_string())));
    assert_eq!(ctx.names_cache, vec!["foo".to_string(), "bar".to_string()]);
}

#[test]
fn grammar_answers_by_exact_text() {
    let grammar = grammar(&["foo"], &["pi"]);
    assert!(grammar.is_valid_identifier("foo"));
    assert!(!grammar.is_valid_identifier("Foo"));
    assert!(!grammar.is_valid_identifier("pi"));
    assert!(grammar.is_constant_nular("pi"));
    assert!(!grammar.is_constant_nular("foo"));
}

#[test]
fn assignment_of_a_sum() {
    let statements = program(
        vec![Statement::AssignGlobal(
            "x".to_string(),
            Expression::BinaryCommand(
                "+".to_string(),
                Box::new(number(1.0)),
                Box::new(number(2.0)),
                6..7,
            ),
            0..1,
        )]);
    let compiled = compile(&statements, &grammar(&["x", "+"], &[])).unwrap();
    let instructions = vec![
        Instruction::EndStatement,
        Instruction::Push(0),
        Instruction::Push(1),
        Instruction::CallBinary(0, info(6)),
        Instruction::AssignTo(1, info(0)),
    ];
    assert_eq!(
        compiled,
        Compiled {
            entry_point: 2,
            constants_cache_compression: true,
            constants_cache: vec![scalar(1.0), scalar(2.0), code(instructions)],
            names_cache: vec!["+".to_string(), "x".to_string()],
            file_names: vec!["test.sqf".to_string()],
        }
    );
}

#[test]
fn closure_shares_the_pools() {
    let closure = program(
        vec![Statement::AssignGlobal("y".to_string(), number(1.0), 2..3)]);
    let statements = program(
        vec![
            Statement::Expression(Expression::Code(closure)),
            Statement::AssignLocal("_z".to_string(), number(1.0), 10..11),
        ]);
    let compiled = compile(&statements, &grammar(&["y", "_z"], &[])).unwrap();
    let inner = vec![
        Instruction::EndStatement,
        Instruction::Push(0),
        Instruction::AssignTo(0, info(2)),
    ];
    let outer = vec![
        Instruction::EndStatement,
        Instruction::Push(1),
        Instruction::EndStatement,
        Instruction::Push(0),
        Instruction::AssignToLocal(1, info(10)),
    ];
    assert_eq!(compiled.constants_cache, vec![scalar(1.0), code(inner), code(outer)]);
    assert_eq!(compiled.names_cache, vec!["y".to_string(), "_z".to_string()]);
    assert_eq!(compiled.entry_point, 2);
}

#[test]
fn equal_constants_are_pushed_from_one_entry() {
    let statements = program(
        vec![
            Statement::Expression(Expression::BinaryCommand(
                "+".to_string(),
                Box::new(number(1.0)),
                Box::new(number(1.0)),
                0..1,
            )),
            Statement::Expression(Expression::Code(program(
                vec![Statement::Expression(number(1.0))]))),
            Statement::Expression(Expression::String("1".to_string())),
        ]);
    let compiled = compile(&statements, &grammar(&["+"], &[])).unwrap();
    let inner = vec![Instruction::EndStatement, Instruction::Push(0)];
    let outer = vec![
        Instruction::EndStatement,
        Instruction::Push(0),
        Instruction::Push(0),
        Instruction::CallBinary(0, info(0)),
        Instruction::EndStatement,
        Instruction::Push(1),
        Instruction::EndStatement,
        Instruction::Push(2),
    ];
    assert_eq!(
        compiled.constants_cache,
        vec![scalar(1.0), code(inner), Constant::String("1".to_string()), code(outer)]
    );
    assert_eq!(compiled.entry_point, 3);
}

#[test]
fn entry_point_is_the_last_constant() {
    let empty = compile(&program(vec![]), &grammar(&[], &[])).unwrap();
    assert_eq!(empty.entry_point, 0);
    assert_eq!(empty.constants_cache, vec![code(vec![])]);
    assert!(empty.constants_cache_compression);
    assert!(empty.names_cache.is_empty());

    let statements = program(
        vec![
            Statement::Expression(number(1.0)),
            Statement::Expression(number(2.0)),
            Statement::Expression(Expression::Boolean(true)),
        ]);
    let compiled = compile(&statements, &grammar(&[], &[])).unwrap();
    assert_eq!(usize::from(compiled.entry_point), compiled.constants_cache.len() - 1);
    assert_eq!(compiled.entry_point, 3);
    assert!(matches!(compiled.constants_cache[3], Constant::Code(_)));
}

#[test]
fn compiling_twice_gives_the_same_program() {
    let statements = program(
        vec![Statement::AssignLocal(
            "_a".to_string(),
            Expression::Array(
                vec![number(1.0), Expression::Variable("b".to_string(), 12..13)],
                10..11,
            ),
            0..1,
        )]);
    let grammar = grammar(&["_a", "b"], &[]);
    let first = compile(&statements, &grammar);
    let second = compile(&statements, &grammar);
    assert!(first.is_ok());
    assert_eq!(first, second);
}

#[test]
fn array_of_literals_is_one_push() {
    let statements = program(
        vec![Statement::Expression(Expression::Array(
            vec![
                number(1.0),
                Expression::String("a".to_string()),
                Expression::Boolean(false),
                Expression::Array(vec![number(2.0)], 20..21),
            ],
            0..1,
        ))]);
    let compiled = compile(&statements, &grammar(&[], &[])).unwrap();
    let array = Constant::Array(vec![
        scalar(1.0),
        Constant::String("a".to_string()),
        Constant::Boolean(false),
        Constant::Array(vec![scalar(2.0)]),
    ]);
    assert_eq!(
        compiled.constants_cache,
        vec![
            array,
            code(vec![Instruction::EndStatement, Instruction::Push(0)]),
        ]
    );
}

#[test]
fn array_with_a_variable_is_made_at_run_time() {
    let statements = program(
        vec![Statement::Expression(Expression::Array(
            vec![
                number(1.0),
                Expression::Variable("x".to_string(), 5..6),
                Expression::Array(vec![number(2.0)], 20..21),
            ],
            0..1,
        ))]);
    let compiled = compile(&statements, &grammar(&["x"], &[])).unwrap();
    let instructions = vec![
        Instruction::EndStatement,
        Instruction::Push(0),
        Instruction::GetVariable(0, info(5)),
        Instruction::Push(1),
        Instruction::MakeArray(3, info(0)),
    ];
    assert_eq!(
        compiled.constants_cache,
        vec![
            scalar(1.0),
            Constant::Array(vec![scalar(2.0)]),
            code(instructions),
        ]
    );
}

#[test]
fn empty_array_is_a_constant() {
    let statements =
        program(vec![Statement::Expression(Expression::Array(vec![], 0..1))]);
    let compiled = compile(&statements, &grammar(&[], &[])).unwrap();
    assert_eq!(compiled.constants_cache[0], Constant::Array(vec![]));
    assert_eq!(
        compiled.constants_cache[1],
        code(vec![Instruction::EndStatement, Instruction::Push(0)])
    );
    assert_eq!(compiled.entry_point, 1);
}

#[test]
fn code_in_an_array_is_compiled_before_the_array_is_given_up() {
    let closure = || {
        Expression::Code(program(vec![Statement::Expression(number(7.0))]))
    };
    let statements = program(
        vec![Statement::Expression(Expression::Array(
            vec![closure(), Expression::Variable("x".to_string(), 5..6)],
            0..1,
        ))]);
    let compiled = compile(&statements, &grammar(&["x"], &[])).unwrap();
    let inner = vec![Instruction::EndStatement, Instruction::Push(0)];
    let outer = vec![
        Instruction::EndStatement,
        Instruction::Push(1),
        Instruction::GetVariable(0, info(5)),
        Instruction::MakeArray(2, info(0)),
    ];
    assert_eq!(compiled.constants_cache, vec![scalar(7.0), code(inner), code(outer)]);
}

#[test]
fn array_of_65536_elements_is_too_long() {
    let elements = |n: usize| -> Vec<Expression> {
        (0..n).map(|_| Expression::Variable("x".to_string(), 5..6)).collect()
    };
    let grammar = grammar(&["x"], &[]);
    let too_long = program(
        vec![Statement::Expression(Expression::Array(elements(65536), 0..1))]);
    assert_eq!(compile(&too_long, &grammar), Err(CompileError::ListTooLong));
    let longest =
        program(vec![Statement::Expression(Expression::Array(elements(65535), 0..1))]);
    let compiled = compile(&longest, &grammar).unwrap();
    match &compiled.constants_cache[usize::from(compiled.entry_point)] {
        Constant::Code(code) => {
            assert_eq!(code.contents.len(), 65537);
            assert_eq!(code.contents[65536], Instruction::MakeArray(65535, info(0)));
        }
        other => panic!("the entry point is {other:?}"),
    }
}

#[test]
fn unknown_unary_command_is_reported_as_written() {
    let statements = program(
        vec![Statement::Expression(Expression::UnaryCommand(
            "NotACommand".to_string(),
            Box::new(number(1.0)),
            0..1,
        ))]);
    assert_eq!(
        compile(&statements, &grammar(&["hint"], &[])),
        Err(CompileError::InvalidName("NotACommand".to_string()))
    );
    let known = program(
        vec![Statement::Expression(Expression::UnaryCommand(
            "Hint".to_string(),
            Box::new(Expression::String("a".to_string())),
            0..1,
        ))]);
    let compiled = compile(&known, &grammar(&["hint"], &[])).unwrap();
    assert_eq!(compiled.names_cache, vec!["hint".to_string()]);
    assert_eq!(
        compiled.constants_cache[1],
        code(
            vec![
                Instruction::EndStatement,
                Instruction::Push(0),
                Instruction::CallUnary(0, info(0)),
            ])
    );
}

#[test]
fn the_first_error_in_order_is_reported() {
    let statements = program(
        vec![Statement::AssignGlobal(
            "bad target".to_string(),
            Expression::BinaryCommand(
                "bad command".to_string(),
                Box::new(Expression::Variable("bad left".to_string(), 0..1)),
                Box::new(Expression::Variable("bad right".to_string(), 0..1)),
                0..1,
            ),
            0..1,
        )]);
    assert_eq!(
        compile(&statements, &grammar(&[], &[])),
        Err(CompileError::InvalidName("bad left".to_string()))
    );
    assert_eq!(
        compile(&statements, &grammar(&["bad left"], &[])),
        Err(CompileError::InvalidName("bad right".to_string()))
    );
    assert_eq!(
        compile(&statements, &grammar(&["bad left", "bad right"], &[])),
        Err(CompileError::InvalidName("bad command".to_string()))
    );
    assert_eq!(
        compile(&statements, &grammar(&["bad left", "bad right", "bad command"], &[])),
        Err(CompileError::InvalidName("bad target".to_string()))
    );
}

#[test]
fn nular_commands_fold_only_when_constant() {
    let statements = program(
        vec![
            Statement::Expression(Expression::NularCommand("Pi".to_string(), 0..1)),
            Statement::Expression(Expression::NularCommand("Player".to_string(), 10..11)),
        ]);
    let grammar = grammar(&["pi", "player"], &["pi"]);
    let compiled = compile(&statements, &grammar).unwrap();
    assert_eq!(compiled.constants_cache[0], Constant::NularCommand("pi".to_string()));
    assert_eq!(compiled.names_cache, vec!["player".to_string()]);
    assert_eq!(
        compiled.constants_cache[1],
        code(
            vec![
                Instruction::EndStatement,
                Instruction::Push(0),
                Instruction::EndStatement,
                Instruction::CallNular(0, info(10)),
            ])
    );
    let unknown = CommandGrammar { identifiers: vec![], constants: vec!["pi".to_string()] };
    assert_eq!(
        compile(&statements, &unknown),
        Err(CompileError::InvalidName("Pi".to_string()))
    );
}

#[test]
fn source_information_comes_from_the_last_mapping() {
    let processed = Processed {
        sources: vec!["a.sqf".to_string(), "b.hpp".to_string(), "b.hpp".to_string()],
        mappings: vec![
            Mapping {
                processed_start: 0,
                processed_end: 100,
                path: "a.sqf".to_string(),
                line: 1,
                was_macro: false,
            },
            Mapping {
                processed_start: 10,
                processed_end: 20,
                path: "b.hpp".to_string(),
                line: 70000,
                was_macro: true,
            },
            Mapping {
                processed_start: 200,
                processed_end: 300,
                path: "c.hpp".to_string(),
                line: 3,
                was_macro: false,
            },
        ],
        output: String::new(),
    };
    assert_eq!(processed.mapping(5).map(|m| m.line), Some(1));
    assert_eq!(processed.mapping(10).map(|m| m.line), Some(70000));
    assert_eq!(processed.mapping(19).map(|m| m.line), Some(70000));
    assert_eq!(processed.mapping(20).map(|m| m.line), Some(1));
    assert_eq!(processed.mapping(100), None);
    assert_eq!(
        find_source(&processed, 5),
        Some(SourceInfo { offset: 5, file_index: 0, file_line: 1 })
    );
    assert_eq!(
        find_source(&processed, 12),
        Some(SourceInfo { offset: 12, file_index: 1, file_line: 4464 })
    );
    assert_eq!(find_source(&processed, 150), None);
    assert_eq!(find_source(&processed, 250), None);
    assert_eq!(
        location_to_source(&processed, &(12..14)),
        SourceInfo { offset: 12, file_index: 1, file_line: 4464 }
    );
}

#[test]
fn a_span_without_mapping_is_found_before_compiling() {
    let statements = program(
        vec![Statement::Expression(Expression::Variable("x".to_string(), 5000..5001))]);
    assert!(!statements.is_mapped(&processed()));
    assert_eq!(statements.try_compile(&processed(), &grammar(&["x"], &[])), None);
    let literal = program(vec![Statement::Expression(number(1.0))]);
    let nothing = Processed { sources: vec![], mappings: vec![], output: String::new() };
    assert!(literal.is_mapped(&nothing));
}

#[test]
fn file_index_has_to_fit_in_a_byte() {
    let mut sources: Vec<String> = (0..300).map(|i| format!("f{i}.sqf")).collect();
    let mapping = |path: &str| Mapping {
        processed_start: 0,
        processed_end: 10,
        path: path.to_string(),
        line: 2,
        was_macro: false,
    };
    let processed = Processed {
        sources: sources.clone(),
        mappings: vec![mapping("f255.sqf")],
        output: String::new(),
    };
    assert_eq!(
        find_source(&processed, 3),
        Some(SourceInfo { offset: 3, file_index: 255, file_line: 2 })
    );
    sources.truncate(300);
    let processed =
        Processed { sources, mappings: vec![mapping("f256.sqf")], output: String::new() };
    assert_eq!(find_source(&processed, 3), None);
}

#[test]
fn compile_errors_have_a_message() {
    assert_eq!(
        CompileError::ListTooLong.message(),
        "cannot convert list longer than 2^16 elements"
    );
    assert_eq!(CompileError::InvalidName("Foo".to_string()).message(), "invalid name Foo");
}

#[test]
fn a_failed_array_appends_nothing() {
    let elements: Vec<Expression> =
        (0..65536).map(|_| Expression::Variable("x".to_string(), 5..6)).collect();
    let array = Expression::Array(elements, 0..1);
    let processed = processed();
    assert!(array.is_mapped(&processed));
    let mut ctx = Context::new();
    let mut instructions = vec![Instruction::EndStatement];
    assert_eq!(
        array.compile_instructions(&mut instructions, &processed, &grammar(&["x"], &[]), &mut ctx),
        Err(CompileError::ListTooLong)
    );
    assert_eq!(instructions, vec![Instruction::EndStatement]);
    assert!(ctx.names_cache.is_empty());
    assert!(ctx.constants_cache.is_empty());
}

#[test]
fn an_unknown_command_leaves_what_its_operand_left() {
    let command = Expression::UnaryCommand(
        "NotACommand".to_string(),
        Box::new(Expression::Variable("X".to_string(), 5..6)),
        0..1,
    );
    let mut ctx = Context::new();
    let mut instructions = vec![Instruction::EndStatement];
    assert_eq!(
        command.compile_instructions(
            &mut instructions,
            &processed(),
            &grammar(&["x"], &[]),
            &mut ctx
        ),
        Err(CompileError::InvalidName("NotACommand".to_string()))
    );
    assert_eq!(instructions, vec![Instruction::EndStatement, Instruction::GetVariable(0, info(5))]);
    assert_eq!(ctx.names_cache, vec!["x".to_string()]);
    assert!(ctx.constants_cache.is_empty());
}

#[test]
fn a_failed_operand_ends_the_command() {
    let sum = |left: Expression, right: Expression| {
        Expression::BinaryCommand("+".to_string(), Box::new(left), Box::new(right), 0..1)
    };
    let bad = || Expression::Variable("bad".to_string(), 5..6);
    let grammar = grammar(&["+"], &[]);
    let mut ctx = Context::new();
    let mut instructions = Vec::new();
    assert_eq!(
        sum(bad(), number(1.0)).compile_instructions(
            &mut instructions,
            &processed(),
            &grammar,
            &mut ctx
        ),
        Err(CompileError::InvalidName("bad".to_string()))
    );
    assert!(instructions.is_empty());
    assert!(ctx.names_cache.is_empty());
    assert!(ctx.constants_cache.is_empty());
    assert_eq!(
        sum(number(1.0), bad()).compile_instructions(
            &mut instructions,
            &processed(),
            &grammar,
            &mut ctx
        ),
        Err(CompileError::InvalidName("bad".to_string()))
    );
    assert_eq!(instructions, vec![Instruction::Push(0)]);
    assert!(ctx.names_cache.is_empty());
    assert_eq!(ctx.constants_cache, vec![scalar(1.0)]);
}

#[test]
fn a_failed_statement_keeps_its_marker() {
    let statement = Statement::AssignGlobal("bad".to_string(), number(1.0), 0..1);
    let mut ctx = Context::new();
    let mut instructions = Vec::new();
    assert_eq!(
        statement.compile_instructions(
            &mut instructions,
            &processed(),
            &grammar(&[], &[]),
            &mut ctx
        ),
        Err(CompileError::InvalidName("bad".to_string()))
    );
    assert_eq!(instructions, vec![Instruction::EndStatement, Instruction::Push(0)]);
    assert_eq!(ctx.constants_cache, vec![scalar(1.0)]);
    assert!(ctx.names_cache.is_empty());
}

#[test]
fn constant_array_of_65537_elements_is_too_long() {
    let literals = |n: usize| -> Expression {
        Expression::Array((0..n).map(|_| Expression::Boolean(true)).collect(), 0..1)
    };
    let grammar = grammar(&[], &[]);
    let too_long = program(vec![Statement::Expression(literals(65537))]);
    assert_eq!(compile(&too_long, &grammar), Err(CompileError::ListTooLong));
    let nested = program(vec![Statement::Expression(Expression::Array(
        vec![literals(65537)],
        0..1,
    ))]);
    assert_eq!(compile(&nested, &grammar), Err(CompileError::ListTooLong));
    let longest = program(vec![Statement::Expression(literals(65536))]);
    let compiled = compile(&longest, &grammar).unwrap();
    assert_eq!(compiled.entry_point, 1);
    match &compiled.constants_cache[0] {
        Constant::Array(items) => assert_eq!(items.len(), 65536),
        other => panic!("the constant is {other:?}"),
    }
}
