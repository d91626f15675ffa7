use hemtt::config::parse::str::Str;
use hemtt::config::parse::{Error, Options, Symbol, Token, Whitespace};
use peekmore::PeekMore;

/// Splits a text into tokens: quotes, whitespace, backslashes, words, and
/// every other character on its own.
fn tokens(text: &str) -> Vec<Token> {
    let mut tokens: Vec<Token> = Vec::new();
    for (offset, c) in text.char_indices() {
        let symbol = match c {
            '"' => Symbol::DoubleQuote,
            ' ' => Symbol::Whitespace(Whitespace::Space),
            '\t' => Symbol::Whitespace(Whitespace::Tab),
            '\\' => Symbol::Escape,
            c if c.is_alphanumeric() || c == '_' => {
                if let Some(Token { symbol: Symbol::Word(word), .. }) = tokens.last_mut() {
                    word.push(c);
                    continue;
                }
                Symbol::Word(c.to_string())
            }
            c => Symbol::Other(c.to_string()),
        };
        tokens.push(Token { symbol, offset });
    }
    tokens
}

fn builtin() -> Token {
    Token { symbol: Symbol::Other(String::new()), offset: 0 }
}

/// Reads a string from the tokens of a text; gives the result and the number
/// of tokens that were read.
fn parse(text: &str) -> Result<(Str, usize), Error> {
    let tokens = tokens(text);
    let all = tokens.len();
    let mut stream = tokens.into_iter().peekmore();
    let result = Str::try_parse(&Options, &mut stream, &builtin()).expect("reading is defined");
    result.map(|string| (string, all - stream.count()))
}

#[test]
fn string() {
    let mut tokens = tokens(r#""test""#).into_iter().peekmore();
    let string = Str::parse(&Options::default(), &mut tokens, &builtin()).unwrap();
    assert_eq!(string, Str("test".to_string()));
}

#[test]
fn string_escape() {
    let mut tokens = tokens(r#""test is ""cool""""#).into_iter().peekmore();
    let string = Str::parse(&Options::default(), &mut tokens, &builtin()).unwrap();
    assert_eq!(string, Str(r#"test is "cool""#.to_string()));
}

#[test]
fn multiline_string() {
    let mut tokens = tokens(r#""test" \n "is" \n "cool""#).into_iter().peekmore();
    let string = Str::parse(&Options::default(), &mut tokens, &builtin()).unwrap();
    assert_eq!(string, Str("test\nis\ncool".to_string()));
}

#[test]
fn string_ends_at_the_first_token_behind_it() {
    assert_eq!(parse(r#""a";"#), Ok((Str("a".to_string()), 3)));
    assert_eq!(parse(r#""a"   ;"#), Ok((Str("a".to_string()), 6)));
    assert_eq!(parse(r#""a" b"#), Ok((Str("a".to_string()), 4)));
    assert_eq!(parse(r#""a" \n ;"#), Ok((Str("a\n".to_string()), 7)));
    assert_eq!(parse(r#""""#), Ok((Str(String::new()), 2)));
    assert_eq!(parse("\"a\tb\""), Ok((Str("a\tb".to_string()), 5)));
}

#[test]
fn tokens_behind_the_string_are_left() {
    let mut stream = tokens(r#""a" = "b";"#).into_iter().peekmore();
    assert_eq!(Str::parse(&Options, &mut stream, &builtin()), Ok(Str("a".to_string())));
    assert_eq!(stream.cursor(), 0);
    assert_eq!(stream.next().map(|token| token.symbol), Some(Symbol::Other("=".to_string())));
    assert_eq!(
        stream.next().map(|token| token.symbol),
        Some(Symbol::Whitespace(Whitespace::Space))
    );
    assert_eq!(Str::parse(&Options, &mut stream, &builtin()), Ok(Str("b".to_string())));
    assert_eq!(stream.next().map(|token| token.symbol), Some(Symbol::Other(";".to_string())));
    assert_eq!(stream.next(), None);
}

#[test]
fn a_moved_cursor_is_followed() {
    let mut stream = tokens(r#""a";"#).into_iter().peekmore();
    stream.advance_cursor();
    assert_eq!(Str::try_parse(&Options, &mut stream, &builtin()), Some(Ok(Str("a".to_string()))));
    assert_eq!(stream.cursor(), 0);
    assert_eq!(stream.next().map(|token| token.symbol), Some(Symbol::Other(";".to_string())));

    let mut stream = tokens(r#""a";"#).into_iter().peekmore();
    stream.advance_cursor_by(2);
    assert_eq!(
        Str::try_parse(&Options, &mut stream, &builtin()),
        Some(Err(Error::UnexpectedEOF { token: Box::new(builtin()) }))
    );

    let mut stream = tokens(r#""a "c"#).into_iter().peekmore();
    stream.advance_cursor_by(3);
    assert_eq!(Str::try_parse(&Options, &mut stream, &builtin()), Some(Ok(Str("\"".to_string()))));
    assert_eq!(stream.cursor(), 0);
    assert_eq!(stream.next().map(|token| token.symbol), Some(Symbol::Word("c".to_string())));
}

#[test]
fn string_starts_with_a_quote() {
    let mut stream = tokens(r#"x = "a";"#).into_iter().peekmore();
    assert_eq!(
        Str::parse(&Options, &mut stream, &builtin()),
        Err(Error::UnexpectedToken {
            token: Box::new(Token { symbol: Symbol::Word("x".to_string()), offset: 0 }),
            expected: vec![Symbol::DoubleQuote],
        })
    );
    assert_eq!(
        Str::read(&Options, tokens(r#""a";"#), &builtin()),
        Some(Ok(Str("a".to_string())))
    );
    assert_eq!(Str::read(&Options, tokens(r#""a" \"#), &builtin()), None);
}

#[test]
fn string_without_an_end_is_an_error() {
    let eof = Err(Error::UnexpectedEOF { token: Box::new(builtin()) });
    assert_eq!(parse(""), eof);
    assert_eq!(parse(r#"""#), eof);
    assert_eq!(parse(r#""abc"#), eof);
    assert_eq!(parse(r#""a" \n"#), eof);
    assert_eq!(parse(r#""a" \n  "#), eof);
    assert_eq!(parse(r#""a" \n "b"#), eof);
}

#[test]
fn backslash_behind_the_closing_quote() {
    assert_eq!(parse(r#""a" \x"b"#), Ok((Str("a\\x".to_string()), 7)));
    assert_eq!(parse(r#""a\nb""#), Ok((Str("a\\nb".to_string()), 5)));
    let mut stream = tokens(r#""a" \"#).into_iter().peekmore();
    assert_eq!(Str::try_parse(&Options, &mut stream, &builtin()), None);
}

#[test]
fn symbols_have_their_text() {
    assert_eq!(Symbol::DoubleQuote.text(), "\"");
    assert_eq!(Symbol::Escape.text(), "\\");
    assert_eq!(Symbol::Whitespace(Whitespace::Space).text(), " ");
    assert_eq!(Symbol::Whitespace(Whitespace::Tab).text(), "\t");
    assert_eq!(Symbol::Word("ab".to_string()).text(), "ab");
    assert_eq!(Symbol::Other(";".to_string()).text(), ";");
    let token = Token { symbol: Symbol::Word("ab".to_string()), offset: 3 };
    assert_eq!(token.copy(), token);
    assert_eq!(token.symbol(), &Symbol::Word("ab".to_string()));
}
