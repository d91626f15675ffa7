//! Reading a string.
//!
//! A string stands between double quotes. Inside it, two double quotes in a
//! row are one double quote of the text. After the closing quote, whitespace
//! is passed over; a `\n` there is a line break of the text, and a quote
//! after that opens the next piece of the same string.

use super::stream::{cursor, next, peek, peek_nth, remaining, stream_of};
use super::{token_views, Error, ErrorView, Options, Symbol, SymbolView, Token, TokenView};
use crate::text::same_text;
use std::vec::IntoIter;
use vstd::prelude::*;
use vstd::string::StringExecFns;

verus! {

/// A string of the config language.
#[derive(Debug, PartialEq, Eq)]
pub struct Str(pub String);

/// Where the reader is.
#[derive(Clone, Copy, Debug, PartialEq, Eq, Structural)]
pub enum Mode {
    /// Inside the quotes.
    Inside,
    /// Behind a quote that may have closed the string.
    Closing,
    /// Behind a `\n` outside the quotes.
    Broken,
}

/// What reading ends with: the text, the index of the first token that was
/// not read, and the cursor; or an error. `None` where the tokens end right
/// behind a backslash that follows a closing quote: reading such tokens is
/// not defined.
pub type Reading = Option<Result<(Seq<char>, nat, nat), ErrorView>>;

/// Whether the symbol is the letter `n` that makes a line break of a
/// backslash.
pub open spec fn is_n(symbol: SymbolView) -> bool {
    symbol == SymbolView::Word("n"@)
}

/// The cursor after a token was given out: it stays on the token it was on,
/// but does not go before the next one.
pub open spec fn back(cursor: nat) -> nat {
    if cursor > 0 {
        (cursor - 1) as nat
    } else {
        0
    }
}

/// What reading gives from index `at` on, in the given mode, with `text`
/// read so far. `from` is the token that the string was expected after.
///
/// The reader looks at the token under the cursor, which is `cursor` tokens
/// behind the one at `at`, and gives out the token at `at`; where the cursor
/// is on the next token, as it is unless a caller has moved it, the two are
/// the same token.
///
/// Inside the quotes every token that is given out adds its text, unless the
/// reader sees a quote, which may close the string. Behind such a quote, a
/// second quote adds one quote to the text and goes back inside; whitespace
/// is passed over; a backslash with `n` as the token after the next adds a
/// line break; any other backslash goes back inside; anything else, or no
/// token under the cursor, ends the string. Behind a line break, whitespace
/// is passed over, a quote goes back inside, and anything else ends the
/// string. No token under the cursor inside the quotes or behind a line
/// break is an error.
pub open spec fn read(
    tokens: Seq<TokenView>,
    from: TokenView,
    mode: Mode,
    at: nat,
    cursor: nat,
    text: Seq<char>,
) -> Reading
    decreases tokens.len() - at, (if mode == Mode::Inside { 0nat } else { 1nat }),
{
    if at + cursor >= tokens.len() {
        match mode {
            Mode::Closing => Some(Ok((text, at, cursor))),
            _ => Some(Err(ErrorView::UnexpectedEOF { token: from })),
        }
    } else {
        let seen = tokens[at as int + cursor as int].symbol;
        let given = tokens[at as int].symbol;
        match mode {
            Mode::Inside => match seen {
                SymbolView::DoubleQuote => read(
                    tokens,
                    from,
                    Mode::Closing,
                    at + 1,
                    back(cursor),
                    text,
                ),
                _ => read(tokens, from, Mode::Inside, at + 1, back(cursor), text + given.text()),
            },
            Mode::Closing => match seen {
                SymbolView::DoubleQuote => read(
                    tokens,
                    from,
                    Mode::Inside,
                    at + 1,
                    back(cursor),
                    text + "\""@,
                ),
                SymbolView::Whitespace(_) => read(
                    tokens,
                    from,
                    Mode::Closing,
                    at + 1,
                    back(cursor),
                    text,
                ),
                SymbolView::Escape => if at + 1 >= tokens.len() {
                    None
                } else if is_n(tokens[at as int + 1].symbol) {
                    read(tokens, from, Mode::Broken, at + 2, back(back(cursor)), text + "\n"@)
                } else {
                    read(tokens, from, Mode::Inside, at, cursor, text)
                },
                _ => Some(Ok((text, at, cursor))),
            },
            Mode::Broken => match seen {
                SymbolView::Whitespace(_) => read(
                    tokens,
                    from,
                    Mode::Broken,
                    at + 1,
                    back(cursor),
                    text,
                ),
                SymbolView::DoubleQuote => read(
                    tokens,
                    from,
                    Mode::Inside,
                    at + 1,
                    back(cursor),
                    text,
                ),
                _ => Some(Ok((text, at, cursor))),
            },
        }
    }
}

/// What reading a string gives: the next token has to be a double quote,
/// which opens the string.
pub open spec fn parsed(tokens: Seq<TokenView>, from: TokenView, cursor: nat) -> Reading {
    if tokens.len() == 0 {
        Some(Err(ErrorView::UnexpectedEOF { token: from }))
    } else if tokens[0].symbol != SymbolView::DoubleQuote {
        Some(
            Err(
                ErrorView::UnexpectedToken {
                    token: tokens[0],
                    expected: seq![SymbolView::DoubleQuote],
                },
            ),
        )
    } else {
        read(tokens, from, Mode::Inside, 1, back(cursor), Seq::empty())
    }
}

/// Whether `result`, with the tokens that are left and the cursor, is the
/// reading `reading` of `all`.
pub open spec fn is_reading(
    result: Result<Str, Error>,
    left: Seq<TokenView>,
    cursor: nat,
    all: Seq<TokenView>,
    reading: Reading,
) -> bool {
    match reading {
        Some(Ok((text, next, at))) => result matches Ok(string) && string.0@ == text && left
            == all.skip(next as int) && cursor == at,
        Some(Err(e)) => result matches Err(f) && f@ == e,
        None => false,
    }
}

impl Str {
    /// Reads a string from the tokens and leaves those behind it. Gives
    /// `None` where reading these tokens is not defined.
    pub fn try_parse(
        _options: &Options,
        tokens: &mut peekmore::PeekMoreIterator<IntoIter<Token>>,
        from: &Token,
    ) -> (r: Option<Result<Str, Error>>)
        ensures
            r is Some <==> parsed(remaining(*old(tokens)), from@, cursor(*old(tokens))) is Some,
            r matches Some(result) ==> is_reading(
                result,
                remaining(*final(tokens)),
                cursor(*final(tokens)),
                remaining(*old(tokens)),
                parsed(remaining(*old(tokens)), from@, cursor(*old(tokens))),
            ),
    {
        let ghost all = remaining(*tokens);
        let ghost start = cursor(*tokens);
        match next(tokens) {
            None => {
                return Some(Err(Error::UnexpectedEOF { token: Box::new(from.copy()) }));
            },
            Some(token) => match token.symbol() {
                Symbol::DoubleQuote => {},
                _ => {
                    let mut expected: Vec<Symbol> = Vec::new();
                    expected.push(Symbol::DoubleQuote);
                    let error = Error::UnexpectedToken { token: Box::new(token), expected };
                    assert(error@->UnexpectedToken_expected =~= seq![SymbolView::DoubleQuote]);
                    return Some(Err(error));
                },
            },
        }
        let ghost goal = read(all, from@, Mode::Inside, 1, back(start), Seq::empty());
        let ghost mut at: nat = 1;
        let ghost mut cur: nat = back(start);
        let mut string = String::new();
        let mut mode = Mode::Inside;
        assert(all.drop_first() == all.skip(1));
        loop
            invariant
                at <= all.len(),
                all == remaining(*old(tokens)),
                remaining(*tokens) == all.skip(at as int),
                cursor(*tokens) == cur,
                goal == parsed(all, from@, cursor(*old(tokens))),
                read(all, from@, mode, at, cur, string@) == goal,
            decreases all.len() - at, (if mode == Mode::Inside { 0nat } else { 1nat }),
        {
            let seen = match peek(tokens) {
                Some(token) => token,
                None => {
                    return match mode {
                        Mode::Closing => Some(Ok(Str(string))),
                        _ => Some(Err(Error::UnexpectedEOF { token: Box::new(from.copy()) })),
                    };
                },
            };
            assert(all.skip(at as int).drop_first() == all.skip(at as int + 1));
            assert(all.skip(at as int)[cur as int] == all[at as int + cur as int]);
            assert(all.skip(at as int)[0] == all[at as int]);
            match mode {
                Mode::Inside => match seen.symbol() {
                    Symbol::DoubleQuote => {
                        next(tokens);
                        mode = Mode::Closing;
                    },
                    _ => {
                        match next(tokens) {
                            Some(given) => string.append(given.symbol().text().as_str()),
                            None => {},
                        }
                    },
                },
                Mode::Closing => match seen.symbol() {
                    Symbol::DoubleQuote => {
                        next(tokens);
                        string.append("\"");
                        mode = Mode::Inside;
                    },
                    Symbol::Whitespace(_) => {
                        next(tokens);
                    },
                    Symbol::Escape => {
                        let n = match peek_nth(tokens, 1) {
                            None => {
                                return None;
                            },
                            Some(second) => match second.symbol() {
                                Symbol::Word(word) => same_text(word.as_str(), "n"),
                                _ => false,
                            },
                        };
                        assert(all.skip(at as int)[1] == all[at as int + 1]);
                        if n {
                            next(tokens);
                            assert(all.skip(at as int + 1).drop_first() == all.skip(at as int + 2));
                            next(tokens);
                            string.append("\n");
                            mode = Mode::Broken;
                            proof {
                                at = at + 2;
                                cur = back(back(cur));
                            }
                        } else {
                            mode = Mode::Inside;
                        }
                        continue;
                    },
                    _ => {
                        return Some(Ok(Str(string)));
                    },
                },
                Mode::Broken => match seen.symbol() {
                    Symbol::Whitespace(_) => {
                        next(tokens);
                    },
                    Symbol::DoubleQuote => {
                        next(tokens);
                        mode = Mode::Inside;
                    },
                    _ => {
                        return Some(Ok(Str(string)));
                    },
                },
            }
            proof {
                at = at + 1;
                cur = back(cur);
            }
        }
    }

    /// Reads a string from the tokens and leaves those behind it. The tokens
    /// have to be such that reading them is defined.
    pub fn parse(
        _options: &Options,
        tokens: &mut peekmore::PeekMoreIterator<IntoIter<Token>>,
        from: &Token,
    ) -> (r: Result<Str, Error>)
        requires
            parsed(remaining(*old(tokens)), from@, cursor(*old(tokens))) is Some,
        ensures
            is_reading(
                r,
                remaining(*final(tokens)),
                cursor(*final(tokens)),
                remaining(*old(tokens)),
                parsed(remaining(*old(tokens)), from@, cursor(*old(tokens))),
            ),
    {
        match Str::try_parse(_options, tokens, from) {
            Some(result) => result,
            None => Err(Error::UnexpectedEOF { token: Box::new(from.copy()) }),
        }
    }

    /// Reads a string from the beginning of a list of tokens. Gives `None`
    /// where reading these tokens is not defined.
    pub fn read(_options: &Options, tokens: Vec<Token>, from: &Token) -> (r: Option<
        Result<Str, Error>,
    >)
        ensures
            match parsed(token_views(tokens@), from@, 0) {
                Some(Ok((text, _, _))) => r matches Some(Ok(string)) && string.0@ == text,
                Some(Err(e)) => r matches Some(Err(f)) && f@ == e,
                None => r is None,
            },
    {
        let mut stream = stream_of(tokens);
        Str::try_parse(_options, &mut stream, from)
    }
}

} // verus!
