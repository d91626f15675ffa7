//! Reading values of the config language from tokens.

pub mod str;
pub mod stream;

use vstd::prelude::*;
use vstd::string::StringExecFns;

verus! {

/// A space or a tab.
#[derive(Clone, Copy, Debug, PartialEq, Eq, Structural)]
pub enum Whitespace {
    Space,
    Tab,
}

/// What a token is.
#[derive(Clone, Debug, PartialEq, Eq)]
pub enum Symbol {
    /// `"`
    DoubleQuote,
    /// A space or a tab.
    Whitespace(Whitespace),
    /// `\`
    Escape,
    /// A run of letters, digits and underscores.
    Word(String),
    /// Anything else, by its text.
    Other(String),
}

/// The mathematical value of a [`Symbol`].
pub enum SymbolView {
    DoubleQuote,
    Whitespace(Whitespace),
    Escape,
    Word(Seq<char>),
    Other(Seq<char>),
}

impl View for Symbol {
    type V = SymbolView;

    open spec fn view(&self) -> SymbolView {
        match self {
            Symbol::DoubleQuote => SymbolView::DoubleQuote,
            Symbol::Whitespace(kind) => SymbolView::Whitespace(*kind),
            Symbol::Escape => SymbolView::Escape,
            Symbol::Word(text) => SymbolView::Word(text@),
            Symbol::Other(text) => SymbolView::Other(text@),
        }
    }
}

impl SymbolView {
    /// The text that the symbol was read from.
    pub open spec fn text(self) -> Seq<char> {
        match self {
            SymbolView::DoubleQuote => "\""@,
            SymbolView::Whitespace(Whitespace::Space) => " "@,
            SymbolView::Whitespace(Whitespace::Tab) => "\t"@,
            SymbolView::Escape => "\\"@,
            SymbolView::Word(text) => text,
            SymbolView::Other(text) => text,
        }
    }
}

impl Symbol {
    /// The text that the symbol was read from.
    pub fn text(&self) -> (r: String)
        ensures
            r@ == self@.text(),
    {
        match self {
            Symbol::DoubleQuote => String::from_str("\""),
            Symbol::Whitespace(Whitespace::Space) => String::from_str(" "),
            Symbol::Whitespace(Whitespace::Tab) => String::from_str("\t"),
            Symbol::Escape => String::from_str("\\"),
            Symbol::Word(text) => text.clone(),
            Symbol::Other(text) => text.clone(),
        }
    }

    /// A copy of the symbol.
    pub fn copy(&self) -> (r: Symbol)
        ensures
            r@ == self@,
    {
        match self {
            Symbol::DoubleQuote => Symbol::DoubleQuote,
            Symbol::Whitespace(kind) => Symbol::Whitespace(*kind),
            Symbol::Escape => Symbol::Escape,
            Symbol::Word(text) => Symbol::Word(text.clone()),
            Symbol::Other(text) => Symbol::Other(text.clone()),
        }
    }
}

/// A token: a symbol, and the offset in the text at which it was read.
#[derive(Clone, Debug, PartialEq, Eq)]
pub struct Token {
    pub symbol: Symbol,
    pub offset: usize,
}

/// The mathematical value of a [`Token`].
pub struct TokenView {
    pub symbol: SymbolView,
    pub offset: usize,
}

impl View for Token {
    type V = TokenView;

    open spec fn view(&self) -> TokenView {
        TokenView { symbol: self.symbol@, offset: self.offset }
    }
}

impl Token {
    /// The symbol of the token.
    pub fn symbol(&self) -> (r: &Symbol)
        ensures
            r == &self.symbol,
    {
        &self.symbol
    }

    /// A copy of the token.
    pub fn copy(&self) -> (r: Token)
        ensures
            r@ == self@,
    {
        Token { symbol: self.symbol.copy(), offset: self.offset }
    }
}

/// The mathematical values of a list of tokens, one for one.
pub open spec fn token_views(tokens: Seq<Token>) -> Seq<TokenView> {
    tokens.map_values(|token: Token| token@)
}

/// Why a value could not be read.
#[derive(Debug, PartialEq, Eq)]
pub enum Error {
    /// A token stands where one of the expected symbols should.
    UnexpectedToken { token: Box<Token>, expected: Vec<Symbol> },
    /// The tokens ended inside the value that began at the token.
    UnexpectedEOF { token: Box<Token> },
}

/// The mathematical value of an [`Error`].
pub enum ErrorView {
    UnexpectedToken { token: TokenView, expected: Seq<SymbolView> },
    UnexpectedEOF { token: TokenView },
}

impl View for Error {
    type V = ErrorView;

    open spec fn view(&self) -> ErrorView {
        match self {
            Error::UnexpectedToken { token, expected } => ErrorView::UnexpectedToken {
                token: token@,
                expected: expected@.map_values(|symbol: Symbol| symbol@),
            },
            Error::UnexpectedEOF { token } => ErrorView::UnexpectedEOF { token: token@ },
        }
    }
}

/// How values are read. There is nothing to choose yet.
#[derive(Clone, Copy, Debug, Default, PartialEq, Eq)]
pub struct Options;

} // verus!
