//! The tokens a reader works through: an iterator that lets it look ahead.

use super::{Token, TokenView};
use peekmore::PeekMore;
use std::vec::IntoIter;
use vstd::prelude::*;

verus! {

/// The iterator of the `peekmore` crate: an iterator with a queue of the
/// items that it has looked at and not yet given out.
#[verifier::external_type_specification]
#[verifier::external_body]
#[verifier::reject_recursive_types(I)]
pub struct ExPeekMoreIterator<I: Iterator>(peekmore::PeekMoreIterator<I>);

/// The tokens that the iterator has yet to give out, in order.
pub uninterp spec fn remaining(tokens: peekmore::PeekMoreIterator<IntoIter<Token>>) -> Seq<TokenView>;

/// The cursor of the iterator: how far behind the next token `peek` looks.
pub uninterp spec fn cursor(tokens: peekmore::PeekMoreIterator<IntoIter<Token>>) -> nat;

/// `PeekMore::peekmore` on the iterator of a list: an iterator that has
/// every token of the list yet to give out, with the cursor on the first.
#[verifier::external_body]
pub(crate) fn stream_of(tokens: Vec<Token>) -> (r: peekmore::PeekMoreIterator<IntoIter<Token>>)
    ensures
        remaining(r) == super::token_views(tokens@),
        cursor(r) == 0,
{
    tokens.into_iter().peekmore()
}

/// `PeekMoreIterator::peek`: a copy of the token under the cursor, or `None`
/// where the cursor is behind the last token. Nothing is given out and the
/// cursor stays.
#[verifier::external_body]
pub(crate) fn peek(tokens: &mut peekmore::PeekMoreIterator<IntoIter<Token>>) -> (r: Option<Token>)
    ensures
        remaining(*final(tokens)) == remaining(*old(tokens)),
        cursor(*final(tokens)) == cursor(*old(tokens)),
        match r {
            Some(token) => cursor(*old(tokens)) < remaining(*old(tokens)).len() && token@
                == remaining(*old(tokens))[cursor(*old(tokens)) as int],
            None => cursor(*old(tokens)) >= remaining(*old(tokens)).len(),
        },
{
    tokens.peek().cloned()
}

/// `PeekMoreIterator::peek_nth`: a copy of the token that is `n` behind the
/// next one, or `None` where there is none. Nothing is given out and the
/// cursor stays.
#[verifier::external_body]
pub(crate) fn peek_nth(tokens: &mut peekmore::PeekMoreIterator<IntoIter<Token>>, n: usize) -> (r: Option<
    Token,
>)
    requires
        n < usize::MAX,
    ensures
        remaining(*final(tokens)) == remaining(*old(tokens)),
        cursor(*final(tokens)) == cursor(*old(tokens)),
        match r {
            Some(token) => n < remaining(*old(tokens)).len() && token@ == remaining(
                *old(tokens),
            )[n as int],
            None => n >= remaining(*old(tokens)).len(),
        },
{
    tokens.peek_nth(n).cloned()
}

/// `Iterator::next` of the iterator: gives out the next token, or `None`
/// where none is left. The cursor stays on the token it was on, but does not
/// go before the next one.
#[verifier::external_body]
pub(crate) fn next(tokens: &mut peekmore::PeekMoreIterator<IntoIter<Token>>) -> (r: Option<Token>)
    ensures
        match r {
            Some(token) => remaining(*old(tokens)).len() > 0 && token@ == remaining(
                *old(tokens),
            )[0] && remaining(*final(tokens)) == remaining(*old(tokens)).drop_first(),
            None => remaining(*old(tokens)).len() == 0 && remaining(*final(tokens)).len() == 0,
        },
        cursor(*final(tokens)) == if cursor(*old(tokens)) > 0 {
            cursor(*old(tokens)) - 1
        } else {
            0
        },
{
    tokens.next()
}

} // verus!
