//! Token text, held in `quote::Tokens`.

use crate::error::{GenError, GenErrorView};
use vstd::prelude::*;

verus! {

#[verifier::external_type_specification]
#[verifier::external_body]
pub struct ExTokens(quote::Tokens);

/// The text that a `quote::Tokens` holds.
pub uninterp spec fn tokens_text(tokens: quote::Tokens) -> Seq<char>;

/// `head` followed by `tail`, with one space between them where neither is
/// empty.
pub open spec fn spaced(head: Seq<char>, tail: Seq<char>) -> Seq<char> {
    if head.len() > 0 && tail.len() > 0 {
        head + seq![' '] + tail
    } else {
        head + tail
    }
}

/// `quote::Tokens::new`: the result holds no text.
#[verifier::external_body]
pub(crate) fn tokens_new() -> (tokens: quote::Tokens)
    ensures
        tokens_text(tokens) == Seq::<char>::empty(),
{
    quote::Tokens::new()
}

/// `quote::Tokens::append`: the text grows by `token`, after one space where
/// both the text so far and `token` are not empty.
#[verifier::external_body]
pub(crate) fn tokens_append(tokens: &mut quote::Tokens, token: &str)
    ensures
        tokens_text(*final(tokens)) == spaced(tokens_text(*old(tokens)), token@),
{
    tokens.append(token)
}

/// `quote::Tokens::as_str`: the text that the tokens hold.
#[verifier::external_body]
pub(crate) fn tokens_as_str(tokens: &quote::Tokens) -> (text: &str)
    ensures
        text@ == tokens_text(*tokens),
{
    tokens.as_str()
}

/// Tokens that hold `text`.
pub(crate) fn tokens_of(text: &str) -> (tokens: quote::Tokens)
    ensures
        tokens_text(tokens) == text@,
{
    let mut tokens = tokens_new();
    tokens_append(&mut tokens, text);
    assert(spaced(Seq::<char>::empty(), text@) =~= text@);
    tokens
}

/// `head` after each of `parts` was appended to it in order.
pub open spec fn appended(head: Seq<char>, parts: Seq<Seq<char>>) -> Seq<char>
    decreases parts.len(),
{
    if parts.len() == 0 {
        head
    } else {
        spaced(appended(head, parts.drop_last()), parts.last())
    }
}

/// The text that tokens hold, or the error in their place.
pub open spec fn tokens_result(r: Result<quote::Tokens, GenError>) -> Result<
    Seq<char>,
    GenErrorView,
> {
    match r {
        Ok(tokens) => Ok(tokens_text(tokens)),
        Err(e) => Err(e@),
    }
}

} // verus!
