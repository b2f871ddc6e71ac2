//! Token text: pieces of source code joined by single spaces, and the
//! `quote::Tokens` buffer they are collected in.

use quote::ToTokens;
use vstd::prelude::*;

verus! {

/// `text` with `token` put behind it, a single space in between where both
/// are non-empty.
pub open spec fn push_token(text: Seq<char>, token: Seq<char>) -> Seq<char> {
    if text.len() > 0 && token.len() > 0 {
        text + seq![' '] + token
    } else {
        text + token
    }
}

/// The tokens in order, each pushed behind those before it.
pub open spec fn spaced(tokens: Seq<Seq<char>>) -> Seq<char>
    decreases tokens.len(),
{
    if tokens.len() == 0 {
        Seq::empty()
    } else {
        push_token(spaced(tokens.drop_last()), tokens.last())
    }
}

/// The character that stands for a digit below ten.
pub open spec fn digit(d: nat) -> char {
    if d == 0 {
        '0'
    } else if d == 1 {
        '1'
    } else if d == 2 {
        '2'
    } else if d == 3 {
        '3'
    } else if d == 4 {
        '4'
    } else if d == 5 {
        '5'
    } else if d == 6 {
        '6'
    } else if d == 7 {
        '7'
    } else if d == 8 {
        '8'
    } else {
        '9'
    }
}

/// A number in decimal digits, without leading zeros.
pub open spec fn decimal(n: nat) -> Seq<char>
    decreases n,
{
    if n < 10 {
        seq![digit(n)]
    } else {
        decimal(n / 10).push(digit(n % 10))
    }
}

/// A number as a literal of the unsigned size type: its digits and the
/// type's name.
pub open spec fn size_literal(n: nat) -> Seq<char> {
    decimal(n) + "usize"@
}

/// `quote::Tokens`, the buffer that emitted code is collected in. Verus sees
/// nothing inside a value of it; `tokens_text` names what it holds.
#[verifier::external_type_specification]
#[verifier::external_body]
pub struct ExTokens(quote::Tokens);

/// The text held by a `quote::Tokens`.
pub uninterp spec fn tokens_text(tokens: quote::Tokens) -> Seq<char>;

/// The string literal that `quote` writes for a string: the string between
/// double quotes, with the characters escaped that a literal cannot hold.
pub uninterp spec fn str_literal(s: Seq<char>) -> Seq<char>;

/// `quote::Tokens::new` returns a buffer that holds no text.
pub assume_specification[ quote::Tokens::new ]() -> (tokens: quote::Tokens)
    ensures
        tokens_text(tokens) == Seq::<char>::empty(),
;

/// `quote::Tokens::into_string` hands out the text that the buffer holds.
pub assume_specification[ quote::Tokens::into_string ](tokens: quote::Tokens) -> (text: String)
    ensures
        text@ == tokens_text(tokens),
;

/// `quote::Tokens::as_str` lends the text that the buffer holds.
pub assume_specification<'a>[ quote::Tokens::as_str ](tokens: &'a quote::Tokens) -> (text: &'a str)
    ensures
        text@ == tokens_text(*tokens),
;

/// `quote::Tokens::append`: pushes a space where the buffer and the token are
/// both non-empty, then the token.
#[verifier::external_body]
fn append(tokens: &mut quote::Tokens, token: &str)
    ensures
        tokens_text(*final(tokens)) == push_token(tokens_text(*old(tokens)), token@),
{
    tokens.append(token)
}

/// `quote`'s `ToTokens` for `str`: appends the string as one token, written
/// as a string literal.
#[verifier::external_body]
fn append_str_literal(tokens: &mut quote::Tokens, s: &str)
    ensures
        tokens_text(*final(tokens)) == push_token(tokens_text(*old(tokens)), str_literal(s@)),
{
    s.to_tokens(tokens)
}

/// `quote`'s `ToTokens` for `usize`: appends one token, the number in decimal
/// followed by `usize`.
#[verifier::external_body]
fn append_size_literal(tokens: &mut quote::Tokens, n: usize)
    ensures
        tokens_text(*final(tokens)) == push_token(
            tokens_text(*old(tokens)),
            size_literal(n as nat),
        ),
{
    n.to_tokens(tokens)
}

/// `syn::Ident::from` on a `usize`, then its `ToTokens`: appends one token,
/// the number in decimal.
#[verifier::external_body]
fn append_position(tokens: &mut quote::Tokens, n: usize)
    ensures
        tokens_text(*final(tokens)) == push_token(tokens_text(*old(tokens)), decimal(n as nat)),
{
    syn::Ident::from(n).to_tokens(tokens)
}

/// Pushing one more token onto a list pushes it onto the list's text.
pub proof fn lemma_spaced_push(tokens: Seq<Seq<char>>, token: Seq<char>)
    ensures
        spaced(tokens.push(token)) == push_token(spaced(tokens), token),
{
    assert(tokens.push(token).drop_last() =~= tokens);
}

/// A buffer together with the list of tokens that were put into it.
pub struct Fragment {
    tokens: quote::Tokens,
    parts: Ghost<Seq<Seq<char>>>,
}

impl Fragment {
    /// The tokens put into the fragment so far, in order.
    pub closed spec fn parts(&self) -> Seq<Seq<char>> {
        self.parts@
    }

    /// The buffer holds the tokens, spaced.
    pub closed spec fn wf(&self) -> bool {
        tokens_text(self.tokens) == spaced(self.parts@)
    }

    /// A fragment without tokens.
    pub fn new() -> (fragment: Fragment)
        ensures
            fragment.wf(),
            fragment.parts() == Seq::<Seq<char>>::empty(),
    {
        Fragment { tokens: quote::Tokens::new(), parts: Ghost(Seq::empty()) }
    }

    /// Puts `token` behind the others.
    pub fn put(&mut self, token: &str)
        requires
            old(self).wf(),
        ensures
            final(self).wf(),
            final(self).parts() == old(self).parts().push(token@),
    {
        proof {
            lemma_spaced_push(self.parts@, token@);
        }
        append(&mut self.tokens, token);
        self.parts = Ghost(self.parts@.push(token@));
    }

    /// Puts `s`, written as a string literal, behind the others.
    pub fn put_str_literal(&mut self, s: &str)
        requires
            old(self).wf(),
        ensures
            final(self).wf(),
            final(self).parts() == old(self).parts().push(str_literal(s@)),
    {
        proof {
            lemma_spaced_push(self.parts@, str_literal(s@));
        }
        append_str_literal(&mut self.tokens, s);
        self.parts = Ghost(self.parts@.push(str_literal(s@)));
    }

    /// Puts `n`, written as a literal of the unsigned size type, behind the
    /// others.
    pub fn put_size_literal(&mut self, n: usize)
        requires
            old(self).wf(),
        ensures
            final(self).wf(),
            final(self).parts() == old(self).parts().push(size_literal(n as nat)),
    {
        proof {
            lemma_spaced_push(self.parts@, size_literal(n as nat));
        }
        append_size_literal(&mut self.tokens, n);
        self.parts = Ghost(self.parts@.push(size_literal(n as nat)));
    }

    /// Puts `n`, written in decimal, behind the others.
    pub fn put_position(&mut self, n: usize)
        requires
            old(self).wf(),
        ensures
            final(self).wf(),
            final(self).parts() == old(self).parts().push(decimal(n as nat)),
    {
        proof {
            lemma_spaced_push(self.parts@, decimal(n as nat));
        }
        append_position(&mut self.tokens, n);
        self.parts = Ghost(self.parts@.push(decimal(n as nat)));
    }

    /// Puts the text of `inner` behind the others, as one token.
    pub fn put_tokens(&mut self, inner: &quote::Tokens)
        requires
            old(self).wf(),
        ensures
            final(self).wf(),
            final(self).parts() == old(self).parts().push(tokens_text(*inner)),
    {
        self.put(inner.as_str());
    }

    /// The buffer, which holds the tokens spaced.
    pub fn finish(self) -> (tokens: quote::Tokens)
        requires
            self.wf(),
        ensures
            tokens_text(tokens) == spaced(self.parts()),
    {
        self.tokens
    }
}

} // verus!
