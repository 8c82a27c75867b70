//! Token streams and what they hold.
//!
//! The generated code is handed out as a `proc_macro2::TokenStream`. The verifier cannot
//! look inside such a stream, so this module gives its contents a name, [`stream_tokens`],
//! and states of every operation that the generator performs on a stream how the contents
//! change. Those statements are the trusted base of the crate: they are believed, not
//! proved. Everything else is proved from them.
//!
//! `proc_macro2` has two kinds of streams and spans, those of the compiler and its own,
//! and picks the kind by whether it runs inside a procedural macro. It panics where the
//! two kinds meet. The statements of this module are made of a process that keeps to one
//! kind, as every process does that leaves `proc_macro2::fallback::force` alone.

use proc_macro2::{Group, Ident, Literal, Punct, Span, TokenStream};
use quote::{ToTokens, TokenStreamExt};
use vstd::prelude::*;

verus! {

/// The token stream of `proc_macro2`, opaque to the verifier.
#[verifier::external_type_specification]
#[verifier::external_body]
pub struct ExTokenStream(TokenStream);

/// The span of `proc_macro2`, opaque to the verifier: the place in the source that a token
/// is attributed to.
#[verifier::external_type_specification]
#[verifier::external_body]
pub struct ExSpan(Span);

/// How a group of tokens is delimited.
#[derive(Clone, Copy, Debug, PartialEq, Eq, Structural)]
pub enum Delimiter {
    /// `( ... )`
    Parenthesis,
    /// `{ ... }`
    Brace,
    /// `[ ... ]`
    Bracket,
    /// An invisible delimiter.
    Invisible,
}

/// Whether a punctuation character is glued to the punctuation character after it.
#[derive(Clone, Copy, Debug, PartialEq, Eq, Structural)]
pub enum Spacing {
    /// Something other than punctuation follows, or white space.
    Alone,
    /// Another punctuation character follows at once, as the first `:` in `::`.
    Joint,
}

/// One token tree, without its span.
pub enum Token {
    /// A word: an identifier or a keyword, as it is written. A raw identifier is held with
    /// its `r#`.
    Ident(Seq<char>),
    /// A single punctuation character.
    Punct(char, Spacing),
    /// A literal, by its source text: a string literal is held with its quotes.
    Literal(Seq<char>),
    /// A delimited group and the tokens between its delimiters.
    Group(Delimiter, Seq<Token>),
}

/// The token trees that a stream holds, in order and without their spans.
pub uninterp spec fn stream_tokens(ts: TokenStream) -> Seq<Token>;

/// A character that may start an identifier: `_` or an ASCII letter.
pub open spec fn is_ident_start(c: char) -> bool {
    c == '_' || ('a' <= c && c <= 'z') || ('A' <= c && c <= 'Z')
}

/// A character that may stand inside an identifier: `_`, an ASCII letter or an ASCII digit.
pub open spec fn is_ident_continue(c: char) -> bool {
    is_ident_start(c) || ('0' <= c && c <= '9')
}

/// An identifier: an ASCII word that starts with a letter or `_` and goes on with letters,
/// digits and `_`, other than the lone `_`.
pub open spec fn is_identifier(s: Seq<char>) -> bool {
    &&& s.len() > 0
    &&& is_ident_start(s[0])
    &&& forall|i: int| 0 <= i < s.len() ==> is_ident_continue(#[trigger] s[i])
    &&& !(s.len() == 1 && s[0] == '_')
}

/// The words that name a place in a path. They cannot be written as raw identifiers.
pub open spec fn is_path_keyword(s: Seq<char>) -> bool {
    s == "super"@ || s == "self"@ || s == "Self"@ || s == "crate"@
}

/// The mark in front of a raw identifier.
pub open spec fn raw_prefix() -> Seq<char> {
    seq!['r', '#']
}

/// A character that can be a punctuation token.
pub open spec fn is_punct_char(c: char) -> bool {
    c == '!' || c == '#' || c == '$' || c == '%' || c == '&' || c == '\'' || c == '*' || c == '+'
        || c == ',' || c == '-' || c == '.' || c == '/' || c == ':' || c == ';' || c == '<'
        || c == '=' || c == '>' || c == '?' || c == '@' || c == '^' || c == '|' || c == '~'
}

/// Text that a string literal holds as it stands, with no escape: ASCII letters and digits.
pub open spec fn is_plain_text(s: Seq<char>) -> bool {
    forall|i: int|
        0 <= i < s.len() ==> {
            let c = #[trigger] s[i];
            ('a' <= c && c <= 'z') || ('A' <= c && c <= 'Z') || ('0' <= c && c <= '9')
        }
}

/// The source text of the string literal that holds `text`.
pub open spec fn quoted(text: Seq<char>) -> Seq<char> {
    seq!['"'] + text + seq!['"']
}

/// Calls `TokenStream::new`. Trusted: the stream that comes back holds no token.
#[verifier::external_body]
pub(crate) fn new_stream() -> (ts: TokenStream)
    ensures
        stream_tokens(ts) == Seq::<Token>::empty(),
{
    TokenStream::new()
}

/// Calls `Span::call_site`: the span of the place where the generator was called. Nothing
/// is stated of it.
#[verifier::external_body]
pub(crate) fn call_site() -> Span {
    Span::call_site()
}

/// Makes an identifier with `Ident::new` and appends it with `TokenStreamExt::append`.
/// Trusted: the stream then holds what it held before, followed by that word. `Ident::new`
/// panics on a string that is no identifier, which the precondition rules out.
#[verifier::external_body]
pub(crate) fn push_ident(ts: &mut TokenStream, name: &str, span: Span)
    requires
        is_identifier(name@),
    ensures
        stream_tokens(*final(ts)) == stream_tokens(*old(ts)).push(Token::Ident(name@)),
{
    ts.append(Ident::new(name, span));
}

/// Makes a raw identifier with `Ident::new_raw` and appends it with
/// `TokenStreamExt::append`. Trusted: the stream then holds what it held before, followed
/// by that word with `r#` in front. `Ident::new_raw` panics on a string that is no
/// identifier and on `_`, `super`, `self`, `Self` and `crate`, which the precondition rules
/// out.
#[verifier::external_body]
pub(crate) fn push_raw_ident(ts: &mut TokenStream, name: &str, span: Span)
    requires
        is_identifier(name@),
        !is_path_keyword(name@),
    ensures
        stream_tokens(*final(ts)) == stream_tokens(*old(ts)).push(
            Token::Ident(raw_prefix() + name@),
        ),
{
    ts.append(Ident::new_raw(name, span));
}

/// Makes a punctuation token with `Punct::new` and appends it with
/// `TokenStreamExt::append`. Trusted: the stream then holds what it held before, followed
/// by that character with that spacing. `Punct::new` panics on any character outside its
/// list of twenty-two, which the precondition rules out.
#[verifier::external_body]
pub(crate) fn push_punct(ts: &mut TokenStream, ch: char, spacing: Spacing)
    requires
        is_punct_char(ch),
    ensures
        stream_tokens(*final(ts)) == stream_tokens(*old(ts)).push(Token::Punct(ch, spacing)),
{
    let spacing = match spacing {
        Spacing::Alone => proc_macro2::Spacing::Alone,
        Spacing::Joint => proc_macro2::Spacing::Joint,
    };
    ts.append(Punct::new(ch, spacing));
}

/// Makes a string literal with `Literal::string` and appends it with
/// `TokenStreamExt::append`. Trusted: the stream then holds what it held before, followed
/// by the literal whose source text is `text` between double quotes. `Literal::string`
/// escapes some characters; the precondition admits only text that it leaves as it is.
#[verifier::external_body]
pub(crate) fn push_string(ts: &mut TokenStream, text: &str)
    requires
        is_plain_text(text@),
    ensures
        stream_tokens(*final(ts)) == stream_tokens(*old(ts)).push(Token::Literal(quoted(text@))),
{
    ts.append(Literal::string(text));
}

/// Makes a group with `Group::new` and appends it with `TokenStreamExt::append`. Trusted:
/// the stream then holds what it held before, followed by one group with that delimiter
/// around the tokens of `inner`.
#[verifier::external_body]
pub(crate) fn push_group(ts: &mut TokenStream, delimiter: Delimiter, inner: TokenStream)
    ensures
        stream_tokens(*final(ts)) == stream_tokens(*old(ts)).push(
            Token::Group(delimiter, stream_tokens(inner)),
        ),
{
    let delimiter = match delimiter {
        Delimiter::Parenthesis => proc_macro2::Delimiter::Parenthesis,
        Delimiter::Brace => proc_macro2::Delimiter::Brace,
        Delimiter::Bracket => proc_macro2::Delimiter::Bracket,
        Delimiter::Invisible => proc_macro2::Delimiter::None,
    };
    ts.append(Group::new(delimiter, inner));
}

/// Calls `ToTokens::to_tokens` on a stream, which appends a copy of it to another.
/// Trusted: `ts` then holds what it held before, followed by the tokens of `other`.
#[verifier::external_body]
pub(crate) fn push_stream(ts: &mut TokenStream, other: &TokenStream)
    ensures
        stream_tokens(*final(ts)) == stream_tokens(*old(ts)) + stream_tokens(*other),
{
    other.to_tokens(ts);
}

} // verus!
