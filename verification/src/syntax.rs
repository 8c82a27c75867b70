//! The small pieces of syntax that the generated code is put together from.
//!
//! Each piece is a spec function that says which tokens it is made of, and an executable
//! function that appends exactly those tokens to a stream.

use crate::ident::{Identifier, Name};
use crate::tokens::{
    call_site, is_identifier, is_plain_text, is_punct_char, new_stream, push_group, push_ident,
    push_punct, push_raw_ident, stream_tokens, Delimiter, Spacing, Token,
};
use proc_macro2::TokenStream;
use vstd::prelude::*;

verus! {

/// The word `name`.
pub open spec fn word(name: Seq<char>) -> Token {
    Token::Ident(name)
}

/// The name `name`, as it is written.
pub open spec fn name_word(name: Name) -> Token {
    word(name.written())
}

/// The punctuation character `ch`, followed by something that is no punctuation.
pub open spec fn alone(ch: char) -> Token {
    Token::Punct(ch, Spacing::Alone)
}

/// The punctuation character `ch`, glued to the punctuation character after it.
pub open spec fn joint(ch: char) -> Token {
    Token::Punct(ch, Spacing::Joint)
}

/// `( inner )`
pub open spec fn parenthesized(inner: Seq<Token>) -> Token {
    Token::Group(Delimiter::Parenthesis, inner)
}

/// `{ inner }`
pub open spec fn braced(inner: Seq<Token>) -> Token {
    Token::Group(Delimiter::Brace, inner)
}

/// `[ inner ]`
pub open spec fn bracketed(inner: Seq<Token>) -> Token {
    Token::Group(Delimiter::Bracket, inner)
}

/// `::`
pub open spec fn path_separator() -> Seq<Token> {
    seq![joint(':'), alone(':')]
}

/// `->`
pub open spec fn arrow() -> Seq<Token> {
    seq![joint('-'), alone('>')]
}

/// `#[ inner ]`
pub open spec fn attribute(inner: Seq<Token>) -> Seq<Token> {
    seq![alone('#'), bracketed(inner)]
}

/// `#[wasm_bindgen( arguments )]`
pub open spec fn binding_attribute(arguments: Seq<Token>) -> Seq<Token> {
    attribute(seq![word("wasm_bindgen"@), parenthesized(arguments)])
}

/// `::wasm_bindgen::JsValue`, the type of a dynamic handle.
pub open spec fn js_value_path() -> Seq<Token> {
    path_separator() + seq![word("wasm_bindgen"@)] + path_separator() + seq![word("JsValue"@)]
}

/// `::core::convert::` and the name of a conversion trait.
pub open spec fn conversion_trait_path(name: Seq<char>) -> Seq<Token> {
    path_separator() + seq![word("core"@)] + path_separator() + seq![word("convert"@)]
        + path_separator() + seq![word(name)]
}

/// The words that the generated code is written with are identifiers, and the name of the
/// calling convention is plain text.
pub(crate) proof fn lemma_fixed_words()
    ensures
        is_identifier("automatically_derived"@),
        is_identifier("impl"@),
        is_identifier("core"@),
        is_identifier("convert"@),
        is_identifier("From"@),
        is_identifier("Into"@),
        is_identifier("wasm_bindgen"@),
        is_identifier("JsValue"@),
        is_identifier("for"@),
        is_identifier("fn"@),
        is_identifier("from"@),
        is_identifier("into"@),
        is_identifier("value"@),
        is_identifier("Self"@),
        is_identifier("self"@),
        is_identifier("use"@),
        is_identifier("prelude"@),
        is_identifier("extern"@),
        is_identifier("type"@),
        is_identifier("this"@),
        is_identifier("method"@),
        is_identifier("getter"@),
        is_identifier("setter"@),
        is_identifier("constructor"@),
        is_identifier("new"@),
        is_identifier("let"@),
        is_identifier("imported"@),
        is_identifier("unchecked_ref"@),
        is_plain_text("C"@),
{
    reveal_strlit("automatically_derived");
    reveal_strlit("impl");
    reveal_strlit("core");
    reveal_strlit("convert");
    reveal_strlit("From");
    reveal_strlit("Into");
    reveal_strlit("wasm_bindgen");
    reveal_strlit("JsValue");
    reveal_strlit("for");
    reveal_strlit("fn");
    reveal_strlit("from");
    reveal_strlit("into");
    reveal_strlit("value");
    reveal_strlit("Self");
    reveal_strlit("self");
    reveal_strlit("use");
    reveal_strlit("prelude");
    reveal_strlit("extern");
    reveal_strlit("type");
    reveal_strlit("this");
    reveal_strlit("method");
    reveal_strlit("getter");
    reveal_strlit("setter");
    reveal_strlit("constructor");
    reveal_strlit("new");
    reveal_strlit("let");
    reveal_strlit("imported");
    reveal_strlit("unchecked_ref");
    reveal_strlit("C");
}

/// Appends a word of the generated code, attributed to the place where the generator was
/// called.
pub(crate) fn push_word(ts: &mut TokenStream, text: &str)
    requires
        is_identifier(text@),
    ensures
        stream_tokens(*final(ts)) == stream_tokens(*old(ts)).push(word(text@)),
{
    push_ident(ts, text, call_site());
}

/// Appends a name, as it is written, attributed to its own place.
pub(crate) fn push_name(ts: &mut TokenStream, name: &Identifier)
    ensures
        stream_tokens(*final(ts)) == stream_tokens(*old(ts)).push(name_word(name@)),
{
    let text = name.as_str();
    if name.is_raw() {
        push_raw_ident(ts, text, name.span());
    } else {
        push_ident(ts, text, name.span());
    }
}

/// Appends the punctuation character `ch`, standing alone.
pub(crate) fn push_alone(ts: &mut TokenStream, ch: char)
    requires
        is_punct_char(ch),
    ensures
        stream_tokens(*final(ts)) == stream_tokens(*old(ts)).push(alone(ch)),
{
    push_punct(ts, ch, Spacing::Alone);
}

/// Appends `::`.
pub(crate) fn push_path_separator(ts: &mut TokenStream)
    ensures
        stream_tokens(*final(ts)) == stream_tokens(*old(ts)) + path_separator(),
{
    let ghost before = stream_tokens(*ts);
    push_punct(ts, ':', Spacing::Joint);
    push_punct(ts, ':', Spacing::Alone);
    assert(stream_tokens(*ts) =~= before + path_separator());
}

/// Appends `->`.
pub(crate) fn push_arrow(ts: &mut TokenStream)
    ensures
        stream_tokens(*final(ts)) == stream_tokens(*old(ts)) + arrow(),
{
    let ghost before = stream_tokens(*ts);
    push_punct(ts, '-', Spacing::Joint);
    push_punct(ts, '>', Spacing::Alone);
    assert(stream_tokens(*ts) =~= before + arrow());
}

/// Appends `( inner )`.
pub(crate) fn push_parenthesized(ts: &mut TokenStream, inner: TokenStream)
    ensures
        stream_tokens(*final(ts)) == stream_tokens(*old(ts)).push(
            parenthesized(stream_tokens(inner)),
        ),
{
    push_group(ts, Delimiter::Parenthesis, inner);
}

/// Appends `{ inner }`.
pub(crate) fn push_braced(ts: &mut TokenStream, inner: TokenStream)
    ensures
        stream_tokens(*final(ts)) == stream_tokens(*old(ts)).push(braced(stream_tokens(inner))),
{
    push_group(ts, Delimiter::Brace, inner);
}

/// Appends `#[ inner ]`.
pub(crate) fn push_attribute(ts: &mut TokenStream, inner: TokenStream)
    ensures
        stream_tokens(*final(ts)) == stream_tokens(*old(ts)) + attribute(stream_tokens(inner)),
{
    let ghost before = stream_tokens(*ts);
    push_punct(ts, '#', Spacing::Alone);
    push_group(ts, Delimiter::Bracket, inner);
    assert(stream_tokens(*ts) =~= before + attribute(stream_tokens(inner)));
}

/// Appends `#[wasm_bindgen( arguments )]`.
pub(crate) fn push_binding_attribute(ts: &mut TokenStream, arguments: TokenStream)
    ensures
        stream_tokens(*final(ts)) == stream_tokens(*old(ts)) + binding_attribute(
            stream_tokens(arguments),
        ),
{
    proof {
        lemma_fixed_words();
    }
    let mut inner = new_stream();
    push_word(&mut inner, "wasm_bindgen");
    push_group(&mut inner, Delimiter::Parenthesis, arguments);
    assert(stream_tokens(inner) =~= seq![
        word("wasm_bindgen"@),
        parenthesized(stream_tokens(arguments)),
    ]);
    push_attribute(ts, inner);
}

/// Appends `::wasm_bindgen::JsValue`.
pub(crate) fn push_js_value_path(ts: &mut TokenStream)
    ensures
        stream_tokens(*final(ts)) == stream_tokens(*old(ts)) + js_value_path(),
{
    proof {
        lemma_fixed_words();
    }
    let ghost before = stream_tokens(*ts);
    push_path_separator(ts);
    push_word(ts, "wasm_bindgen");
    push_path_separator(ts);
    push_word(ts, "JsValue");
    assert(stream_tokens(*ts) =~= before + js_value_path());
}

/// Appends `::core::convert::` and `name`.
pub(crate) fn push_conversion_trait_path(ts: &mut TokenStream, name: &str)
    requires
        is_identifier(name@),
    ensures
        stream_tokens(*final(ts)) == stream_tokens(*old(ts)) + conversion_trait_path(name@),
{
    proof {
        lemma_fixed_words();
    }
    let ghost before = stream_tokens(*ts);
    push_path_separator(ts);
    push_word(ts, "core");
    push_path_separator(ts);
    push_word(ts, "convert");
    push_path_separator(ts);
    push_word(ts, name);
    assert(stream_tokens(*ts) =~= before + conversion_trait_path(name@));
}

} // verus!
