//! What is generated for a record, token by token.
//!
//! For a record `R` with the fields `f: T` an external type `ImportedR` is declared, with a
//! getter `f` and a setter `set_f` for each field and a constructor `new`, and `R` gets two
//! conversions: from a reference to a dynamic handle, and into a dynamic handle. Every
//! spec function of this module is one part of that text. The executable functions of
//! [`RustType`](crate::record::RustType) are proved to build exactly these token sequences.

use crate::declaration::{distinct_names, well_formed_names, FieldView};
use crate::ident::{getter_name, imported_name, setter_name, Name};
use crate::syntax::{
    alone, arrow, attribute, binding_attribute, braced, conversion_trait_path, js_value_path,
    name_word, parenthesized, path_separator, word,
};
use crate::tokens::{quoted, Token};
use vstd::prelude::*;

verus! {

/// A validated record: its name, its fields in the order of their declaration, and the
/// name of the external type that is bound to it.
pub struct RecordView {
    pub name: Name,
    pub fields: Seq<FieldView>,
    pub imported: Name,
}

impl RecordView {
    /// What holds of every validated record: it has a field, its name and the names of its
    /// fields are well formed, no two fields have the same name, and the external type is
    /// named after the record.
    pub open spec fn wf(self) -> bool {
        &&& self.name.wf()
        &&& self.fields.len() >= 1
        &&& well_formed_names(self.fields)
        &&& distinct_names(self.fields)
        &&& self.imported == imported_name(self.name)
    }
}

/// `#[wasm_bindgen(method, getter)] fn f(this: &ImportedR) -> T;`
///
/// The getter of a field: it reads the property called like the field from an instance of
/// the external type, and returns it as the field's type.
pub open spec fn getter_declaration(imported: Name, field: FieldView) -> Seq<Token> {
    binding_attribute(seq![word("method"@), alone(','), word("getter"@)]) + seq![
        word("fn"@),
        name_word(getter_name(field.name)),
        parenthesized(seq![word("this"@), alone(':'), alone('&'), name_word(imported)]),
    ] + arrow() + field.ty + seq![alone(';')]
}

/// `#[wasm_bindgen(method, setter)] fn set_f(this: &ImportedR, value: T);`
///
/// The setter of a field: it takes a value of the field's type and writes it to the
/// property called like the field on an instance of the external type.
pub open spec fn setter_declaration(imported: Name, field: FieldView) -> Seq<Token> {
    binding_attribute(seq![word("method"@), alone(','), word("setter"@)]) + seq![
        word("fn"@),
        name_word(setter_name(field.name)),
        parenthesized(
            seq![
                word("this"@),
                alone(':'),
                alone('&'),
                name_word(imported),
                alone(','),
                word("value"@),
                alone(':'),
            ] + field.ty,
        ),
        alone(';'),
    ]
}

/// `#[wasm_bindgen(constructor)] fn new() -> ImportedR;`
///
/// The constructor of the external type: it takes nothing and returns a fresh instance.
pub open spec fn constructor_declaration(imported: Name) -> Seq<Token> {
    binding_attribute(seq![word("constructor"@)]) + seq![
        word("fn"@),
        word("new"@),
        parenthesized(Seq::empty()),
    ] + arrow() + seq![name_word(imported), alone(';')]
}

/// The getter of each field, in the order of their declaration.
pub open spec fn getter_declarations(record: RecordView) -> Seq<Seq<Token>> {
    record.fields.map_values(|f: FieldView| getter_declaration(record.imported, f))
}

/// The getters of all the fields, one after the other in the order of their declaration.
pub open spec fn getters(record: RecordView) -> Seq<Token> {
    getter_declarations(record).flatten()
}

/// The setter of each field, in the order of their declaration.
pub open spec fn setter_declarations(record: RecordView) -> Seq<Seq<Token>> {
    record.fields.map_values(|f: FieldView| setter_declaration(record.imported, f))
}

/// The setters of all the fields, one after the other in the order of their declaration.
pub open spec fn setters(record: RecordView) -> Seq<Token> {
    setter_declarations(record).flatten()
}

/// `use ::wasm_bindgen::prelude::*; #[wasm_bindgen] extern "C" { type ImportedR; methods }`
///
/// The declaration of the external type and of the `methods` on it.
pub open spec fn extern_block(imported: Name, methods: Seq<Token>) -> Seq<Token> {
    seq![word("use"@)] + path_separator() + seq![word("wasm_bindgen"@)] + path_separator()
        + seq![word("prelude"@)] + path_separator() + seq![alone('*'), alone(';')] + attribute(
        seq![word("wasm_bindgen"@)],
    ) + seq![
        word("extern"@),
        Token::Literal(quoted("C"@)),
        braced(seq![word("type"@), name_word(imported), alone(';')] + methods),
    ]
}

/// `f: imported.f(),`
///
/// One field of the record that the inbound conversion returns: the value that the
/// field's getter reads from the external object.
pub open spec fn initializer(field: FieldView) -> Seq<Token> {
    seq![
        name_word(field.name),
        alone(':'),
        word("imported"@),
        alone('.'),
        name_word(getter_name(field.name)),
        parenthesized(Seq::empty()),
        alone(','),
    ]
}

/// The number of tokens of one [`initializer`].
pub open spec fn initializer_len() -> nat {
    7
}

/// The initializer of each field, in the order of their declaration.
pub open spec fn initializer_list(fields: Seq<FieldView>) -> Seq<Seq<Token>> {
    fields.map_values(|f: FieldView| initializer(f))
}

/// The initializers of all the fields, one after the other in the order of their
/// declaration.
pub open spec fn initializers(fields: Seq<FieldView>) -> Seq<Token> {
    initializer_list(fields).flatten()
}

/// `value.set_f(self.f);`
///
/// One step of the outbound conversion: the field's setter is called on the external
/// object with the record's value of the field.
pub open spec fn setter_call(field: FieldView) -> Seq<Token> {
    seq![
        word("value"@),
        alone('.'),
        name_word(setter_name(field.name)),
        parenthesized(seq![word("self"@), alone('.'), name_word(field.name)]),
        alone(';'),
    ]
}

/// The number of tokens of one [`setter_call`].
pub open spec fn setter_call_len() -> nat {
    5
}

/// The setter call for each field, in the order of their declaration.
pub open spec fn setter_call_list(fields: Seq<FieldView>) -> Seq<Seq<Token>> {
    fields.map_values(|f: FieldView| setter_call(f))
}

/// The setter calls for all the fields, one after the other in the order of their
/// declaration.
pub open spec fn setter_calls(fields: Seq<FieldView>) -> Seq<Token> {
    setter_call_list(fields).flatten()
}

/// The body of the inbound conversion: the external type with its getters; the handle
/// `value` taken as a reference to that type, unchecked; and the record, each field read
/// by its getter.
///
/// ```text
/// use ::wasm_bindgen::prelude::*;
/// #[wasm_bindgen] extern "C" { type ImportedR; getters }
/// let imported: &ImportedR = ::wasm_bindgen::JsValue::unchecked_ref(value);
/// R { initializers }
/// ```
pub open spec fn from_body(record: RecordView) -> Seq<Token> {
    extern_block(record.imported, getters(record)) + seq![
        word("let"@),
        word("imported"@),
        alone(':'),
        alone('&'),
        name_word(record.imported),
        alone('='),
    ] + js_value_path() + path_separator() + seq![
        word("unchecked_ref"@),
        parenthesized(seq![word("value"@)]),
        alone(';'),
        name_word(record.name),
        braced(initializers(record.fields)),
    ]
}

/// The inbound conversion, from a reference to a dynamic handle to the record.
///
/// ```text
/// #[automatically_derived]
/// impl ::core::convert::From<&::wasm_bindgen::JsValue> for R {
///     fn from(value: &::wasm_bindgen::JsValue) -> Self { body }
/// }
/// ```
pub open spec fn from_impl(record: RecordView) -> Seq<Token> {
    attribute(seq![word("automatically_derived"@)]) + seq![word("impl"@)]
        + conversion_trait_path("From"@) + seq![alone('<'), alone('&')] + js_value_path() + seq![
        alone('>'),
        word("for"@),
        name_word(record.name),
        braced(
            seq![
                word("fn"@),
                word("from"@),
                parenthesized(seq![word("value"@), alone(':'), alone('&')] + js_value_path()),
            ] + arrow() + seq![word("Self"@), braced(from_body(record))],
        ),
    ]
}

/// The body of the outbound conversion: the external type with its constructor and its
/// setters; a fresh instance `value`; each field written by its setter; and the instance
/// turned into a dynamic handle.
///
/// ```text
/// use ::wasm_bindgen::prelude::*;
/// #[wasm_bindgen] extern "C" { type ImportedR; constructor setters }
/// let value = ImportedR::new();
/// setter_calls
/// ::wasm_bindgen::JsValue::from(value)
/// ```
pub open spec fn into_body(record: RecordView) -> Seq<Token> {
    extern_block(record.imported, constructor_declaration(record.imported) + setters(record))
        + seq![word("let"@), word("value"@), alone('='), name_word(record.imported)]
        + path_separator() + seq![word("new"@), parenthesized(Seq::empty()), alone(';')]
        + setter_calls(record.fields) + js_value_path() + path_separator() + seq![
        word("from"@),
        parenthesized(seq![word("value"@)]),
    ]
}

/// The outbound conversion, from the record into a dynamic handle.
///
/// ```text
/// #[automatically_derived]
/// impl ::core::convert::Into<::wasm_bindgen::JsValue> for R {
///     fn into(self) -> ::wasm_bindgen::JsValue { body }
/// }
/// ```
pub open spec fn into_impl(record: RecordView) -> Seq<Token> {
    attribute(seq![word("automatically_derived"@)]) + seq![word("impl"@)]
        + conversion_trait_path("Into"@) + seq![alone('<')] + js_value_path() + seq![
        alone('>'),
        word("for"@),
        name_word(record.name),
        braced(
            seq![word("fn"@), word("into"@), parenthesized(seq![word("self"@)])] + arrow()
                + js_value_path() + seq![braced(into_body(record))],
        ),
    ]
}

/// All that is generated for a record: the inbound conversion, then the outbound one.
pub open spec fn derived(record: RecordView) -> Seq<Token> {
    from_impl(record) + into_impl(record)
}

} // verus!
