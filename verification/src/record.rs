//! The validated record and the code that is generated for it.

use crate::declaration::{
    declared_fields, shape_error, Declaration, DeclarationKind, Field, Fields, NamedFields,
    UnsupportedShape,
};
use crate::ident::{
    getter_ident, getter_name, imported_ident, imported_name, setter_ident, setter_name,
    Identifier, Name,
};
use crate::surface::{
    constructor_declaration, derived, extern_block, from_body, from_impl, getter_declaration,
    getter_declarations, getters, initializer, initializer_list, initializers, into_body,
    into_impl, setter_call, setter_call_list, setter_calls, setter_declaration,
    setter_declarations, setters, RecordView,
};
use crate::syntax::{
    alone, arrow, attribute, braced, conversion_trait_path, js_value_path, lemma_fixed_words,
    name_word, parenthesized, push_alone, push_arrow, push_attribute, push_binding_attribute,
    push_braced, push_conversion_trait_path, push_js_value_path, push_name, push_parenthesized,
    push_path_separator, push_word, word,
};
use crate::tokens::{is_identifier, new_stream, push_stream, push_string, stream_tokens, Token};
use proc_macro2::TokenStream;
use vstd::prelude::*;

verus! {

/// A record that code can be generated for: a product type with named fields, at least one
/// of them, together with the name of the external type that is bound to it.
#[derive(Debug)]
pub struct RustType {
    ident: Identifier,
    fields: NamedFields,
    imported: Identifier,
}

impl View for RustType {
    type V = RecordView;

    closed spec fn view(&self) -> RecordView {
        RecordView { name: self.ident@, fields: self.fields@, imported: self.imported@ }
    }
}

/// The accessors of one field: the field's name, the name of its getter and the name of
/// its setter.
#[derive(Debug)]
pub struct Accessor {
    pub field: Identifier,
    pub getter: Identifier,
    pub setter: Identifier,
}

/// What the accessors of a field are to the specifications.
pub struct AccessorView {
    pub field: Name,
    pub getter: Name,
    pub setter: Name,
}

impl View for Accessor {
    type V = AccessorView;

    open spec fn view(&self) -> AccessorView {
        AccessorView { field: self.field@, getter: self.getter@, setter: self.setter@ }
    }
}

/// The accessors of the field called `field`: the getter is called like the field, the
/// setter `set_` and the field's name.
pub open spec fn accessor_of(field: Name) -> AccessorView {
    AccessorView { field, getter: getter_name(field), setter: setter_name(field) }
}

/// The record that a declaration stands for, where its shape is accepted.
pub open spec fn record_of(input: Declaration) -> RecordView {
    RecordView {
        name: input.ident@,
        fields: declared_fields(input.kind),
        imported: imported_name(input.ident@),
    }
}

/// The blocks up to and with the one at `i`, run together, are the blocks before it, run
/// together, followed by the block at `i`.
proof fn lemma_flatten_step<A>(blocks: Seq<Seq<A>>, i: int)
    requires
        0 <= i < blocks.len(),
    ensures
        blocks.take(i + 1).flatten() == blocks.take(i).flatten() + blocks[i],
        blocks.take(0).flatten() == Seq::<A>::empty(),
        blocks.take(blocks.len() as int) == blocks,
{
    assert(blocks.take(i + 1) =~= blocks.take(i).push(blocks[i]));
    blocks.take(i).lemma_flatten_push(blocks[i]);
    assert(blocks.take(0) =~= Seq::<Seq<A>>::empty());
    assert(blocks.take(blocks.len() as int) =~= blocks);
}

/// Appends the getter of `field` on the external type `imported`.
fn push_getter_declaration(ts: &mut TokenStream, imported: &Identifier, field: &Field)
    ensures
        stream_tokens(*final(ts)) == stream_tokens(*old(ts)) + getter_declaration(
            imported@,
            field@,
        ),
{
    proof {
        lemma_fixed_words();
    }
    let ghost before = stream_tokens(*ts);
    let mut arguments = new_stream();
    push_word(&mut arguments, "method");
    push_alone(&mut arguments, ',');
    push_word(&mut arguments, "getter");
    assert(stream_tokens(arguments) =~= seq![word("method"@), alone(','), word("getter"@)]);
    push_binding_attribute(ts, arguments);
    push_word(ts, "fn");
    push_name(ts, &field.ident);
    let mut receiver = new_stream();
    push_word(&mut receiver, "this");
    push_alone(&mut receiver, ':');
    push_alone(&mut receiver, '&');
    push_name(&mut receiver, imported);
    assert(stream_tokens(receiver) =~= seq![
        word("this"@),
        alone(':'),
        alone('&'),
        name_word(imported@),
    ]);
    push_parenthesized(ts, receiver);
    push_arrow(ts);
    push_stream(ts, &field.ty);
    push_alone(ts, ';');
    assert(stream_tokens(*ts) =~= before + getter_declaration(imported@, field@));
}

/// Appends the setter of `field` on the external type `imported`.
fn push_setter_declaration(ts: &mut TokenStream, imported: &Identifier, field: &Field)
    ensures
        stream_tokens(*final(ts)) == stream_tokens(*old(ts)) + setter_declaration(
            imported@,
            field@,
        ),
{
    proof {
        lemma_fixed_words();
    }
    let ghost before = stream_tokens(*ts);
    let ident = setter_ident(&field.ident);
    let mut arguments = new_stream();
    push_word(&mut arguments, "method");
    push_alone(&mut arguments, ',');
    push_word(&mut arguments, "setter");
    assert(stream_tokens(arguments) =~= seq![word("method"@), alone(','), word("setter"@)]);
    push_binding_attribute(ts, arguments);
    push_word(ts, "fn");
    push_name(ts, &ident);
    let mut parameters = new_stream();
    push_word(&mut parameters, "this");
    push_alone(&mut parameters, ':');
    push_alone(&mut parameters, '&');
    push_name(&mut parameters, imported);
    push_alone(&mut parameters, ',');
    push_word(&mut parameters, "value");
    push_alone(&mut parameters, ':');
    push_stream(&mut parameters, &field.ty);
    assert(stream_tokens(parameters) =~= seq![
        word("this"@),
        alone(':'),
        alone('&'),
        name_word(imported@),
        alone(','),
        word("value"@),
        alone(':'),
    ] + field@.ty);
    push_parenthesized(ts, parameters);
    push_alone(ts, ';');
    assert(stream_tokens(*ts) =~= before + setter_declaration(imported@, field@));
}

/// Appends the constructor of the external type `imported`.
fn push_constructor_declaration(ts: &mut TokenStream, imported: &Identifier)
    ensures
        stream_tokens(*final(ts)) == stream_tokens(*old(ts)) + constructor_declaration(imported@),
{
    proof {
        lemma_fixed_words();
    }
    let ghost before = stream_tokens(*ts);
    let mut arguments = new_stream();
    push_word(&mut arguments, "constructor");
    assert(stream_tokens(arguments) =~= seq![word("constructor"@)]);
    push_binding_attribute(ts, arguments);
    push_word(ts, "fn");
    push_word(ts, "new");
    push_parenthesized(ts, new_stream());
    push_arrow(ts);
    push_name(ts, imported);
    push_alone(ts, ';');
    assert(stream_tokens(*ts) =~= before + constructor_declaration(imported@));
}

/// Appends the initializer of `field`.
fn push_initializer(ts: &mut TokenStream, field: &Field)
    ensures
        stream_tokens(*final(ts)) == stream_tokens(*old(ts)) + initializer(field@),
{
    proof {
        lemma_fixed_words();
    }
    let ghost before = stream_tokens(*ts);
    push_name(ts, &field.ident);
    push_alone(ts, ':');
    push_word(ts, "imported");
    push_alone(ts, '.');
    push_name(ts, &field.ident);
    push_parenthesized(ts, new_stream());
    push_alone(ts, ',');
    assert(stream_tokens(*ts) =~= before + initializer(field@));
}

/// Appends the setter call for `field`.
fn push_setter_call(ts: &mut TokenStream, field: &Field)
    ensures
        stream_tokens(*final(ts)) == stream_tokens(*old(ts)) + setter_call(field@),
{
    proof {
        lemma_fixed_words();
    }
    let ghost before = stream_tokens(*ts);
    let setter = setter_ident(&field.ident);
    push_word(ts, "value");
    push_alone(ts, '.');
    push_name(ts, &setter);
    let mut argument = new_stream();
    push_word(&mut argument, "self");
    push_alone(&mut argument, '.');
    push_name(&mut argument, &field.ident);
    assert(stream_tokens(argument) =~= seq![word("self"@), alone('.'), name_word(field@.name)]);
    push_parenthesized(ts, argument);
    push_alone(ts, ';');
    assert(stream_tokens(*ts) =~= before + setter_call(field@));
}

/// Appends `#[automatically_derived] impl ::core::convert::` and the name of a conversion
/// trait.
fn push_impl_header(ts: &mut TokenStream, conversion: &str)
    requires
        is_identifier(conversion@),
    ensures
        stream_tokens(*final(ts)) == stream_tokens(*old(ts)) + attribute(
            seq![word("automatically_derived"@)],
        ) + seq![word("impl"@)] + conversion_trait_path(conversion@),
{
    proof {
        lemma_fixed_words();
    }
    let mut marker = new_stream();
    push_word(&mut marker, "automatically_derived");
    assert(stream_tokens(marker) =~= seq![word("automatically_derived"@)]);
    push_attribute(ts, marker);
    push_word(ts, "impl");
    push_conversion_trait_path(ts, conversion);
}

impl RustType {
    #[verifier::type_invariant]
    spec fn well_formed(self) -> bool {
        self.fields@.len() >= 1 && self.imported@ == imported_name(self.ident@)
    }

    /// Validates the shape of a declaration.
    ///
    /// A product type with named fields, at least one of them, is accepted, and the record
    /// keeps its name and its fields in their order. Every other declaration is refused,
    /// with the reason that [`shape_error`] gives.
    pub fn parse(input: Declaration) -> (parsed: Result<RustType, UnsupportedShape>)
        ensures
            match shape_error(input.kind) {
                Some(reason) => parsed == Err::<RustType, UnsupportedShape>(reason),
                None => parsed matches Ok(record) && record@ == record_of(input) && record@.wf(),
            },
    {
        let Declaration { ident, kind } = input;
        let data = match kind {
            DeclarationKind::Struct(data) => data,
            DeclarationKind::Enum => {
                return Err(UnsupportedShape::AlternativeType);
            },
            DeclarationKind::Union => {
                return Err(UnsupportedShape::OverlappingFields);
            },
        };
        let fields = match data {
            Fields::Named(fields) => fields,
            Fields::Unnamed => {
                return Err(UnsupportedShape::PositionalFields);
            },
            Fields::Unit => {
                return Err(UnsupportedShape::NoFields);
            },
        };
        if fields.len() == 0 {
            return Err(UnsupportedShape::NoFields);
        }
        proof {
            use_type_invariant(&ident);
            use_type_invariant(&fields);
        }
        let imported = imported_ident(&ident);
        Ok(RustType { ident, fields, imported })
    }

    /// Plans the accessors: for each field, in the order of the declaration, its name, the
    /// name of its getter and the name of its setter.
    pub fn accessors(&self) -> (plan: Vec<Accessor>)
        ensures
            plan@.len() == self@.fields.len(),
            forall|i: int|
                0 <= i < plan@.len() ==> (#[trigger] plan@[i])@ == accessor_of(
                    self@.fields[i].name,
                ),
    {
        let mut plan: Vec<Accessor> = Vec::new();
        let n: usize = self.fields.len();
        let mut i: usize = 0;
        while i < n
            invariant
                i <= n,
                n == self.fields@.len(),
                plan@.len() == i,
                forall|j: int|
                    0 <= j < i ==> (#[trigger] plan@[j])@ == accessor_of(self@.fields[j].name),
            decreases n - i,
        {
            let field = self.fields.get(i);
            plan.push(
                Accessor {
                    field: field.ident.clone(),
                    getter: getter_ident(&field.ident),
                    setter: setter_ident(&field.ident),
                },
            );
            i = i + 1;
        }
        plan
    }

    /// Builds the getters of all the fields, in the order of their declaration.
    pub fn build_getters(&self) -> (tokens: TokenStream)
        ensures
            stream_tokens(tokens) == getters(self@),
    {
        let ghost blocks = getter_declarations(self@);
        let mut tokens = new_stream();
        let n: usize = self.fields.len();
        let mut i: usize = 0;
        proof {
            if n > 0 {
                lemma_flatten_step(blocks, 0);
            } else {
                assert(blocks.take(0) =~= Seq::<Seq<Token>>::empty());
            }
        }
        while i < n
            invariant
                i <= n,
                n == self.fields@.len(),
                blocks == getter_declarations(self@),
                stream_tokens(tokens) == blocks.take(i as int).flatten(),
            decreases n - i,
        {
            let field = self.fields.get(i);
            push_getter_declaration(&mut tokens, &self.imported, field);
            proof {
                lemma_flatten_step(blocks, i as int);
            }
            i = i + 1;
        }
        proof {
            assert(blocks.take(n as int) =~= blocks);
        }
        tokens
    }

    /// Builds the setters of all the fields, in the order of their declaration.
    pub fn build_setters(&self) -> (tokens: TokenStream)
        ensures
            stream_tokens(tokens) == setters(self@),
    {
        let ghost blocks = setter_declarations(self@);
        let mut tokens = new_stream();
        let n: usize = self.fields.len();
        let mut i: usize = 0;
        proof {
            if n > 0 {
                lemma_flatten_step(blocks, 0);
            } else {
                assert(blocks.take(0) =~= Seq::<Seq<Token>>::empty());
            }
        }
        while i < n
            invariant
                i <= n,
                n == self.fields@.len(),
                blocks == setter_declarations(self@),
                stream_tokens(tokens) == blocks.take(i as int).flatten(),
            decreases n - i,
        {
            let field = self.fields.get(i);
            push_setter_declaration(&mut tokens, &self.imported, field);
            proof {
                lemma_flatten_step(blocks, i as int);
            }
            i = i + 1;
        }
        proof {
            assert(blocks.take(n as int) =~= blocks);
        }
        tokens
    }

    /// Builds the declaration of the external type with the methods that `methods` returns.
    pub fn build_extern_block<F: Fn() -> TokenStream>(&self, methods: F) -> (tokens: TokenStream)
        requires
            methods.requires(()),
        ensures
            exists|made: TokenStream|
                methods.ensures((), made) && stream_tokens(tokens) == extern_block(
                    self@.imported,
                    stream_tokens(made),
                ),
    {
        proof {
            lemma_fixed_words();
        }
        let made = methods();
        let mut tokens = new_stream();
        push_word(&mut tokens, "use");
        push_path_separator(&mut tokens);
        push_word(&mut tokens, "wasm_bindgen");
        push_path_separator(&mut tokens);
        push_word(&mut tokens, "prelude");
        push_path_separator(&mut tokens);
        push_alone(&mut tokens, '*');
        push_alone(&mut tokens, ';');
        let mut marker = new_stream();
        push_word(&mut marker, "wasm_bindgen");
        assert(stream_tokens(marker) =~= seq![word("wasm_bindgen"@)]);
        push_attribute(&mut tokens, marker);
        push_word(&mut tokens, "extern");
        push_string(&mut tokens, "C");
        let mut block = new_stream();
        push_word(&mut block, "type");
        push_name(&mut block, &self.imported);
        push_alone(&mut block, ';');
        push_stream(&mut block, &made);
        assert(stream_tokens(block) =~= seq![
            word("type"@),
            name_word(self@.imported),
            alone(';'),
        ] + stream_tokens(made));
        push_braced(&mut tokens, block);
        assert(stream_tokens(tokens) =~= extern_block(self@.imported, stream_tokens(made)));
        tokens
    }

    /// Builds the initializers of all the fields, in the order of their declaration.
    fn build_initializers(&self) -> (tokens: TokenStream)
        ensures
            stream_tokens(tokens) == initializers(self@.fields),
    {
        let ghost blocks = initializer_list(self@.fields);
        let mut tokens = new_stream();
        let n: usize = self.fields.len();
        let mut i: usize = 0;
        proof {
            if n > 0 {
                lemma_flatten_step(blocks, 0);
            } else {
                assert(blocks.take(0) =~= Seq::<Seq<Token>>::empty());
            }
        }
        while i < n
            invariant
                i <= n,
                n == self.fields@.len(),
                blocks == initializer_list(self@.fields),
                stream_tokens(tokens) == blocks.take(i as int).flatten(),
            decreases n - i,
        {
            push_initializer(&mut tokens, self.fields.get(i));
            proof {
                lemma_flatten_step(blocks, i as int);
            }
            i = i + 1;
        }
        proof {
            assert(blocks.take(n as int) =~= blocks);
        }
        tokens
    }

    /// Appends the setter calls for all the fields, in the order of their declaration.
    fn push_setter_calls(&self, ts: &mut TokenStream)
        ensures
            stream_tokens(*final(ts)) == stream_tokens(*old(ts)) + setter_calls(self@.fields),
    {
        let ghost before = stream_tokens(*ts);
        let ghost blocks = setter_call_list(self@.fields);
        let n: usize = self.fields.len();
        let mut i: usize = 0;
        proof {
            if n > 0 {
                lemma_flatten_step(blocks, 0);
            } else {
                assert(blocks.take(0) =~= Seq::<Seq<Token>>::empty());
            }
            assert(before + Seq::<Token>::empty() =~= before);
        }
        while i < n
            invariant
                i <= n,
                n == self.fields@.len(),
                blocks == setter_call_list(self@.fields),
                stream_tokens(*ts) == before + blocks.take(i as int).flatten(),
            decreases n - i,
        {
            push_setter_call(ts, self.fields.get(i));
            proof {
                lemma_flatten_step(blocks, i as int);
                assert(before + blocks.take(i as int).flatten() + blocks[i as int] =~= before
                    + (blocks.take(i as int).flatten() + blocks[i as int]));
            }
            i = i + 1;
        }
        proof {
            assert(blocks.take(n as int) =~= blocks);
        }
    }

    /// Builds the body of the inbound conversion.
    fn build_from_body(&self) -> (tokens: TokenStream)
        ensures
            stream_tokens(tokens) == from_body(self@),
    {
        proof {
            lemma_fixed_words();
        }
        let methods = || -> (made: TokenStream)
            ensures
                stream_tokens(made) == getters(self@),
            {
                let made = self.build_getters();
                made
            };
        let mut tokens = self.build_extern_block(methods);
        push_word(&mut tokens, "let");
        push_word(&mut tokens, "imported");
        push_alone(&mut tokens, ':');
        push_alone(&mut tokens, '&');
        push_name(&mut tokens, &self.imported);
        push_alone(&mut tokens, '=');
        push_js_value_path(&mut tokens);
        push_path_separator(&mut tokens);
        push_word(&mut tokens, "unchecked_ref");
        let mut argument = new_stream();
        push_word(&mut argument, "value");
        assert(stream_tokens(argument) =~= seq![word("value"@)]);
        push_parenthesized(&mut tokens, argument);
        push_alone(&mut tokens, ';');
        push_name(&mut tokens, &self.ident);
        push_braced(&mut tokens, self.build_initializers());
        assert(stream_tokens(tokens) =~= from_body(self@));
        tokens
    }

    /// Generates the inbound conversion: from a reference to a dynamic handle to the
    /// record, each field read by its getter in the order of the declaration.
    pub fn gen_from_impl(&self) -> (tokens: TokenStream)
        ensures
            stream_tokens(tokens) == from_impl(self@),
    {
        proof {
            lemma_fixed_words();
        }
        let mut parameter = new_stream();
        push_word(&mut parameter, "value");
        push_alone(&mut parameter, ':');
        push_alone(&mut parameter, '&');
        push_js_value_path(&mut parameter);
        assert(stream_tokens(parameter) =~= seq![word("value"@), alone(':'), alone('&')]
            + js_value_path());

        let mut function = new_stream();
        push_word(&mut function, "fn");
        push_word(&mut function, "from");
        push_parenthesized(&mut function, parameter);
        push_arrow(&mut function);
        push_word(&mut function, "Self");
        push_braced(&mut function, self.build_from_body());
        assert(stream_tokens(function) =~= seq![
            word("fn"@),
            word("from"@),
            parenthesized(seq![word("value"@), alone(':'), alone('&')] + js_value_path()),
        ] + arrow() + seq![word("Self"@), braced(from_body(self@))]);

        let mut tokens = new_stream();
        push_impl_header(&mut tokens, "From");
        push_alone(&mut tokens, '<');
        push_alone(&mut tokens, '&');
        push_js_value_path(&mut tokens);
        push_alone(&mut tokens, '>');
        push_word(&mut tokens, "for");
        push_name(&mut tokens, &self.ident);
        push_braced(&mut tokens, function);
        assert(stream_tokens(tokens) =~= from_impl(self@));
        tokens
    }

    /// Builds the body of the outbound conversion.
    fn build_into_body(&self) -> (tokens: TokenStream)
        ensures
            stream_tokens(tokens) == into_body(self@),
    {
        proof {
            lemma_fixed_words();
        }
        let methods = || -> (made: TokenStream)
            ensures
                stream_tokens(made) == constructor_declaration(self@.imported) + setters(self@),
            {
                let mut made = new_stream();
                push_constructor_declaration(&mut made, &self.imported);
                push_stream(&mut made, &self.build_setters());
                assert(stream_tokens(made) =~= constructor_declaration(self@.imported) + setters(
                    self@,
                ));
                made
            };
        let mut tokens = self.build_extern_block(methods);
        push_word(&mut tokens, "let");
        push_word(&mut tokens, "value");
        push_alone(&mut tokens, '=');
        push_name(&mut tokens, &self.imported);
        push_path_separator(&mut tokens);
        push_word(&mut tokens, "new");
        push_parenthesized(&mut tokens, new_stream());
        push_alone(&mut tokens, ';');
        self.push_setter_calls(&mut tokens);
        push_js_value_path(&mut tokens);
        push_path_separator(&mut tokens);
        push_word(&mut tokens, "from");
        let mut argument = new_stream();
        push_word(&mut argument, "value");
        assert(stream_tokens(argument) =~= seq![word("value"@)]);
        push_parenthesized(&mut tokens, argument);
        assert(stream_tokens(tokens) =~= into_body(self@));
        tokens
    }

    /// Generates the outbound conversion: from the record into a dynamic handle, each
    /// field written by its setter in the order of the declaration.
    pub fn gen_into_impl(&self) -> (tokens: TokenStream)
        ensures
            stream_tokens(tokens) == into_impl(self@),
    {
        proof {
            lemma_fixed_words();
        }
        let mut parameter = new_stream();
        push_word(&mut parameter, "self");
        assert(stream_tokens(parameter) =~= seq![word("self"@)]);

        let mut function = new_stream();
        push_word(&mut function, "fn");
        push_word(&mut function, "into");
        push_parenthesized(&mut function, parameter);
        push_arrow(&mut function);
        push_js_value_path(&mut function);
        push_braced(&mut function, self.build_into_body());
        assert(stream_tokens(function) =~= seq![
            word("fn"@),
            word("into"@),
            parenthesized(seq![word("self"@)]),
        ] + arrow() + js_value_path() + seq![braced(into_body(self@))]);

        let mut tokens = new_stream();
        push_impl_header(&mut tokens, "Into");
        push_alone(&mut tokens, '<');
        push_js_value_path(&mut tokens);
        push_alone(&mut tokens, '>');
        push_word(&mut tokens, "for");
        push_name(&mut tokens, &self.ident);
        push_braced(&mut tokens, function);
        assert(stream_tokens(tokens) =~= into_impl(self@));
        tokens
    }

    /// Appends all that is generated for the record: the inbound conversion, then the
    /// outbound one.
    pub fn to_tokens(&self, tokens: &mut TokenStream)
        ensures
            stream_tokens(*final(tokens)) == stream_tokens(*old(tokens)) + derived(self@),
    {
        let ghost before = stream_tokens(*tokens);
        push_stream(tokens, &self.gen_from_impl());
        push_stream(tokens, &self.gen_into_impl());
        assert(stream_tokens(*tokens) =~= before + derived(self@));
    }

    /// The name of the record.
    pub fn ident(&self) -> (ident: &Identifier)
        ensures
            ident@ == self@.name,
            self@.wf(),
    {
        proof {
            use_type_invariant(self);
            use_type_invariant(&self.ident);
            use_type_invariant(&self.fields);
        }
        &self.ident
    }

    /// The fields of the record, in the order of their declaration.
    pub fn fields(&self) -> (fields: &NamedFields)
        ensures
            fields@ == self@.fields,
            self@.wf(),
    {
        proof {
            use_type_invariant(self);
            use_type_invariant(&self.ident);
            use_type_invariant(&self.fields);
        }
        &self.fields
    }

    /// The name of the external type that is bound to the record.
    pub fn imported(&self) -> (imported: &Identifier)
        ensures
            imported@ == self@.imported,
            self@.wf(),
    {
        proof {
            use_type_invariant(self);
            use_type_invariant(&self.ident);
            use_type_invariant(&self.fields);
        }
        &self.imported
    }
}

} // verus!
