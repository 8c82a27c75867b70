//! Bindings between records and dynamically typed external objects.
//!
//! From the declaration of a record, a product type with named fields, this library
//! generates the code that carries a value of the record over a foreign-function boundary:
//! the declaration of an external type with a getter and a setter for each field and a
//! constructor, a conversion from a dynamic handle to the record, and a conversion from the
//! record into a dynamic handle.
//!
//! [`from_js_value`] does all of it. The steps are [`RustType::parse`](record::RustType::parse),
//! which validates the shape of the declaration, and the generators of
//! [`RustType`](record::RustType). What is generated is stated token by token in [`surface`],
//! and what the generated conversions do to the fields of a record is stated in [`laws`].

use crate::declaration::{shape_error, Declaration, UnsupportedShape};
use crate::record::{record_of, RustType};
use crate::surface::derived;
use crate::tokens::{new_stream, stream_tokens};
use proc_macro2::TokenStream;
use vstd::prelude::*;

pub mod declaration;
pub mod ident;
pub mod laws;
pub mod record;
pub mod surface;
pub mod syntax;
pub mod tokens;

verus! {

/// Generates the two conversions for a declaration.
///
/// A declaration whose shape is refused gives the reason and no code. Every other
/// declaration gives the inbound conversion followed by the outbound one.
pub fn from_js_value(input: Declaration) -> (generated: Result<TokenStream, UnsupportedShape>)
    ensures
        match shape_error(input.kind) {
            Some(reason) => generated == Err::<TokenStream, UnsupportedShape>(reason),
            None => generated matches Ok(tokens) && stream_tokens(tokens) == derived(
                record_of(input),
            ),
        },
{
    match RustType::parse(input) {
        Ok(record) => {
            let mut tokens = new_stream();
            record.to_tokens(&mut tokens);
            assert(stream_tokens(tokens) =~= derived(record@));
            Ok(tokens)
        },
        Err(reason) => Err(reason),
    }
}

} // verus!
