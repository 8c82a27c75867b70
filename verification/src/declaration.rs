//! Type declarations as they are handed to the generator, and the shapes it refuses.

use crate::ident::{Identifier, Name};
use crate::tokens::{stream_tokens, Token};
use proc_macro2::TokenStream;
use vstd::prelude::*;

verus! {

/// A named field: its name and its type, the type as the tokens that were written for it.
///
/// The generator never looks into the type. It hands the tokens on as they are.
#[derive(Debug)]
pub struct Field {
    pub ident: Identifier,
    pub ty: TokenStream,
}

/// What a field is to the specifications: its name and the tokens of its type.
pub struct FieldView {
    pub name: Name,
    pub ty: Seq<Token>,
}

impl View for Field {
    type V = FieldView;

    open spec fn view(&self) -> FieldView {
        FieldView { name: self.ident@, ty: stream_tokens(self.ty) }
    }
}

/// No two fields have the same name, however the names are written.
pub open spec fn distinct_names(fields: Seq<FieldView>) -> bool {
    forall|i: int, j: int|
        0 <= i < j < fields.len() ==> (#[trigger] fields[i]).name.text != (
        #[trigger] fields[j]).name.text
}

/// Every field's name is well formed.
pub open spec fn well_formed_names(fields: Seq<FieldView>) -> bool {
    forall|i: int| 0 <= i < fields.len() ==> (#[trigger] fields[i]).name.wf()
}

/// What a list of fields is to the specifications.
pub open spec fn field_views(fields: Seq<Field>) -> Seq<FieldView> {
    fields.map_values(|f: Field| f@)
}

/// The named fields of a declaration, in the order in which they were declared.
///
/// No two fields of one list have the same name.
#[derive(Debug)]
pub struct NamedFields {
    items: Vec<Field>,
}

impl View for NamedFields {
    type V = Seq<FieldView>;

    closed spec fn view(&self) -> Seq<FieldView> {
        field_views(self.items@)
    }
}

impl NamedFields {
    #[verifier::type_invariant]
    pub(crate) open spec fn well_formed(self) -> bool {
        distinct_names(self@) && well_formed_names(self@)
    }

    /// Takes the fields in the order given, if no two of them have the same name, and
    /// refuses them otherwise.
    pub fn new(fields: Vec<Field>) -> (list: Option<NamedFields>)
        ensures
            list is Some <==> distinct_names(field_views(fields@)),
            list matches Some(named) ==> named@ == field_views(fields@),
    {
        let ghost views = field_views(fields@);
        let n: usize = fields.len();
        let mut j: usize = 0;
        while j < n
            invariant
                j <= n,
                n == fields@.len(),
                views == field_views(fields@),
                forall|a: int, b: int|
                    0 <= a < b < j ==> (#[trigger] views[a]).name.text != (
                    #[trigger] views[b]).name.text,
                forall|a: int| 0 <= a < j ==> (#[trigger] views[a]).name.wf(),
            decreases n - j,
        {
            let mut i: usize = 0;
            while i < j
                invariant
                    i <= j < n,
                    n == fields@.len(),
                    views == field_views(fields@),
                    forall|a: int|
                        0 <= a < i ==> (#[trigger] views[a]).name.text != views[j as int].name.text,
                decreases j - i,
            {
                if fields[i].ident.same_name(&fields[j].ident) {
                    assert(views[i as int].name.text == views[j as int].name.text);
                    return None;
                }
                i = i + 1;
            }
            let field = &fields[j];
            proof {
                use_type_invariant(&field.ident);
            }
            assert(views[j as int].name.wf());
            j = j + 1;
        }
        Some(NamedFields { items: fields })
    }

    /// The number of fields. Of every list it holds that the names are well formed and
    /// that no two of them are the same.
    pub fn len(&self) -> (n: usize)
        ensures
            n == self@.len(),
            distinct_names(self@),
            well_formed_names(self@),
    {
        proof {
            use_type_invariant(self);
        }
        self.items.len()
    }

    /// The field at position `index`, counted from zero.
    pub fn get(&self, index: usize) -> (field: &Field)
        requires
            index < self@.len(),
        ensures
            field@ == self@[index as int],
            field@.name.wf(),
    {
        proof {
            use_type_invariant(self);
            assert(self@[index as int].name.wf());
        }
        &self.items[index]
    }
}

/// The fields of a product type.
#[derive(Debug)]
pub enum Fields {
    /// Fields with names, between braces.
    Named(NamedFields),
    /// Fields without names, told apart by their position.
    Unnamed,
    /// No field list at all.
    Unit,
}

/// What kind of type a declaration introduces.
#[derive(Debug)]
pub enum DeclarationKind {
    /// A product type: every value has all the fields.
    Struct(Fields),
    /// A type of alternatives: every value is one of several variants.
    Enum,
    /// A type whose fields lie over one another.
    Union,
}

impl DeclarationKind {
    /// The reason for which a declaration of this kind is refused, if it is.
    pub fn refusal(&self) -> (reason: Option<UnsupportedShape>)
        ensures
            reason == shape_error(*self),
    {
        match self {
            DeclarationKind::Enum => Some(UnsupportedShape::AlternativeType),
            DeclarationKind::Union => Some(UnsupportedShape::OverlappingFields),
            DeclarationKind::Struct(Fields::Unnamed) => Some(UnsupportedShape::PositionalFields),
            DeclarationKind::Struct(Fields::Unit) => Some(UnsupportedShape::NoFields),
            DeclarationKind::Struct(Fields::Named(fields)) => {
                if fields.len() == 0 {
                    Some(UnsupportedShape::NoFields)
                } else {
                    None
                }
            },
        }
    }
}

/// A type declaration: the type's name and its shape.
#[derive(Debug)]
pub struct Declaration {
    pub ident: Identifier,
    pub kind: DeclarationKind,
}

/// Why a declaration is refused.
#[derive(Clone, Copy, Debug, PartialEq, Eq, Structural)]
pub enum UnsupportedShape {
    /// The type has alternative variants.
    AlternativeType,
    /// The fields have no names.
    PositionalFields,
    /// There is no field.
    NoFields,
    /// The fields lie over one another.
    OverlappingFields,
}

/// The part of a declaration that a diagnostic points at.
#[derive(Clone, Copy, Debug, PartialEq, Eq, Structural)]
pub enum Anchor {
    /// The keyword that introduces the type.
    Keyword,
    /// The list of fields.
    FieldList,
    /// The declaration as a whole.
    WholeDeclaration,
}

impl UnsupportedShape {
    /// The text of the diagnostic.
    pub open spec fn message_text(self) -> Seq<char> {
        match self {
            UnsupportedShape::AlternativeType => "cannot derive for enums"@,
            UnsupportedShape::PositionalFields => "cannot derive for tuple structs"@,
            UnsupportedShape::NoFields => "cannot derive for unit structs"@,
            UnsupportedShape::OverlappingFields => "cannot derive for unions"@,
        }
    }

    /// The part of the declaration that the diagnostic points at.
    pub open spec fn anchor_of(self) -> Anchor {
        match self {
            UnsupportedShape::AlternativeType => Anchor::Keyword,
            UnsupportedShape::OverlappingFields => Anchor::Keyword,
            UnsupportedShape::PositionalFields => Anchor::FieldList,
            UnsupportedShape::NoFields => Anchor::WholeDeclaration,
        }
    }

    /// The text of the diagnostic.
    pub fn message(&self) -> (text: &'static str)
        ensures
            text@ == self.message_text(),
    {
        match self {
            UnsupportedShape::AlternativeType => "cannot derive for enums",
            UnsupportedShape::PositionalFields => "cannot derive for tuple structs",
            UnsupportedShape::NoFields => "cannot derive for unit structs",
            UnsupportedShape::OverlappingFields => "cannot derive for unions",
        }
    }

    /// The part of the declaration that the diagnostic points at.
    pub fn anchor(&self) -> (anchor: Anchor)
        ensures
            anchor == self.anchor_of(),
    {
        match self {
            UnsupportedShape::AlternativeType => Anchor::Keyword,
            UnsupportedShape::OverlappingFields => Anchor::Keyword,
            UnsupportedShape::PositionalFields => Anchor::FieldList,
            UnsupportedShape::NoFields => Anchor::WholeDeclaration,
        }
    }
}

/// The named fields of a declaration, or none where it has no such list.
pub open spec fn declared_fields(kind: DeclarationKind) -> Seq<FieldView> {
    match kind {
        DeclarationKind::Struct(Fields::Named(fields)) => fields@,
        _ => Seq::empty(),
    }
}

/// The reason for which a declaration of this kind is refused, if it is.
///
/// A type of alternatives and a type of overlapping fields are refused whatever their
/// fields are. A product type is refused for fields without names, and for having no
/// field: with no field list, or with an empty one.
pub open spec fn shape_error(kind: DeclarationKind) -> Option<UnsupportedShape> {
    match kind {
        DeclarationKind::Enum => Some(UnsupportedShape::AlternativeType),
        DeclarationKind::Union => Some(UnsupportedShape::OverlappingFields),
        DeclarationKind::Struct(Fields::Unnamed) => Some(UnsupportedShape::PositionalFields),
        DeclarationKind::Struct(Fields::Unit) => Some(UnsupportedShape::NoFields),
        DeclarationKind::Struct(Fields::Named(fields)) => if fields@.len() == 0 {
            Some(UnsupportedShape::NoFields)
        } else {
            None
        },
    }
}

} // verus!
