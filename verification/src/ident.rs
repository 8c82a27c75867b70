//! Identifiers: the names of records and of their fields, and the names derived from them.

use crate::tokens::{
    call_site, is_ident_continue, is_ident_start, is_identifier, is_path_keyword, raw_prefix,
};
use proc_macro2::Span;
use vstd::prelude::*;

verus! {

/// A name, and whether it is written as a raw identifier, with `r#` in front.
pub struct Name {
    pub text: Seq<char>,
    pub raw: bool,
}

impl Name {
    /// The name is an identifier, and one that can be written raw if it is written so.
    pub open spec fn wf(self) -> bool {
        is_identifier(self.text) && (self.raw ==> !is_path_keyword(self.text))
    }

    /// The name as it stands in source text.
    pub open spec fn written(self) -> Seq<char> {
        if self.raw {
            raw_prefix() + self.text
        } else {
            self.text
        }
    }
}

/// Whether a text starts with the mark of a raw identifier.
pub open spec fn has_raw_prefix(written: Seq<char>) -> bool {
    written.len() >= 2 && written[0] == 'r' && written[1] == '#'
}

/// The name that a text stands for: with `r#` in front, the rest of it, written raw;
/// else the text itself.
pub open spec fn name_of(written: Seq<char>) -> Name {
    if has_raw_prefix(written) {
        Name { text: written.skip(2), raw: true }
    } else {
        Name { text: written, raw: false }
    }
}

/// The prefix of a setter's name.
pub open spec fn setter_prefix() -> Seq<char> {
    "set_"@
}

/// The prefix of the name of the external type that is bound to a record.
pub open spec fn imported_prefix() -> Seq<char> {
    "Imported"@
}

/// The name of the setter of a field: `set_` and the field's name.
pub open spec fn setter_name(field: Name) -> Name {
    Name { text: setter_prefix() + field.text, raw: false }
}

/// The name of the getter of a field: the field's own name.
pub open spec fn getter_name(field: Name) -> Name {
    field
}

/// The name of the external type that is bound to a record: `Imported` and the record's
/// name.
pub open spec fn imported_name(record: Name) -> Name {
    Name { text: imported_prefix() + record.text, raw: false }
}

/// An identifier stays one when an identifier is put in front of it.
pub proof fn lemma_identifier_concat(prefix: Seq<char>, name: Seq<char>)
    requires
        is_identifier(prefix),
        is_identifier(name),
    ensures
        is_identifier(prefix + name),
{
    let joined = prefix + name;
    assert(joined[0] == prefix[0]);
    assert forall|i: int| 0 <= i < joined.len() implies is_ident_continue(#[trigger] joined[i]) by {
        if i < prefix.len() {
            assert(joined[i] == prefix[i]);
        } else {
            assert(joined[i] == name[i - prefix.len()]);
        }
    }
}

/// The names derived from a name are names.
pub proof fn lemma_derived_names(name: Name)
    requires
        name.wf(),
    ensures
        setter_name(name).wf(),
        getter_name(name).wf(),
        imported_name(name).wf(),
{
    reveal_strlit("set_");
    reveal_strlit("Imported");
    lemma_identifier_concat(setter_prefix(), name.text);
    lemma_identifier_concat(imported_prefix(), name.text);
}

/// A well-formed name is the name that its written form stands for.
pub proof fn lemma_written_form(name: Name)
    requires
        name.wf(),
    ensures
        name_of(name.written()) == name,
{
    if name.raw {
        assert(name.written().skip(2) =~= name.text);
    } else {
        assert(is_ident_continue(name.text[1]) || name.text.len() < 2);
    }
}

fn ident_start(c: char) -> (b: bool)
    ensures
        b == is_ident_start(c),
{
    c == '_' || ('a' <= c && c <= 'z') || ('A' <= c && c <= 'Z')
}

fn ident_continue(c: char) -> (b: bool)
    ensures
        b == is_ident_continue(c),
{
    ident_start(c) || ('0' <= c && c <= '9')
}

/// Whether `text` is an identifier.
fn identifier(text: &str) -> (b: bool)
    ensures
        b == is_identifier(text@),
{
    let n: usize = text.unicode_len();
    if n == 0 {
        return false;
    }
    let first: char = text.get_char(0);
    if !ident_start(first) {
        return false;
    }
    if n == 1 && first == '_' {
        return false;
    }
    let mut i: usize = 1;
    while i < n
        invariant
            1 <= i <= n,
            n == text@.len(),
            is_ident_start(text@[0]),
            forall|j: int| 0 <= j < i ==> is_ident_continue(#[trigger] text@[j]),
        decreases n - i,
    {
        let c: char = text.get_char(i);
        if !ident_continue(c) {
            return false;
        }
        i = i + 1;
    }
    true
}

/// Whether two texts are the same.
fn same_text(left: &str, right: &str) -> (same: bool)
    ensures
        same == (left@ == right@),
{
    let n: usize = left.unicode_len();
    if n != right.unicode_len() {
        return false;
    }
    let mut i: usize = 0;
    while i < n
        invariant
            i <= n,
            n == left@.len(),
            n == right@.len(),
            forall|j: int| 0 <= j < i ==> left@[j] == right@[j],
        decreases n - i,
    {
        if left.get_char(i) != right.get_char(i) {
            return false;
        }
        i = i + 1;
    }
    assert(left@ =~= right@);
    true
}

/// Whether `text` is one of the words that name a place in a path.
fn path_keyword(text: &str) -> (b: bool)
    ensures
        b == is_path_keyword(text@),
{
    same_text(text, "super") || same_text(text, "self") || same_text(text, "Self") || same_text(
        text,
        "crate",
    )
}

/// The name of a record or of a field, with the span of the place where it was written.
///
/// Every value of this type holds a name that is well formed in the sense of
/// [`Name::wf`]. The span takes no part in what the name is: it is carried along, and the
/// generated code attributes the name and the names derived from it to that place.
#[derive(Debug)]
pub struct Identifier {
    text: String,
    raw: bool,
    span: Span,
}

impl View for Identifier {
    type V = Name;

    closed spec fn view(&self) -> Name {
        Name { text: self.text@, raw: self.raw }
    }
}

impl Identifier {
    #[verifier::type_invariant]
    pub(crate) open spec fn well_formed(self) -> bool {
        self@.wf()
    }

    /// The span that the name carries: the place that the name is attributed to.
    pub closed spec fn place(&self) -> Span {
        self.span
    }

    /// Reads a name from its written form: an identifier, or `r#` and an identifier that
    /// can be written raw. Any other text is refused. The name gets the span of the place
    /// where the generator was called.
    pub fn new(written: &str) -> (id: Option<Identifier>)
        ensures
            id is Some <==> name_of(written@).wf(),
            id matches Some(name) ==> name@ == name_of(written@),
    {
        let n: usize = written.unicode_len();
        if n >= 2 && written.get_char(0) == 'r' && written.get_char(1) == '#' {
            let rest = written.substring_char(2, n);
            assert(rest@ =~= written@.skip(2));
            if identifier(rest) && !path_keyword(rest) {
                Some(Identifier { text: String::from_str(rest), raw: true, span: call_site() })
            } else {
                None
            }
        } else if identifier(written) {
            Some(Identifier { text: String::from_str(written), raw: false, span: call_site() })
        } else {
            None
        }
    }

    /// The same name, attributed to another place: the name keeps its text and its raw
    /// mark, and carries `span` from now on.
    pub fn with_span(self, span: Span) -> (moved: Identifier)
        ensures
            moved@ == self@,
            moved.place() == span,
    {
        proof {
            use_type_invariant(&self);
        }
        Identifier { text: self.text, raw: self.raw, span }
    }

    /// The span of the place that the name is attributed to: the one that the name
    /// carries.
    pub fn span(&self) -> (span: Span)
        ensures
            span == self.place(),
    {
        self.span
    }

    /// The name, without the mark of a raw identifier.
    pub fn as_str(&self) -> (text: &str)
        ensures
            text@ == self@.text,
            self@.wf(),
    {
        proof {
            use_type_invariant(self);
        }
        self.text.as_str()
    }

    /// Whether the name is written as a raw identifier.
    pub fn is_raw(&self) -> (raw: bool)
        ensures
            raw == self@.raw,
    {
        self.raw
    }

    /// The name as it stands in source text.
    pub fn written(&self) -> (text: String)
        ensures
            text@ == self@.written(),
    {
        if self.raw {
            proof {
                reveal_strlit("r#");
                assert("r#"@ =~= raw_prefix());
            }
            let mut text = String::from_str("r#");
            text.append(self.text.as_str());
            text
        } else {
            self.text.clone()
        }
    }

    /// Whether two identifiers are the same name, however they are written.
    pub fn same_name(&self, other: &Identifier) -> (same: bool)
        ensures
            same == (self@.text == other@.text),
    {
        self.text == other.text
    }

    /// The name that is `prefix` followed by `name`, attributed to the place of `name`.
    fn prefixed(prefix: &str, name: &Identifier) -> (joined: Identifier)
        requires
            is_identifier(prefix@),
        ensures
            joined@ == (Name { text: prefix@ + name@.text, raw: false }),
    {
        proof {
            use_type_invariant(name);
            lemma_identifier_concat(prefix@, name@.text);
        }
        let mut text = String::from_str(prefix);
        text.append(name.text.as_str());
        Identifier { text, raw: false, span: name.span }
    }
}

impl Clone for Identifier {
    /// A copy of the name.
    fn clone(&self) -> (copy: Identifier)
        ensures
            copy@ == self@,
    {
        proof {
            use_type_invariant(self);
        }
        Identifier { text: self.text.clone(), raw: self.raw, span: self.span }
    }
}

/// The name of the setter of a field: `set_` and the field's name.
pub fn setter_ident(ident: &Identifier) -> (setter: Identifier)
    ensures
        setter@ == setter_name(ident@),
{
    proof {
        reveal_strlit("set_");
    }
    Identifier::prefixed("set_", ident)
}

/// The name of the getter of a field: the field's own name.
pub fn getter_ident(ident: &Identifier) -> (getter: Identifier)
    ensures
        getter@ == getter_name(ident@),
{
    ident.clone()
}

/// The name of the external type that is bound to a record: `Imported` and the record's
/// name.
pub fn imported_ident(ident: &Identifier) -> (imported: Identifier)
    ensures
        imported@ == imported_name(ident@),
{
    proof {
        reveal_strlit("Imported");
    }
    Identifier::prefixed("Imported", ident)
}

} // verus!
