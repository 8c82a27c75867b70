//! What the generated conversions do to the fields of a record.
//!
//! The first part is about the text of the conversions: the calls stand in the order in
//! which the fields were declared. The second part is about their effect, in a model of
//! the external object as a map from the names of its properties to their values.

use crate::declaration::{distinct_names, well_formed_names, FieldView};
use crate::ident::{
    getter_name, lemma_derived_names, lemma_written_form, name_of, setter_name, setter_prefix,
    Name,
};
use crate::surface::{
    initializer, initializer_len, initializer_list, initializers, setter_call, setter_call_len,
    setter_call_list, setter_calls, RecordView,
};
use crate::syntax::name_word;
use crate::tokens::Token;
use vstd::prelude::*;

verus! {

/// Blocks of one width, run together, lie one after the other: the block at `i` starts at
/// `i` times the width.
pub proof fn lemma_uniform_blocks<A>(blocks: Seq<Seq<A>>, width: nat, i: int)
    requires
        forall|k: int| 0 <= k < blocks.len() ==> (#[trigger] blocks[k]).len() == width,
        0 <= i < blocks.len(),
    ensures
        blocks.flatten().len() == width * blocks.len(),
        blocks.flatten().subrange(width * i, width * i + width) == blocks[i],
    decreases blocks.len(),
{
    let front = blocks.drop_last();
    let last = blocks.last();
    assert(blocks =~= front.push(last));
    front.lemma_flatten_push(last);
    assert(blocks.flatten() =~= front.flatten() + last);
    assert(width * blocks.len() == width * front.len() + width) by (nonlinear_arith)
        requires
            blocks.len() == front.len() + 1,
    ;
    if front.len() == 0 {
        assert(front.flatten() =~= Seq::<A>::empty());
        assert(width * 0 == 0) by (nonlinear_arith);
        assert(blocks.flatten().subrange(width * i, width * i + width) =~= blocks[i]);
    } else {
        lemma_uniform_blocks(front, width, 0);
        if i < front.len() {
            lemma_uniform_blocks(front, width, i);
            assert(width * i + width <= width * front.len()) by (nonlinear_arith)
                requires
                    0 <= i < front.len(),
            ;
            assert(blocks.flatten().subrange(width * i, width * i + width)
                =~= front.flatten().subrange(width * i, width * i + width));
        } else {
            assert(blocks.flatten().subrange(width * i, width * i + width) =~= last);
        }
    }
}

/// The record that the inbound conversion returns is written field by field in the order
/// of the declaration: the `i`-th initializer is that of the `i`-th field, and so the
/// `i`-th getter that is called is the getter of the `i`-th field. The name of the getter
/// is the fifth token of an initializer.
pub proof fn lemma_getters_called_in_declaration_order(fields: Seq<FieldView>, i: int)
    requires
        0 <= i < fields.len(),
    ensures
        initializers(fields).len() == initializer_len() * fields.len(),
        initializers(fields).subrange(
            initializer_len() * i,
            initializer_len() * i + initializer_len(),
        ) == initializer(fields[i]),
        initializers(fields)[initializer_len() * i + 4] == name_word(
            getter_name(fields[i].name),
        ),
{
    let blocks = initializer_list(fields);
    assert forall|k: int| 0 <= k < blocks.len() implies (#[trigger] blocks[k]).len()
        == initializer_len() by {
        assert(blocks[k] == initializer(fields[k]));
    }
    lemma_uniform_blocks(blocks, initializer_len(), i);
    let block = initializers(fields).subrange(
        initializer_len() * i,
        initializer_len() * i + initializer_len(),
    );
    assert(block[4] == initializers(fields)[initializer_len() * i + 4]);
}

/// The outbound conversion calls the setters in the order of the declaration: the `i`-th
/// call is the call of the setter of the `i`-th field, with the record's value of that
/// field. The name of the setter is the third token of a call.
pub proof fn lemma_setters_called_in_declaration_order(fields: Seq<FieldView>, i: int)
    requires
        0 <= i < fields.len(),
    ensures
        setter_calls(fields).len() == setter_call_len() * fields.len(),
        setter_calls(fields).subrange(
            setter_call_len() * i,
            setter_call_len() * i + setter_call_len(),
        ) == setter_call(fields[i]),
        setter_calls(fields)[setter_call_len() * i + 2] == name_word(
            setter_name(fields[i].name),
        ),
{
    let blocks = setter_call_list(fields);
    assert forall|k: int| 0 <= k < blocks.len() implies (#[trigger] blocks[k]).len()
        == setter_call_len() by {
        assert(blocks[k] == setter_call(fields[k]));
    }
    lemma_uniform_blocks(blocks, setter_call_len(), i);
    let block = setter_calls(fields).subrange(
        setter_call_len() * i,
        setter_call_len() * i + setter_call_len(),
    );
    assert(block[2] == setter_calls(fields)[setter_call_len() * i + 2]);
}

/// The methods that are declared together do not collide: where no two fields have the same
/// name, no two getters have the same name, no two setters have the same name, and no
/// setter is called like the constructor.
pub proof fn lemma_accessors_do_not_collide(fields: Seq<FieldView>, i: int, j: int)
    requires
        distinct_names(fields),
        0 <= i < fields.len(),
        0 <= j < fields.len(),
        i != j,
    ensures
        getter_name(fields[i].name).text != getter_name(fields[j].name).text,
        setter_name(fields[i].name).text != setter_name(fields[j].name).text,
        setter_name(fields[i].name).text != "new"@,
{
    if i < j {
        assert(fields[i].name.text != fields[j].name.text);
    } else {
        assert(fields[j].name.text != fields[i].name.text);
    }
    lemma_accessors_meet(fields[i].name);
    lemma_accessors_meet(fields[j].name);
    reveal_strlit("set_");
    reveal_strlit("new");
    assert(setter_name(fields[i].name).text[0] == 's');
}

/// The name that a word of the generated code stands for. A token that is no word stands
/// for the empty name.
pub open spec fn word_name(token: Token) -> Name {
    match token {
        Token::Ident(written) => name_of(written),
        _ => Name { text: Seq::empty(), raw: false },
    }
}

/// The getter that the `i`-th initializer of the inbound conversion calls, as the generated
/// code names it.
pub open spec fn called_getter(fields: Seq<FieldView>, i: int) -> Name {
    word_name(initializers(fields)[initializer_len() * i + 4])
}

/// The setter that the `i`-th setter call of the outbound conversion calls, as the
/// generated code names it.
pub open spec fn called_setter(fields: Seq<FieldView>, i: int) -> Name {
    word_name(setter_calls(fields)[setter_call_len() * i + 2])
}

/// The accessors that the generated code calls for the `i`-th field are the accessors of
/// that field: the getter is called like the field, the setter `set_` and the field's name.
pub proof fn lemma_called_accessors(fields: Seq<FieldView>, i: int)
    requires
        well_formed_names(fields),
        0 <= i < fields.len(),
    ensures
        called_getter(fields, i) == getter_name(fields[i].name),
        called_setter(fields, i) == setter_name(fields[i].name),
{
    lemma_getters_called_in_declaration_order(fields, i);
    lemma_setters_called_in_declaration_order(fields, i);
    lemma_derived_names(fields[i].name);
    lemma_written_form(getter_name(fields[i].name));
    lemma_written_form(setter_name(fields[i].name));
}

/// The property that a getter reads: the one that is called like the getter.
pub open spec fn property_read_by(getter: Name) -> Seq<char> {
    getter.text
}

/// The property that a setter writes: the one that is called like the setter without its
/// prefix.
pub open spec fn property_written_by(setter: Name) -> Seq<char> {
    setter.text.skip(setter_prefix().len() as int)
}

/// The properties of a fresh external object after the first `count` setter calls of the
/// outbound conversion, for a record whose fields have the values `values`: each call
/// writes the value of its field to the property of the setter that it calls.
pub open spec fn after_setter_calls<V>(fields: Seq<FieldView>, values: Seq<V>, count: nat) -> Map<
    Seq<char>,
    V,
>
    decreases count,
{
    if count == 0 {
        Map::empty()
    } else {
        after_setter_calls(fields, values, (count - 1) as nat).insert(
            property_written_by(called_setter(fields, count - 1)),
            values[count - 1],
        )
    }
}

/// The external object that the outbound conversion makes of a record whose fields have
/// the values `values`: a fresh object on which every setter call was made, in the order
/// in which the calls stand in the generated code.
pub open spec fn to_external<V>(record: RecordView, values: Seq<V>) -> Map<Seq<char>, V> {
    after_setter_calls(record.fields, values, record.fields.len())
}

/// The values of the fields of the record that the inbound conversion makes of an
/// external object: each field is what the getter reads that its initializer calls.
pub open spec fn from_external<V>(record: RecordView, object: Map<Seq<char>, V>) -> Seq<V> {
    Seq::new(
        record.fields.len(),
        |i: int| object[property_read_by(called_getter(record.fields, i))],
    )
}

/// A setter writes the property that is called like its field, and the getter of that
/// field reads it.
pub proof fn lemma_accessors_meet(field: Name)
    ensures
        property_written_by(setter_name(field)) == field.text,
        property_read_by(getter_name(field)) == field.text,
{
    assert(setter_name(field).text.skip(setter_prefix().len() as int) =~= field.text);
}

/// After the first `count` setter calls, the property of each of the first `count`
/// fields holds the value of that field.
proof fn lemma_after_setter_calls<V>(fields: Seq<FieldView>, values: Seq<V>, count: nat, i: int)
    requires
        distinct_names(fields),
        well_formed_names(fields),
        values.len() == fields.len(),
        0 <= i < count <= fields.len(),
    ensures
        after_setter_calls(fields, values, count).dom().contains(fields[i].name.text),
        after_setter_calls(fields, values, count)[fields[i].name.text] == values[i],
    decreases count,
{
    lemma_called_accessors(fields, count - 1);
    lemma_accessors_meet(fields[count - 1].name);
    if i < count - 1 {
        lemma_after_setter_calls(fields, values, (count - 1) as nat, i);
        assert(fields[i].name.text != fields[count - 1].name.text);
    }
}

/// A record that goes out and comes back is the record that went out: for a validated
/// record and any values of its fields, the inbound conversion reads from the object that
/// the outbound conversion made the value of every field.
///
/// This is stated in the model of this module: an external object is the map of its
/// properties, the conversions make the calls that stand in the generated code, a setter
/// writes and a getter reads the property that it is named after.
pub proof fn lemma_round_trip<V>(record: RecordView, values: Seq<V>)
    requires
        record.wf(),
        values.len() == record.fields.len(),
    ensures
        from_external(record, to_external(record, values)) == values,
{
    let back = from_external(record, to_external(record, values));
    assert forall|i: int| 0 <= i < values.len() implies back[i] == values[i] by {
        lemma_after_setter_calls(record.fields, values, record.fields.len(), i);
        lemma_called_accessors(record.fields, i);
        lemma_accessors_meet(record.fields[i].name);
    }
    assert(back =~= values);
}

} // verus!
