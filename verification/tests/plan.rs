use ducktor::declaration::{Declaration, DeclarationKind, Field, Fields, NamedFields};
use ducktor::ident::Identifier;
use ducktor::record::{Accessor, RustType};
use proc_macro2::TokenStream;
use std::collections::HashMap;

fn planned(name: &str, list: &[(&str, &str)]) -> Vec<Accessor> {
    let mut fields = Vec::new();
    for (field, ty) in list {
        fields.push(Field {
            ident: Identifier::new(field).unwrap(),
            ty: ty.parse::<TokenStream>().unwrap(),
        });
    }
    let input = Declaration {
        ident: Identifier::new(name).unwrap(),
        kind: DeclarationKind::Struct(Fields::Named(NamedFields::new(fields).unwrap())),
    };
    RustType::parse(input).unwrap().accessors()
}

/// Calls the setters of the plan, in its order, on a fresh object, and keeps the calls.
fn to_external(plan: &[Accessor], record: &[&str]) -> (HashMap<String, String>, Vec<String>) {
    let mut object = HashMap::new();
    let mut calls = Vec::new();
    for (accessor, value) in plan.iter().zip(record) {
        let setter = accessor.setter.as_str();
        assert!(setter.starts_with("set_"));
        object.insert(setter["set_".len()..].to_string(), value.to_string());
        calls.push(format!("{}({:?})", accessor.setter.written(), value));
    }
    (object, calls)
}

/// Reads each field of the plan, in its order, by its getter.
fn from_external(plan: &[Accessor], object: &HashMap<String, String>) -> Vec<(String, String)> {
    let mut record = Vec::new();
    for accessor in plan {
        let value = object.get(accessor.getter.as_str()).unwrap();
        record.push((accessor.field.written(), value.clone()));
    }
    record
}

#[test]
fn inbound_conversion_reads_each_field_from_its_property() {
    let plan = planned("Data", &[("a", "u32"), ("b", "String")]);
    let mut object = HashMap::new();
    object.insert("a".to_string(), "42".to_string());
    object.insert("b".to_string(), "string".to_string());
    assert_eq!(
        from_external(&plan, &object),
        vec![("a".to_string(), "42".to_string()), ("b".to_string(), "string".to_string())]
    );
}

#[test]
fn outbound_conversion_calls_the_setters_in_declaration_order() {
    let plan = planned("Data", &[("a", "u32"), ("b", "String")]);
    let (object, calls) = to_external(&plan, &["0", ""]);
    assert_eq!(calls, vec!["set_a(\"0\")", "set_b(\"\")"]);
    assert_eq!(object.len(), 2);
    assert_eq!(object["a"], "0");
    assert_eq!(object["b"], "");
}

#[test]
fn record_that_goes_out_comes_back() {
    let plan = planned("Data", &[("a", "u32"), ("b", "String")]);
    let (object, _) = to_external(&plan, &["42", "string"]);
    assert_eq!(
        from_external(&plan, &object),
        vec![("a".to_string(), "42".to_string()), ("b".to_string(), "string".to_string())]
    );
}

#[test]
fn record_with_a_field_called_like_a_setter_comes_back() {
    let plan = planned("Odd", &[("a", "u8"), ("set_a", "u8"), ("r#type", "u8")]);
    let (object, calls) = to_external(&plan, &["1", "2", "3"]);
    assert_eq!(calls, vec!["set_a(\"1\")", "set_set_a(\"2\")", "set_type(\"3\")"]);
    assert_eq!(object.len(), 3);
    assert_eq!(
        from_external(&plan, &object),
        vec![
            ("a".to_string(), "1".to_string()),
            ("set_a".to_string(), "2".to_string()),
            ("r#type".to_string(), "3".to_string()),
        ]
    );
}

#[test]
fn planned_names_do_not_collide() {
    let plan = planned("Zyx", &[("z", "u8"), ("y", "u8"), ("x", "u8"), ("new", "u8")]);
    for (i, one) in plan.iter().enumerate() {
        assert_ne!(one.setter.as_str(), "new");
        for other in &plan[i + 1..] {
            assert_ne!(one.getter.as_str(), other.getter.as_str());
            assert_ne!(one.setter.as_str(), other.setter.as_str());
        }
    }
}
