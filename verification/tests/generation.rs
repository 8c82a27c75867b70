use ducktor::declaration::{Declaration, DeclarationKind, Field, Fields, NamedFields};
use ducktor::from_js_value;
use ducktor::ident::Identifier;
use ducktor::record::RustType;
use proc_macro2::{Delimiter, Spacing, TokenStream, TokenTree};

fn record(name: &str, list: &[(&str, &str)]) -> RustType {
    RustType::parse(declaration(name, list)).unwrap()
}

fn declaration(name: &str, list: &[(&str, &str)]) -> Declaration {
    let mut fields = Vec::new();
    for (field, ty) in list {
        fields.push(Field {
            ident: Identifier::new(field).unwrap(),
            ty: ty.parse::<TokenStream>().unwrap(),
        });
    }
    Declaration {
        ident: Identifier::new(name).unwrap(),
        kind: DeclarationKind::Struct(Fields::Named(NamedFields::new(fields).unwrap())),
    }
}

fn data() -> RustType {
    record("Data", &[("a", "u32"), ("b", "String")])
}

const DATA_GETTERS: &str = "# [wasm_bindgen (method , getter)] fn a (this : & ImportedData) -> u32 ; \
# [wasm_bindgen (method , getter)] fn b (this : & ImportedData) -> String ;";

const DATA_SETTERS: &str = "# [wasm_bindgen (method , setter)] fn set_a (this : & ImportedData , value : u32) ; \
# [wasm_bindgen (method , setter)] fn set_b (this : & ImportedData , value : String) ;";

const DATA_FROM: &str = "# [automatically_derived] \
impl :: core :: convert :: From < & :: wasm_bindgen :: JsValue > for Data { \
fn from (value : & :: wasm_bindgen :: JsValue) -> Self { \
use :: wasm_bindgen :: prelude :: * ; \
# [wasm_bindgen] extern \"C\" { \
type ImportedData ; \
# [wasm_bindgen (method , getter)] fn a (this : & ImportedData) -> u32 ; \
# [wasm_bindgen (method , getter)] fn b (this : & ImportedData) -> String ; \
} \
let imported : & ImportedData = :: wasm_bindgen :: JsValue :: unchecked_ref (value) ; \
Data { a : imported . a () , b : imported . b () , } \
} \
}";

const DATA_INTO: &str = "# [automatically_derived] \
impl :: core :: convert :: Into < :: wasm_bindgen :: JsValue > for Data { \
fn into (self) -> :: wasm_bindgen :: JsValue { \
use :: wasm_bindgen :: prelude :: * ; \
# [wasm_bindgen] extern \"C\" { \
type ImportedData ; \
# [wasm_bindgen (constructor)] fn new () -> ImportedData ; \
# [wasm_bindgen (method , setter)] fn set_a (this : & ImportedData , value : u32) ; \
# [wasm_bindgen (method , setter)] fn set_b (this : & ImportedData , value : String) ; \
} \
let value = ImportedData :: new () ; \
value . set_a (self . a) ; \
value . set_b (self . b) ; \
:: wasm_bindgen :: JsValue :: from (value) \
} \
}";

#[test]
fn getters_are_declared_for_each_field() {
    assert_eq!(data().build_getters().to_string(), DATA_GETTERS);
}

#[test]
fn setters_are_declared_for_each_field() {
    assert_eq!(data().build_setters().to_string(), DATA_SETTERS);
}

#[test]
fn getter_of_a_single_field() {
    let single = record("Single", &[("only", "bool")]);
    assert_eq!(
        single.build_getters().to_string(),
        "# [wasm_bindgen (method , getter)] fn only (this : & ImportedSingle) -> bool ;"
    );
}

#[test]
fn setter_of_a_single_field() {
    let single = record("Single", &[("only", "bool")]);
    assert_eq!(
        single.build_setters().to_string(),
        "# [wasm_bindgen (method , setter)] fn set_only (this : & ImportedSingle , value : bool) ;"
    );
}

#[test]
fn field_types_are_handed_on_as_they_are() {
    let nested = record("Nested", &[("items", "Vec<Option<::std::string::String>>")]);
    let ty = "Vec<Option<::std::string::String>>".parse::<TokenStream>().unwrap().to_string();
    assert_eq!(
        nested.build_getters().to_string(),
        format!("# [wasm_bindgen (method , getter)] fn items (this : & ImportedNested) -> {} ;", ty)
    );
    assert_eq!(
        nested.build_setters().to_string(),
        format!(
            "# [wasm_bindgen (method , setter)] fn set_items (this : & ImportedNested , value : {}) ;",
            ty
        )
    );
}

#[test]
fn raw_field_keeps_its_mark_in_the_getter_and_loses_it_in_the_setter() {
    let event = record("Event", &[("r#type", "String")]);
    assert_eq!(
        event.build_getters().to_string(),
        "# [wasm_bindgen (method , getter)] fn r#type (this : & ImportedEvent) -> String ;"
    );
    assert_eq!(
        event.build_setters().to_string(),
        "# [wasm_bindgen (method , setter)] fn set_type (this : & ImportedEvent , value : String) ;"
    );
    assert!(event
        .gen_from_impl()
        .to_string()
        .ends_with("Event { r#type : imported . r#type () , } } }"));
    assert!(event.gen_into_impl().to_string().contains("value . set_type (self . r#type) ;"));
}

#[test]
fn raw_field_is_a_raw_identifier_token() {
    let event = record("Event", &[("r#type", "String")]);
    let tokens: Vec<TokenTree> = event.build_getters().into_iter().collect();
    let expected = proc_macro2::Ident::new_raw("type", proc_macro2::Span::call_site());
    match &tokens[3] {
        TokenTree::Ident(ident) => assert_eq!(ident, &expected),
        other => panic!("unexpected token {}", other),
    }
}

#[test]
fn raw_record_name_keeps_its_mark() {
    let odd = record("r#Match", &[("a", "u8")]);
    assert_eq!(odd.imported().written(), "ImportedMatch");
    let text = odd.gen_from_impl().to_string();
    assert!(text.contains("> for r#Match {"));
    assert!(text.contains("type ImportedMatch ;"));
    assert!(text.ends_with("r#Match { a : imported . a () , } } }"));
}

#[test]
fn accessors_are_planned_in_declaration_order() {
    let plan = data().accessors();
    assert_eq!(plan.len(), 2);
    assert_eq!(plan[0].field.written(), "a");
    assert_eq!(plan[0].getter.written(), "a");
    assert_eq!(plan[0].setter.written(), "set_a");
    assert_eq!(plan[1].field.written(), "b");
    assert_eq!(plan[1].getter.written(), "b");
    assert_eq!(plan[1].setter.written(), "set_b");
}

#[test]
fn accessors_of_a_raw_field() {
    let plan = record("Event", &[("r#type", "String"), ("id", "u64")]).accessors();
    assert_eq!(plan.len(), 2);
    assert_eq!(plan[0].field.written(), "r#type");
    assert_eq!(plan[0].getter.written(), "r#type");
    assert_eq!(plan[0].setter.written(), "set_type");
    assert_eq!(plan[1].setter.written(), "set_id");
}

#[test]
fn extern_block_wraps_the_methods_it_is_given() {
    let block = data().build_extern_block(|| "fn probe () ;".parse::<TokenStream>().unwrap());
    assert_eq!(
        block.to_string(),
        "use :: wasm_bindgen :: prelude :: * ; # [wasm_bindgen] extern \"C\" { type ImportedData ; fn probe () ; }"
    );
}

#[test]
fn extern_block_without_methods_declares_the_type_alone() {
    let block = data().build_extern_block(TokenStream::new);
    assert_eq!(
        block.to_string(),
        "use :: wasm_bindgen :: prelude :: * ; # [wasm_bindgen] extern \"C\" { type ImportedData ; }"
    );
}

#[test]
fn extern_block_with_the_getters() {
    let data = data();
    let block = data.build_extern_block(|| data.build_getters());
    assert_eq!(
        block.to_string(),
        format!(
            "use :: wasm_bindgen :: prelude :: * ; # [wasm_bindgen] extern \"C\" {{ type ImportedData ; {} }}",
            DATA_GETTERS
        )
    );
}

#[test]
fn inbound_conversion_of_two_fields() {
    assert_eq!(data().gen_from_impl().to_string(), DATA_FROM);
}

#[test]
fn outbound_conversion_of_two_fields() {
    assert_eq!(data().gen_into_impl().to_string(), DATA_INTO);
}

#[test]
fn inbound_conversion_reads_the_fields_in_declaration_order() {
    let text = record("Zyx", &[("z", "u8"), ("y", "u16"), ("x", "u32")]).gen_from_impl().to_string();
    assert!(text.ends_with(
        "Zyx { z : imported . z () , y : imported . y () , x : imported . x () , } } }"
    ));
    let z = text.find("fn z (").unwrap();
    let y = text.find("fn y (").unwrap();
    let x = text.find("fn x (").unwrap();
    assert!(z < y && y < x);
}

#[test]
fn outbound_conversion_writes_the_fields_in_declaration_order() {
    let text = record("Zyx", &[("z", "u8"), ("y", "u16"), ("x", "u32")]).gen_into_impl().to_string();
    assert!(text.ends_with(
        "let value = ImportedZyx :: new () ; \
value . set_z (self . z) ; value . set_y (self . y) ; value . set_x (self . x) ; \
:: wasm_bindgen :: JsValue :: from (value) } }"
    ));
    let z = text.find("fn set_z (").unwrap();
    let y = text.find("fn set_y (").unwrap();
    let x = text.find("fn set_x (").unwrap();
    assert!(z < y && y < x);
}

#[test]
fn outbound_conversion_constructs_before_it_sets() {
    let text = data().gen_into_impl().to_string();
    let declared = text.find("# [wasm_bindgen (constructor)] fn new () -> ImportedData ;").unwrap();
    let first_setter = text.find("# [wasm_bindgen (method , setter)]").unwrap();
    let made = text.find("let value = ImportedData :: new () ;").unwrap();
    let set_a = text.find("value . set_a (self . a) ;").unwrap();
    let set_b = text.find("value . set_b (self . b) ;").unwrap();
    let erased = text.find(":: wasm_bindgen :: JsValue :: from (value)").unwrap();
    assert!(declared < first_setter);
    assert!(made < set_a && set_a < set_b && set_b < erased);
}

#[test]
fn inbound_conversion_declares_no_setter_and_no_constructor() {
    let text = data().gen_from_impl().to_string();
    assert!(!text.contains("setter"));
    assert!(!text.contains("constructor"));
    assert!(!text.contains("set_a"));
}

#[test]
fn outbound_conversion_declares_no_getter() {
    let text = data().gen_into_impl().to_string();
    assert!(!text.contains("getter"));
    assert!(!text.contains("unchecked_ref"));
}

#[test]
fn to_tokens_appends_both_conversions() {
    let mut tokens = TokenStream::new();
    data().to_tokens(&mut tokens);
    assert_eq!(tokens.to_string(), format!("{} {}", DATA_FROM, DATA_INTO));
}

#[test]
fn to_tokens_keeps_what_the_stream_held() {
    let mut tokens = "struct Before ;".parse::<TokenStream>().unwrap();
    data().to_tokens(&mut tokens);
    assert_eq!(tokens.to_string(), format!("struct Before ; {} {}", DATA_FROM, DATA_INTO));
}

#[test]
fn generation_gives_both_conversions() {
    let tokens = from_js_value(declaration("Data", &[("a", "u32"), ("b", "String")])).unwrap();
    assert_eq!(tokens.to_string(), format!("{} {}", DATA_FROM, DATA_INTO));
}

#[test]
fn generation_for_integer_fields() {
    let tokens = from_js_value(declaration("Data", &[("a", "u32"), ("b", "i64")])).unwrap();
    let text = tokens.to_string();
    assert!(text.contains("fn a (this : & ImportedData) -> u32 ;"));
    assert!(text.contains("fn b (this : & ImportedData) -> i64 ;"));
    assert!(text.contains("fn set_a (this : & ImportedData , value : u32) ;"));
    assert!(text.contains("fn set_b (this : & ImportedData , value : i64) ;"));
    assert!(text.contains("Data { a : imported . a () , b : imported . b () , }"));
    assert!(text.contains("value . set_a (self . a) ; value . set_b (self . b) ;"));
}

#[test]
fn generation_is_the_same_every_time() {
    let first = from_js_value(declaration("Data", &[("a", "u32"), ("b", "String")])).unwrap();
    let second = from_js_value(declaration("Data", &[("a", "u32"), ("b", "String")])).unwrap();
    assert_eq!(first.to_string(), second.to_string());
    assert_eq!(first.to_string().as_bytes(), second.to_string().as_bytes());
}

#[test]
fn external_type_is_named_after_the_record_alone() {
    let one = record("Data", &[("a", "u32")]);
    let other = record("Data", &[("b", "String")]);
    assert_eq!(one.imported().as_str(), "ImportedData");
    assert_eq!(other.imported().as_str(), "ImportedData");
}

#[test]
fn generated_code_reads_back_as_the_same_tokens() {
    let tokens = from_js_value(declaration("Data", &[("a", "u32"), ("b", "String")])).unwrap();
    let again = tokens.to_string().parse::<TokenStream>().unwrap();
    assert_eq!(again.to_string(), tokens.to_string());
}

#[test]
fn path_separators_are_joint_and_other_punctuation_stands_alone() {
    let tokens: Vec<TokenTree> = data().gen_from_impl().into_iter().collect();
    // # [automatically_derived] impl :: core ...
    match &tokens[0] {
        TokenTree::Punct(p) => {
            assert_eq!(p.as_char(), '#');
            assert_eq!(p.spacing(), Spacing::Alone);
        }
        other => panic!("unexpected token {}", other),
    }
    match &tokens[1] {
        TokenTree::Group(g) => {
            assert_eq!(g.delimiter(), Delimiter::Bracket);
            assert_eq!(g.stream().to_string(), "automatically_derived");
        }
        other => panic!("unexpected token {}", other),
    }
    match (&tokens[3], &tokens[4]) {
        (TokenTree::Punct(first), TokenTree::Punct(second)) => {
            assert_eq!(first.as_char(), ':');
            assert_eq!(first.spacing(), Spacing::Joint);
            assert_eq!(second.as_char(), ':');
            assert_eq!(second.spacing(), Spacing::Alone);
        }
        _ => panic!("no path separator after `impl`"),
    }
    match tokens.last() {
        Some(TokenTree::Group(g)) => assert_eq!(g.delimiter(), Delimiter::Brace),
        _ => panic!("the conversion does not end with its body"),
    }
}

#[test]
fn calling_convention_is_a_string_literal() {
    let block: Vec<TokenTree> = data().build_extern_block(TokenStream::new).into_iter().collect();
    let literal = block.iter().find_map(|token| match token {
        TokenTree::Literal(literal) => Some(literal.to_string()),
        _ => None,
    });
    assert_eq!(literal, Some("\"C\"".to_string()));
}
