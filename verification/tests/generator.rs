use enum_repr::emit::{derive_into, derive_try_from, match_impl};
use enum_repr::errors::GenError;
use enum_repr::extract::get_enum_data;
use enum_repr::model::{
    Attr, AttrToken, Declaration, Delim, ReprItem, TypeData, TypeDescriptor, Variant, VariantEntry,
};
use enum_repr::render::render_value;
use enum_repr::repr::{tag_of_ident, value_in_range, ReprTag};
use enum_repr::resolver::find_repr_type;

fn repr_attr(ty: &str) -> Attr {
    Attr {
        outer: true,
        name: "repr".to_string(),
        tokens: vec![AttrToken::Group {
            delim: Delim::Parenthesis,
            items: vec![ReprItem::Ident(ty.to_string())],
        }],
    }
}

fn variant(name: &str, value: i128) -> Variant {
    Variant { name: name.to_string(), discriminant: Some(value) }
}

fn foo_decl() -> Declaration {
    Declaration {
        name: "Foo".to_string(),
        attrs: vec![repr_attr("i8")],
        data: TypeData::Enumeration(vec![variant("VAR1", -1), variant("VAR2", -3)]),
    }
}

fn foo32_decl() -> Declaration {
    Declaration {
        name: "Foo32".to_string(),
        attrs: vec![repr_attr("u32")],
        data: TypeData::Enumeration(vec![variant("VAR1", 1024)]),
    }
}

#[test]
fn generates_try_from_for_signed_enum() {
    let text = derive_try_from(&foo_decl()).unwrap();
    let expected = "impl core::convert::TryFrom<i8> for Foo {\n\
                    \x20   type Error = i8;\n\n\
                    \x20   fn try_from(val: i8) -> Result<Self, i8> {\n\
                    \x20       match val {\n\
                    \x20           -1 => Ok(Foo::VAR1),\n\
                    \x20           -3 => Ok(Foo::VAR2),\n\
                    \x20           unexpected => Err(unexpected),\n\
                    \x20       }\n\
                    \x20   }\n\
                    }\n";
    assert_eq!(text, expected);
}

#[test]
fn generates_try_from_for_unsigned_enum() {
    let text = derive_try_from(&foo32_decl()).unwrap();
    assert!(text.contains("impl core::convert::TryFrom<u32> for Foo32 {"));
    assert!(text.contains("            1024 => Ok(Foo32::VAR1),\n"));
    assert!(text.contains("            unexpected => Err(unexpected),\n"));
}

#[test]
fn generates_into() {
    let text = derive_into(&foo_decl()).unwrap();
    let expected = "impl core::convert::Into<i8> for Foo {\n\
                    \x20   fn into(self) -> i8 {\n\
                    \x20       self as i8\n\
                    \x20   }\n\
                    }\n";
    assert_eq!(text, expected);
}

#[test]
fn match_impl_keeps_table_order() {
    let table = vec![
        VariantEntry { name: "FIRST".to_string(), value: 7 },
        VariantEntry { name: "SECOND".to_string(), value: 7 },
    ];
    let text = match_impl(&"Dup".to_string(), &table);
    let first: usize = text.find("7 => Ok(Dup::FIRST),").unwrap();
    let second: usize = text.find("7 => Ok(Dup::SECOND),").unwrap();
    assert!(first < second);
}

#[test]
fn missing_repr_aborts_with_repr_not_found() {
    let decl = Declaration {
        name: "Foo".to_string(),
        attrs: vec![],
        data: TypeData::Enumeration(vec![variant("VAR1", -1)]),
    };
    let err = derive_try_from(&decl).unwrap_err();
    assert_eq!(err, GenError::ReprNotFound);
    assert_eq!(err.message(), "Repr not found");
    assert_eq!(derive_into(&decl).unwrap_err(), GenError::ReprNotFound);
}

#[test]
fn inner_repr_annotation_is_skipped() {
    let mut attr = repr_attr("i8");
    attr.outer = false;
    let attrs = vec![attr];
    assert_eq!(find_repr_type(&attrs).unwrap_err(), GenError::ReprNotFound);
}

#[test]
fn other_annotations_are_skipped() {
    let other = Attr { outer: true, name: "derive".to_string(), tokens: vec![] };
    let attrs = vec![other, repr_attr("u16")];
    assert_eq!(find_repr_type(&attrs).unwrap(), "u16");
}

#[test]
fn first_repr_annotation_wins() {
    let attrs = vec![repr_attr("i8"), repr_attr("u32")];
    assert_eq!(find_repr_type(&attrs).unwrap(), "i8");
}

#[test]
fn repr_with_two_tokens_is_malformed() {
    let mut attr = repr_attr("i8");
    attr.tokens.push(AttrToken::Other("extra".to_string()));
    assert_eq!(find_repr_type(&vec![attr]).unwrap_err(), GenError::ReprMalformed);
}

#[test]
fn repr_with_no_tokens_is_malformed() {
    let attr = Attr { outer: true, name: "repr".to_string(), tokens: vec![] };
    assert_eq!(find_repr_type(&vec![attr]).unwrap_err(), GenError::ReprMalformed);
}

#[test]
fn repr_with_wrong_delimiter_is_malformed() {
    let attr = Attr {
        outer: true,
        name: "repr".to_string(),
        tokens: vec![AttrToken::Group {
            delim: Delim::Brace,
            items: vec![ReprItem::Ident("i8".to_string())],
        }],
    };
    let err = find_repr_type(&vec![attr]).unwrap_err();
    assert_eq!(err, GenError::ReprMalformed);
    assert_eq!(err.message(), "Repr is malformed, expecting repr(TYPE)");
}

#[test]
fn repr_with_empty_group_is_malformed() {
    let attr = Attr {
        outer: true,
        name: "repr".to_string(),
        tokens: vec![AttrToken::Group { delim: Delim::Parenthesis, items: vec![] }],
    };
    assert_eq!(find_repr_type(&vec![attr]).unwrap_err(), GenError::ReprMalformed);
}

#[test]
fn repr_with_two_types_is_rejected() {
    let attr = Attr {
        outer: true,
        name: "repr".to_string(),
        tokens: vec![AttrToken::Group {
            delim: Delim::Parenthesis,
            items: vec![
                ReprItem::Ident("i8".to_string()),
                ReprItem::Ident("u32".to_string()),
            ],
        }],
    };
    let err = find_repr_type(&vec![attr]).unwrap_err();
    assert_eq!(err, GenError::ManyReprTypes);
    assert_eq!(err.message(), "Many repr types specified. Expecting only one.");
}

#[test]
fn repr_with_non_identifier_item_is_rejected() {
    let attr = Attr {
        outer: true,
        name: "repr".to_string(),
        tokens: vec![AttrToken::Group {
            delim: Delim::Parenthesis,
            items: vec![ReprItem::Other("8".to_string())],
        }],
    };
    let err = find_repr_type(&vec![attr]).unwrap_err();
    assert_eq!(err, GenError::UnexpectedTypeInRepr("8".to_string()));
    assert_eq!(err.message(), "Unexpected type in repr 8");
}

#[test]
fn repr_with_non_group_token_is_rejected() {
    let attr = Attr {
        outer: true,
        name: "repr".to_string(),
        tokens: vec![AttrToken::Other("=".to_string())],
    };
    let err = find_repr_type(&vec![attr]).unwrap_err();
    assert_eq!(err, GenError::UnexpectedTokenWithRepr("=".to_string()));
    assert_eq!(err.message(), "Unexpected token with repr =");
}

#[test]
fn struct_declaration_is_rejected() {
    let decl = Declaration {
        name: "Bar".to_string(),
        attrs: vec![repr_attr("u8")],
        data: TypeData::Struct,
    };
    let err = derive_try_from(&decl).unwrap_err();
    assert_eq!(err, GenError::NotAnEnum);
    assert_eq!(err.message(), "Unexpected type! Use derive with enums only");
}

#[test]
fn union_declaration_is_rejected() {
    assert_eq!(get_enum_data(&TypeData::Union).unwrap_err(), GenError::NotAnEnum);
}

#[test]
fn into_ignores_the_declaration_shape() {
    let decl = Declaration {
        name: "Bar".to_string(),
        attrs: vec![repr_attr("u8")],
        data: TypeData::Struct,
    };
    assert!(derive_into(&decl).unwrap().contains("impl core::convert::Into<u8> for Bar {"));
}

#[test]
fn missing_discriminant_is_reported() {
    let data = TypeData::Enumeration(vec![
        variant("VAR1", -1),
        Variant { name: "VAR2".to_string(), discriminant: None },
    ]);
    let err = get_enum_data(&data).unwrap_err();
    assert_eq!(err, GenError::MissingDiscriminant("VAR2".to_string()));
    assert_eq!(err.message(), "Variant without explicit discriminant: VAR2");
}

#[test]
fn extractor_keeps_declaration_order() {
    let data = TypeData::Enumeration(vec![variant("A", 3), variant("B", 1), variant("C", 2)]);
    let table = get_enum_data(&data).unwrap();
    let names: Vec<String> = table.iter().map(|e| e.name.clone()).collect();
    assert_eq!(names, vec!["A", "B", "C"]);
    let values: Vec<i128> = table.iter().map(|e| e.value).collect();
    assert_eq!(values, vec![3, 1, 2]);
}

#[test]
fn renders_decimal_values() {
    assert_eq!(render_value(0), "0");
    assert_eq!(render_value(9), "9");
    assert_eq!(render_value(10), "10");
    assert_eq!(render_value(1024), "1024");
    assert_eq!(render_value(-1), "-1");
    assert_eq!(render_value(-128), "-128");
    assert_eq!(render_value(i128::MAX), "170141183460469231731687303715884105727");
    assert_eq!(render_value(i128::MIN), "-170141183460469231731687303715884105728");
}

#[test]
fn tags_cover_the_primitive_integer_identifiers() {
    assert_eq!(tag_of_ident(&"i8".to_string()), Some(ReprTag::I8));
    assert_eq!(tag_of_ident(&"i16".to_string()), Some(ReprTag::I16));
    assert_eq!(tag_of_ident(&"i32".to_string()), Some(ReprTag::I32));
    assert_eq!(tag_of_ident(&"i64".to_string()), Some(ReprTag::I64));
    assert_eq!(tag_of_ident(&"u8".to_string()), Some(ReprTag::U8));
    assert_eq!(tag_of_ident(&"u16".to_string()), Some(ReprTag::U16));
    assert_eq!(tag_of_ident(&"u32".to_string()), Some(ReprTag::U32));
    assert_eq!(tag_of_ident(&"u64".to_string()), Some(ReprTag::U64));
    assert_eq!(tag_of_ident(&"usize".to_string()), None);
    assert_eq!(tag_of_ident(&"f32".to_string()), None);
}

#[test]
fn value_ranges_match_the_layouts() {
    assert!(value_in_range(ReprTag::I8, -128));
    assert!(!value_in_range(ReprTag::I8, 128));
    assert!(value_in_range(ReprTag::U8, 255));
    assert!(!value_in_range(ReprTag::U8, -1));
    assert!(value_in_range(ReprTag::U32, 1024));
    assert!(!value_in_range(ReprTag::U32, 4294967296));
    assert!(value_in_range(ReprTag::U64, 18446744073709551615));
    assert!(value_in_range(ReprTag::I64, -9223372036854775808));
}

#[test]
fn descriptor_names_its_layout() {
    let ident = find_repr_type(&vec![repr_attr("u32")]).unwrap();
    let tag = tag_of_ident(&ident).unwrap();
    let descriptor = TypeDescriptor { name: "Foo32".to_string(), repr: tag };
    assert_eq!(descriptor.repr, ReprTag::U32);
}
