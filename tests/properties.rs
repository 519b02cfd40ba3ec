use box_shorthand::generate::{field_ident, generate, Construction, GenError};
use box_shorthand::model::{Body, Declaration, Fields, GenericParam, NamedField, Variant};
use box_shorthand::render::{
    expand, generics_args_string, generics_decl_string, render, where_string,
};
use box_shorthand::text::{decimal_string, join_strings};

fn s(x: &str) -> String {
    x.to_string()
}

fn unit(name: &str) -> Variant {
    Variant { name: s(name), fields: Fields::Unit }
}

fn declaration(name: &str, generics: Vec<GenericParam>, body: Body) -> Declaration {
    Declaration { name: s(name), generics, where_predicates: Vec::new(), body }
}

fn mixed() -> Declaration {
    declaration(
        "Shape",
        Vec::new(),
        Body::Enum(vec![
            Variant {
                name: s("Rect"),
                fields: Fields::Named(vec![
                    NamedField { name: s("w"), ty: s("u32") },
                    NamedField { name: s("h"), ty: s("u32") },
                ]),
            },
            unit("Empty"),
            Variant {
                name: s("Triple"),
                fields: Fields::Positional(vec![s("u8"), s("u16"), s("u32")]),
            },
        ]),
    )
}

#[test]
fn decimal_numerals() {
    assert_eq!(decimal_string(0), "0");
    assert_eq!(decimal_string(7), "7");
    assert_eq!(decimal_string(10), "10");
    assert_eq!(decimal_string(12345), "12345");
    assert_eq!(decimal_string(usize::MAX), usize::MAX.to_string());
}

#[test]
fn positional_parameter_names() {
    assert_eq!(field_ident(0), "field0");
    assert_eq!(field_ident(2), "field2");
    assert_eq!(field_ident(10), "field10");
}

#[test]
fn third_positional_field_is_field2() {
    let ns = generate(mixed()).unwrap();
    let triple = &ns.constructors[2];
    let names: Vec<&str> = triple.parameters.iter().map(|p| p.name.as_str()).collect();
    let types: Vec<&str> = triple.parameters.iter().map(|p| p.ty.as_str()).collect();
    assert_eq!(names, vec!["field0", "field1", "field2"]);
    assert_eq!(types, vec!["u8", "u16", "u32"]);
    match &triple.construction {
        Construction::Positional(args) => assert_eq!(args, &vec![s("field0"), s("field1"), s("field2")]),
        _ => panic!("positional variant built otherwise"),
    }
}

#[test]
fn named_fields_keep_names_and_types() {
    let ns = generate(mixed()).unwrap();
    let rect = &ns.constructors[0];
    let params: Vec<(&str, &str)> =
        rect.parameters.iter().map(|p| (p.name.as_str(), p.ty.as_str())).collect();
    assert_eq!(params, vec![("w", "u32"), ("h", "u32")]);
    match &rect.construction {
        Construction::Named(args) => assert_eq!(args, &vec![s("w"), s("h")]),
        _ => panic!("named variant built otherwise"),
    }
}

#[test]
fn functions_follow_variant_order() {
    let ns = generate(mixed()).unwrap();
    let names: Vec<&str> = ns.constructors.iter().map(|c| c.name.as_str()).collect();
    assert_eq!(names, vec!["Rect", "Empty", "Triple"]);
    let text = render(&ns);
    let rect = text.find("fn Rect(").unwrap();
    let empty = text.find("fn Empty(").unwrap();
    let triple = text.find("fn Triple(").unwrap();
    assert!(rect < empty && empty < triple);
    assert!(text.contains("    pub(super) fn Triple(field0: u8, field1: u16, field2: u32) -> Box<Shape> { Box::new(Shape::Triple(field0, field1, field2)) }\n"));
    assert!(text.contains("    pub(super) fn Rect(w: u32, h: u32) -> Box<Shape> { Box::new(Shape::Rect { w, h }) }\n"));
}

#[test]
fn namespace_name_has_suffix_b() {
    let ns = generate(mixed()).unwrap();
    assert_eq!(ns.name, "ShapeB");
    assert_eq!(ns.enum_name, "Shape");
}

#[test]
fn expansion_is_deterministic() {
    assert_eq!(expand(mixed()), expand(mixed()));
}

#[test]
fn struct_is_refused() {
    let d = declaration("Point", Vec::new(), Body::Struct);
    assert!(matches!(generate(d), Err(GenError::UnsupportedDeclarationKind)));
    let d = declaration("Point", Vec::new(), Body::Struct);
    assert_eq!(expand(d), Err(GenError::UnsupportedDeclarationKind));
}

#[test]
fn union_is_refused() {
    let d = declaration("Bits", Vec::new(), Body::Union);
    assert_eq!(expand(d), Err(GenError::UnsupportedDeclarationKind));
}

#[test]
fn empty_enum_gives_empty_module() {
    let text = expand(declaration("Never", Vec::new(), Body::Enum(Vec::new()))).unwrap();
    assert_eq!(
        text,
        "#[allow(proc_macro_derive_resolution_fallback)]\n#[allow(non_snake_case)]\nmod NeverB {\n    use super::*;\n}\n"
    );
}

fn bounded_generics() -> Vec<GenericParam> {
    vec![
        GenericParam::Lifetime { name: s("'a"), bounds: vec![s("'b")] },
        GenericParam::Lifetime { name: s("'b"), bounds: Vec::new() },
        GenericParam::Type { name: s("T"), bounds: vec![s("Clone"), s("std::fmt::Debug")] },
        GenericParam::Const { name: s("N"), ty: s("usize") },
    ]
}

#[test]
fn generic_parameters_with_bounds() {
    let gs = bounded_generics();
    assert_eq!(generics_decl_string(&gs), "<'a: 'b, 'b, T: Clone + std::fmt::Debug, const N: usize>");
    assert_eq!(generics_args_string(&gs), "<'a, 'b, T, N>");
    assert_eq!(generics_decl_string(&Vec::new()), "");
    assert_eq!(generics_args_string(&Vec::new()), "");
}

#[test]
fn every_function_carries_generics() {
    let mut d = declaration(
        "Wrap",
        bounded_generics(),
        Body::Enum(vec![
            unit("Nothing"),
            Variant { name: s("One"), fields: Fields::Positional(vec![s("&'a [T; N]")]) },
        ]),
    );
    d.where_predicates = vec![s("T: Default")];
    let text = expand(d).unwrap();
    assert!(text.contains("    pub(super) fn Nothing<'a: 'b, 'b, T: Clone + std::fmt::Debug, const N: usize>() -> Box<Wrap<'a, 'b, T, N>> where T: Default { Box::new(Wrap::Nothing) }\n"));
    assert!(text.contains("    pub(super) fn One<'a: 'b, 'b, T: Clone + std::fmt::Debug, const N: usize>(field0: &'a [T; N]) -> Box<Wrap<'a, 'b, T, N>> where T: Default { Box::new(Wrap::One(field0)) }\n"));
}

#[test]
fn where_clause_text() {
    assert_eq!(where_string(&Vec::new()), "");
    assert_eq!(where_string(&vec![s("T: Copy"), s("U: Eq")]), " where T: Copy, U: Eq");
}

#[test]
fn join_with_separator() {
    assert_eq!(join_strings(&Vec::new(), ", "), "");
    assert_eq!(join_strings(&vec![s("a")], ", "), "a");
    assert_eq!(join_strings(&vec![s("a"), s("b"), s("c")], " + "), "a + b + c");
}

#[test]
fn distinct_constructions_for_hello() {
    let d = Declaration {
        name: s("Hello"),
        generics: Vec::new(),
        where_predicates: Vec::new(),
        body: Body::Enum(vec![
            Variant { name: s("StringRef"), fields: Fields::Positional(vec![s("&'a str")]) },
            Variant { name: s("Vector"), fields: Fields::Positional(vec![s("Vec<T>")]) },
            Variant { name: s("It"), fields: Fields::Positional(vec![s("I"), s("I")]) },
        ]),
    };
    let text = expand(d).unwrap();
    assert!(text.contains("Box::new(Hello::StringRef(field0))"));
    assert!(text.contains("Box::new(Hello::Vector(field0))"));
    assert!(text.contains("Box::new(Hello::It(field0, field1))"));
}
