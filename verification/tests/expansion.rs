use std::str::FromStr;

use proc_macro2::TokenStream;
use rustdict::code::{Elem, GeneratedCode};
use rustdict::record::{
    describe, ExpandError, FieldDescriptor, Generics, RawField, RecordDescriptor, TypeExpr,
};
use rustdict::{derive_rustdict, expand, expand_declared, generated_source};

fn tokens(source: &str) -> TokenStream {
    TokenStream::from_str(source).unwrap()
}

fn derived(source: &str) -> GeneratedCode {
    derive_rustdict(tokens(source)).unwrap().unwrap()
}

fn same_tokens(left: &str, right: &str) -> bool {
    tokens(left).to_string() == tokens(right).to_string()
}

fn strings(items: &[&str]) -> Vec<String> {
    items.iter().map(|s| s.to_string()).collect()
}

fn generics(params: &str, args: &str) -> Generics {
    Generics { params: params.to_string(), args: args.to_string() }
}

fn spelled_raw(name: &str, tokens: &str, source: &str) -> RawField {
    RawField {
        name: Some(name.to_string()),
        tokens: tokens.to_string(),
        source: Some(source.to_string()),
    }
}

fn described(raw: &[RawField]) -> GeneratedCode {
    let raw: Vec<RawField> = raw
        .iter()
        .map(|f| RawField { name: f.name.clone(), tokens: f.tokens.clone(), source: f.source.clone() })
        .collect();
    let record = describe("Test".to_string(), generics("", ""), None, &raw).unwrap();
    expand(&record).unwrap()
}

#[test]
fn derive_reads_name_and_fields() {
    let code = derived("struct Test { a: u8, b: u8 }");
    assert_eq!(code.target, "Test");
    assert_eq!(code.generics, generics("", ""));
    assert_eq!(code.where_clause, None);
    assert_eq!(code.keys.names, strings(&["a", "b"]));
    assert_eq!(code.values.fields, strings(&["a", "b"]));
    assert_eq!(code.get.fields, strings(&["a", "b"]));
    assert_eq!(code.set.fields, strings(&["a", "b"]));
    assert_eq!(code.set.types, strings(&["u8", "u8"]));
}

#[test]
fn derive_of_uniform_record_uses_common_type() {
    let code = derived("struct Test { a: u8, b: u8 }");
    assert_eq!(code.values.elem, Elem::Common("u8".to_string()));
    assert_eq!(code.get.elem, Elem::Common("u8".to_string()));
    assert_eq!(code.set.elem, Elem::Common("u8".to_string()));
    let ops = code.index.expect("a uniform record has the subscripts");
    assert_eq!(ops.target, "Test");
    assert_eq!(ops.output, "u8");
    assert_eq!(ops.fields, strings(&["a", "b"]));
}

#[test]
fn derive_finds_no_spelling_outside_a_macro() {
    let code = derived("struct Test { a: u16, b: u8 }");
    assert_eq!(code.get.elem, Elem::Common("u16".to_string()));
    assert_eq!(code.set.types, strings(&["u16", "u8"]));
    assert!(code.index.is_some());
}

#[test]
fn mixed_record_uses_any() {
    let code = described(&[spelled_raw("a", "u16", "u16"), spelled_raw("b", "u8", "u8")]);
    assert_eq!(code.values.elem, Elem::Any);
    assert_eq!(code.get.elem, Elem::Any);
    assert_eq!(code.set.elem, Elem::Any);
    assert_eq!(code.set.types, strings(&["u16", "u8"]));
    assert!(code.index.is_none());
}

#[test]
fn derive_of_record_without_fields_is_empty() {
    let braces = derive_rustdict(tokens("struct Empty {}")).unwrap();
    assert!(braces.is_none());
    assert_eq!(generated_source(&braces), "");
    let unit = derive_rustdict(tokens("struct Unit;")).unwrap();
    assert!(unit.is_none());
    let round = derive_rustdict(tokens("struct Round();")).unwrap();
    assert!(round.is_none());
}

#[test]
fn derive_of_single_field_is_uniform() {
    let code = derived("struct One { only: Vec<String> }");
    assert_eq!(code.get.elem, Elem::Common("Vec < String >".to_string()));
    assert!(code.index.is_some());
}

#[test]
fn derive_refuses_what_is_no_record() {
    match derive_rustdict(tokens("enum E { A, B }")) {
        Err(ExpandError::Malformed(message)) => assert!(!message.is_empty()),
        other => panic!("unexpected outcome: {:?}", other),
    }
    assert!(matches!(derive_rustdict(tokens("fn f() {}")), Err(ExpandError::Malformed(_))));
    assert!(matches!(derive_rustdict(tokens("")), Err(ExpandError::Malformed(_))));
}

#[test]
fn derive_refuses_unnamed_fields() {
    assert_eq!(
        derive_rustdict(tokens("struct Pair(u8, u16);")).unwrap_err(),
        ExpandError::UnnamedField
    );
}

#[test]
fn types_are_compared_by_spelling() {
    let same = described(&[
        spelled_raw("a", "Vec < u8 >", "Vec<u8>"),
        spelled_raw("b", "Vec < u8 >", "Vec<u8>"),
    ]);
    assert!(same.index.is_some());
    assert_eq!(same.get.elem, Elem::Common("Vec < u8 >".to_string()));
    let spaced = described(&[
        spelled_raw("a", "Vec < u8 >", "Vec<u8>"),
        spelled_raw("b", "Vec < u8 >", "Vec< u8 >"),
    ]);
    assert!(spaced.index.is_none());
    assert_eq!(spaced.get.elem, Elem::Any);
    let other = described(&[
        spelled_raw("a", "Vec < u8 >", "Vec<u8>"),
        spelled_raw("b", "Vec < u16 >", "Vec<u16>"),
    ]);
    assert!(other.index.is_none());
    let alias = described(&[
        spelled_raw("a", "u8", "u8"),
        spelled_raw("b", "std :: primitive :: u8", "std::primitive::u8"),
    ]);
    assert!(alias.index.is_none());
}

#[test]
fn derive_reads_generics_and_where_clause() {
    let code = derived("struct Pair<T> where T: Clone { left: T, right: T }");
    assert_eq!(code.target, "Pair");
    assert_eq!(code.generics, generics("< T >", "< T >"));
    assert_eq!(code.where_clause, Some("where T : Clone".to_string()));
    let ops = code.index.unwrap();
    assert_eq!(ops.generics, generics("< T >", "< T >"));
    assert_eq!(ops.where_clause, Some("where T : Clone".to_string()));
    assert_eq!(ops.output, "T");
}

#[test]
fn source_of_uniform_record() {
    let code = derive_rustdict(tokens("struct Test { a: u8, b: u8 }")).unwrap();
    let expected = "impl  Test   { \
        pub fn keys() -> Vec<&'static str> { vec![stringify!(a), stringify!(b)] } \
        pub fn values(&self) -> Vec<& u8 > { vec![&self.a, &self.b] } \
        pub fn get(&self, key: &str) -> & u8 { match key { \
        stringify!(a) => &self.a, stringify!(b) => &self.b, _ => panic!(\"不存在的key\") } } \
        pub fn set(&mut self, key: &str, value: u8) { match key { \
        stringify!(a) => { self.a = value; }, stringify!(b) => { self.b = value; }, \
        _ => panic!(\"不存在的key\") } } } \
        impl  core::ops::Index<&str> for Test   { type Output = u8; \
        fn index(&self, index: &str) -> &Self::Output { match index { \
        stringify!(a) => &self.a, stringify!(b) => &self.b, _ => panic!(\"不存在的key\"), } } } \
        impl  core::ops::IndexMut<&str> for Test   { \
        fn index_mut(&mut self, index: &str) -> &mut Self::Output { match index { \
        stringify!(a) => &mut self.a, stringify!(b) => &mut self.b, \
        _ => panic!(\"不存在的key\"), } } }";
    assert_eq!(generated_source(&code), expected);
}

#[test]
fn derive_keeps_bounds_before_the_name_only() {
    let code = derived("struct P<T: Clone> { x: T, y: T }");
    assert_eq!(code.generics, generics("< T : Clone >", "< T >"));
    let source = code.to_source();
    assert!(source.starts_with("impl < T : Clone > P < T >  { pub fn keys()"));
    assert!(source.contains("} impl < T : Clone > core::ops::Index<&str> for P < T >  { type"));
    assert!(source.contains("} impl < T : Clone > core::ops::IndexMut<&str> for P < T >  { fn"));
    assert!(!source.contains("P < T : Clone >"));
}

#[test]
fn derive_leaves_defaults_out_and_names_every_parameter() {
    let code = derived(
        "struct A<'a, T: 'a + Clone = u8, const N: usize = 4> where T: Copy { x: &'a [T; N] }",
    );
    assert_eq!(code.generics.params, "< 'a , T : 'a + Clone , const N : usize >");
    assert_eq!(code.generics.args, "< 'a , T , N >");
    assert_eq!(code.where_clause, Some("where T : Copy".to_string()));
    assert!(code.to_source().starts_with(
        "impl < 'a , T : 'a + Clone , const N : usize > A < 'a , T , N > where T : Copy { "
    ));
}

#[test]
fn source_of_mixed_record() {
    let code =
        Some(described(&[spelled_raw("a", "u16", "u16"), spelled_raw("b", "u8", "u8")]));
    let expected = "impl  Test   { \
        pub fn keys() -> Vec<&'static str> { vec![stringify!(a), stringify!(b)] } \
        pub fn values(&self) -> Vec<& dyn ::core::any::Any > { vec![&self.a, &self.b] } \
        pub fn get(&self, key: &str) -> & dyn ::core::any::Any { match key { \
        stringify!(a) => &self.a, stringify!(b) => &self.b, _ => panic!(\"不存在的key\") } } \
        pub fn set(&mut self, key: &str, value: &dyn ::core::any::Any) { match key { \
        stringify!(a) => { if let Some(value) = value.downcast_ref::<u16>() \
        { self.a.clone_from(value); } }, \
        stringify!(b) => { if let Some(value) = value.downcast_ref::<u8>() \
        { self.b.clone_from(value); } }, \
        _ => panic!(\"不存在的key\") } } } ";
    assert_eq!(generated_source(&code), expected);
}

#[test]
fn source_is_rust_that_can_be_read_back() {
    let code = derived("struct Pair<'a, T> where T: Clone { left: &'a T, right: &'a T }");
    let source = code.to_source();
    let file = syn::parse_str::<syn::File>(&source).unwrap();
    assert_eq!(file.items.len(), 3);
    let mixed =
        described(&[spelled_raw("a", "u16", "u16"), spelled_raw("b", "Vec < u8 >", "Vec<u8>")]);
    let file = syn::parse_str::<syn::File>(&mixed.to_source()).unwrap();
    assert_eq!(file.items.len(), 1);
}

#[test]
fn source_of_each_routine() {
    let code = derived("struct Test { a: u8 }");
    assert_eq!(
        code.keys.to_source(),
        "pub fn keys() -> Vec<&'static str> { vec![stringify!(a)] }"
    );
    assert_eq!(code.values.to_source(), "pub fn values(&self) -> Vec<& u8 > { vec![&self.a] }");
    assert_eq!(
        code.get.to_source(),
        "pub fn get(&self, key: &str) -> & u8 { match key { stringify!(a) => &self.a, \
         _ => panic!(\"不存在的key\") } }"
    );
    assert_eq!(
        code.set.to_source(),
        "pub fn set(&mut self, key: &str, value: u8) { match key { \
         stringify!(a) => { self.a = value; }, _ => panic!(\"不存在的key\") } }"
    );
    assert!(same_tokens(
        &code.index.unwrap().to_source(),
        "impl core::ops::Index<&str> for Test { type Output = u8; \
         fn index(&self, index: &str) -> &Self::Output { \
         match index { stringify!(a) => &self.a, _ => panic!(\"不存在的key\"), } } } \
         impl core::ops::IndexMut<&str> for Test { \
         fn index_mut(&mut self, index: &str) -> &mut Self::Output { \
         match index { stringify!(a) => &mut self.a, _ => panic!(\"不存在的key\"), } } }"
    ));
}

#[test]
fn describe_keeps_the_declaration() {
    let raw = vec![
        RawField { name: Some("a".to_string()), tokens: "u8".to_string(), source: None },
        RawField {
            name: Some("b".to_string()),
            tokens: "u16".to_string(),
            source: Some("u16".to_string()),
        },
    ];
    let record =
        describe("R".to_string(), generics("< T : Copy >", "< T >"), None, &raw).unwrap();
    assert_eq!(
        record,
        RecordDescriptor {
            name: "R".to_string(),
            generics: generics("< T : Copy >", "< T >"),
            where_clause: None,
            fields: vec![
                FieldDescriptor {
                    name: "a".to_string(),
                    ty: TypeExpr { tokens: "u8".to_string(), source: None },
                },
                FieldDescriptor {
                    name: "b".to_string(),
                    ty: TypeExpr { tokens: "u16".to_string(), source: Some("u16".to_string()) },
                },
            ],
        }
    );
    assert_eq!(record.idents(), strings(&["a", "b"]));
    assert_eq!(record.types().len(), 2);
}

#[test]
fn describe_refuses_a_field_without_name() {
    let raw = vec![
        RawField { name: Some("a".to_string()), tokens: "u8".to_string(), source: None },
        RawField { name: None, tokens: "u8".to_string(), source: None },
    ];
    assert_eq!(
        describe("R".to_string(), generics("", ""), None, &raw),
        Err(ExpandError::UnnamedField)
    );
}

#[test]
fn expand_of_described_record() {
    let record = RecordDescriptor {
        name: "R".to_string(),
        generics: generics("", ""),
        where_clause: None,
        fields: vec![FieldDescriptor {
            name: "x".to_string(),
            ty: TypeExpr { tokens: "i32".to_string(), source: Some("i32".to_string()) },
        }],
    };
    let code = expand(&record).unwrap();
    assert_eq!(code.keys.names, strings(&["x"]));
    assert_eq!(code.get.elem, Elem::Common("i32".to_string()));
    assert!(code.index.is_some());
    let empty = RecordDescriptor {
        name: "R".to_string(),
        generics: generics("", ""),
        where_clause: None,
        fields: vec![],
    };
    assert!(expand(&empty).is_none());
}

fn fields_of(source: &str) -> syn::Fields {
    syn::parse_str::<syn::ItemStruct>(source).unwrap().fields
}

#[test]
fn expand_declared_takes_names_and_types_in_order() {
    let fields = fields_of("struct S { z: u16, a: Vec<u8>, m: &'static str }");
    let code = expand_declared("S".to_string(), generics("", ""), None, &fields).unwrap().unwrap();
    assert_eq!(code.target, "S");
    assert_eq!(code.keys.names, strings(&["z", "a", "m"]));
    assert_eq!(code.values.fields, strings(&["z", "a", "m"]));
    assert_eq!(code.get.fields, strings(&["z", "a", "m"]));
    assert_eq!(code.set.fields, strings(&["z", "a", "m"]));
    assert_eq!(code.set.types, strings(&["u16", "Vec < u8 >", "& 'static str"]));
}

#[test]
fn expand_declared_keeps_the_given_parts() {
    let fields = fields_of("struct S { a: T, b: T }");
    let code = expand_declared(
        "Pair".to_string(),
        generics("< T : Clone >", "< T >"),
        Some("where T : Copy".to_string()),
        &fields,
    )
    .unwrap()
    .unwrap();
    assert_eq!(code.target, "Pair");
    assert_eq!(code.generics, generics("< T : Clone >", "< T >"));
    assert_eq!(code.where_clause, Some("where T : Copy".to_string()));
    assert_eq!(code.get.elem, Elem::Common("T".to_string()));
    assert!(code.to_source().starts_with("impl < T : Clone > Pair < T > where T : Copy { "));
}

#[test]
fn expand_declared_of_no_fields_is_nothing() {
    for source in ["struct S {}", "struct S;", "struct S();"] {
        let fields = fields_of(source);
        assert_eq!(expand_declared("S".to_string(), generics("", ""), None, &fields), Ok(None));
    }
}

#[test]
fn expand_declared_refuses_a_field_without_name() {
    for source in ["struct S(u8);", "struct S(u8, u16, u8);"] {
        let fields = fields_of(source);
        assert_eq!(
            expand_declared("S".to_string(), generics("", ""), None, &fields),
            Err(ExpandError::UnnamedField)
        );
    }
}
