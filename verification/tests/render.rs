use typeglue::conversion::{Conversion, Direction, Layout, Member};
use typeglue::derive_glue;
use typeglue::diagnostic::Diagnostic;
use typeglue::model::{
    Annotation, Declaration, Field, GenericKind, GenericParameter, Shape, Variant,
};
use typeglue::render::render_all;
use typeglue::text::append_decimal;

fn field(name: Option<&str>, ty: &str, excluded: bool) -> Field {
    let annotations = if excluded {
        vec![Annotation { key: "glue".to_string(), arguments: Some("ignore".to_string()) }]
    } else {
        vec![]
    };
    Field { name: name.map(|n| n.to_string()), ty: ty.to_string(), annotations }
}

fn generic(kind: GenericKind, text: &str) -> GenericParameter {
    GenericParameter { kind, text: text.to_string() }
}

fn rendered(declaration: &Declaration) -> Vec<String> {
    let mut log: Vec<Diagnostic> = Vec::new();
    let conversions = derive_glue(declaration, &mut log).expect("no fatal diagnostic");
    assert!(log.is_empty());
    conversions.iter().map(|c| c.render()).collect()
}

/// The generated text is a sequence of implementations that `syn` accepts.
fn count_impls(text: &str) -> usize {
    let file = syn::parse_str::<syn::File>(text).expect("valid source text");
    file.items.iter().filter(|item| matches!(item, syn::Item::Impl(_))).count()
}

#[test]
fn renders_single_named_field_both_ways() {
    let declaration = Declaration {
        name: "Person".to_string(),
        generics: vec![],
        shape: Shape::NamedRecord(vec![field(Some("name"), "String", false)]),
    };
    assert_eq!(
        rendered(&declaration),
        vec![
            "impl<> From<String> for Person<> { fn from(value: String) -> Self { Self { name: value } } }",
            "impl<> From<Person<>> for String { fn from(value: Person<>) -> Self { value.name } }",
        ]
    );
}

#[test]
fn renders_several_named_fields_as_construction_only() {
    let declaration = Declaration {
        name: "Xyz".to_string(),
        generics: vec![],
        shape: Shape::NamedRecord(vec![
            field(Some("x"), "i32", false),
            field(Some("y"), "i32", false),
            field(Some("z"), "i32", false),
        ]),
    };
    assert_eq!(
        rendered(&declaration),
        vec![
            "impl<> From<(i32, i32, i32)> for Xyz<> { fn from(value: (i32, i32, i32)) -> Self { Self { x: value.0, y: value.1, z: value.2 } } }",
        ]
    );
}

#[test]
fn renders_defaults_after_the_active_fields() {
    let declaration = Declaration {
        name: "Entry".to_string(),
        generics: vec![],
        shape: Shape::NamedRecord(vec![
            field(Some("id"), "u64", true),
            field(Some("key"), "String", false),
            field(Some("hits"), "u32", true),
            field(Some("value"), "String", false),
        ]),
    };
    assert_eq!(
        rendered(&declaration),
        vec![
            "impl<> From<(String, String)> for Entry<> where Entry<>: ::core::default::Default { fn from(value: (String, String)) -> Self { Self { key: value.0, value: value.1, id: ::core::default::Default::default(), hits: ::core::default::Default::default() } } }",
        ]
    );
}

#[test]
fn renders_single_active_field_beside_a_default() {
    let declaration = Declaration {
        name: "Cached".to_string(),
        generics: vec![],
        shape: Shape::NamedRecord(vec![
            field(Some("stamp"), "u64", true),
            field(Some("body"), "String", false),
        ]),
    };
    assert_eq!(
        rendered(&declaration),
        vec![
            "impl<> From<String> for Cached<> where Cached<>: ::core::default::Default { fn from(value: String) -> Self { Self { body: value, stamp: ::core::default::Default::default() } } }",
            "impl<> From<Cached<>> for String { fn from(value: Cached<>) -> Self { value.body } }",
        ]
    );
}

#[test]
fn renders_the_default_obligation_over_the_parameters() {
    let declaration = Declaration {
        name: "Tagged".to_string(),
        generics: vec![generic(GenericKind::Lifetime, "'a"), generic(GenericKind::Type, "T")],
        shape: Shape::NamedRecord(vec![
            field(Some("seen"), "bool", true),
            field(Some("item"), "&'a T", false),
        ]),
    };
    let texts = rendered(&declaration);
    assert_eq!(
        texts,
        vec![
            "impl<'a, T> From<&'a T> for Tagged<'a, T> where Tagged<'a, T>: ::core::default::Default { fn from(value: &'a T) -> Self { Self { item: value, seen: ::core::default::Default::default() } } }",
            "impl<'a, T> From<Tagged<'a, T>> for &'a T { fn from(value: Tagged<'a, T>) -> Self { value.item } }",
        ]
    );
    // The obligation is a clause of the implementation, over the target with
    // its parameters: the text is well formed, and the body holds no item.
    let file = syn::parse_str::<syn::File>(&texts[0]).expect("valid source text");
    match &file.items[..] {
        [syn::Item::Impl(item)] => {
            let clause = item.generics.where_clause.as_ref().expect("a where clause");
            assert_eq!(clause.predicates.len(), 1);
            match &item.items[..] {
                [syn::ImplItem::Fn(from)] => match &from.block.stmts[..] {
                    [syn::Stmt::Expr(syn::Expr::Struct(_), None)] => {}
                    _ => panic!("unexpected body"),
                },
                _ => panic!("unexpected items"),
            }
        }
        _ => panic!("unexpected file"),
    }
}

#[test]
fn renders_no_obligation_without_an_excluded_field() {
    let declaration = Declaration {
        name: "Plain".to_string(),
        generics: vec![generic(GenericKind::Type, "T")],
        shape: Shape::NamedRecord(vec![
            field(Some("a"), "T", false),
            field(Some("b"), "T", false),
        ]),
    };
    let texts = rendered(&declaration);
    assert_eq!(
        texts,
        vec![
            "impl<T> From<(T, T)> for Plain<T> { fn from(value: (T, T)) -> Self { Self { a: value.0, b: value.1 } } }",
        ]
    );
    let file = syn::parse_str::<syn::File>(&texts[0]).expect("valid source text");
    match &file.items[..] {
        [syn::Item::Impl(item)] => assert!(item.generics.where_clause.is_none()),
        _ => panic!("unexpected file"),
    }
}

#[test]
fn renders_generic_positional_record() {
    let declaration = Declaration {
        name: "List".to_string(),
        generics: vec![generic(GenericKind::Lifetime, "'a"), generic(GenericKind::Type, "T")],
        shape: Shape::PositionalRecord(vec![field(None, "&'a [T]", false)]),
    };
    assert_eq!(
        rendered(&declaration),
        vec![
            "impl<'a, T> From<&'a [T]> for List<'a, T> { fn from(value: &'a [T]) -> Self { Self(value) } }",
            "impl<'a, T> From<List<'a, T>> for &'a [T] { fn from(value: List<'a, T>) -> Self { value.0 } }",
        ]
    );
}

#[test]
fn renders_several_positional_fields() {
    let declaration = Declaration {
        name: "Ticker".to_string(),
        generics: vec![],
        shape: Shape::PositionalRecord(vec![
            field(None, "String", false),
            field(None, "i32", false),
        ]),
    };
    assert_eq!(
        rendered(&declaration),
        vec![
            "impl<> From<(String, i32)> for Ticker<> { fn from(value: (String, i32)) -> Self { Self(value.0, value.1) } }",
        ]
    );
}

#[test]
fn renders_positional_record_without_fields_from_the_empty_tuple() {
    let declaration = Declaration {
        name: "Marker".to_string(),
        generics: vec![],
        shape: Shape::PositionalRecord(vec![]),
    };
    assert_eq!(
        rendered(&declaration),
        vec!["impl<> From<()> for Marker<> { fn from(value: ()) -> Self { Self() } }"]
    );
}

#[test]
fn renders_one_construction_for_each_variant() {
    let declaration = Declaration {
        name: "Shape".to_string(),
        generics: vec![],
        shape: Shape::UnionType(vec![
            Variant { name: "Radius".to_string(), named: false, payload: vec!["f64".to_string()] },
            Variant {
                name: "Sides".to_string(),
                named: false,
                payload: vec!["u32".to_string(), "u32".to_string()],
            },
        ]),
    };
    let mut log: Vec<Diagnostic> = Vec::new();
    let conversions = derive_glue(&declaration, &mut log).unwrap();
    assert!(log.is_empty());
    let text = render_all(&conversions);
    assert_eq!(
        text,
        "impl<> From<f64> for Shape<> { fn from(value: f64) -> Self { Self::Radius(value) } }\n\
         impl<> From<(u32, u32)> for Shape<> { fn from(value: (u32, u32)) -> Self { Self::Sides(value.0, value.1) } }"
    );
    assert_eq!(count_impls(&text), 2);
}

#[test]
fn renders_positions_beyond_nine_in_decimal() {
    let fields: Vec<Field> = (0..12).map(|_| field(None, "u8", false)).collect();
    let declaration = Declaration {
        name: "Wide".to_string(),
        generics: vec![],
        shape: Shape::PositionalRecord(fields),
    };
    let text = rendered(&declaration).remove(0);
    assert!(text.ends_with(
        "{ Self(value.0, value.1, value.2, value.3, value.4, value.5, value.6, value.7, value.8, value.9, value.10, value.11) } }"
    ));
    assert_eq!(count_impls(&text), 1);
}

#[test]
fn appends_decimal_numerals() {
    let mut out = String::from("n=");
    append_decimal(&mut out, 0);
    out.push(' ');
    append_decimal(&mut out, 7);
    out.push(' ');
    append_decimal(&mut out, 10);
    out.push(' ');
    append_decimal(&mut out, 4096);
    out.push(' ');
    append_decimal(&mut out, usize::MAX);
    assert_eq!(out, format!("n=0 7 10 4096 {}", usize::MAX));
}

#[test]
fn rendered_records_are_valid_source_text() {
    let declaration = Declaration {
        name: "Cached".to_string(),
        generics: vec![],
        shape: Shape::NamedRecord(vec![
            field(Some("stamp"), "u64", true),
            field(Some("body"), "String", false),
        ]),
    };
    let mut log: Vec<Diagnostic> = Vec::new();
    let conversions = derive_glue(&declaration, &mut log).unwrap();
    assert_eq!(count_impls(&render_all(&conversions)), 2);
}

#[test]
fn renders_nothing_for_no_conversion() {
    assert_eq!(render_all(&Vec::new()), "");
}

#[test]
fn renders_extraction_of_a_later_position() {
    let conversion = Conversion {
        direction: Direction::Extract,
        target: "Pair".to_string(),
        generics: vec![],
        layout: Layout::Positional,
        members: vec![
            Member { name: None, ty: "u8".to_string(), excluded: true },
            Member { name: None, ty: "u16".to_string(), excluded: false },
        ],
    };
    assert_eq!(conversion.first_active_position(), 1);
    assert_eq!(
        conversion.render(),
        "impl<> From<Pair<>> for u16 { fn from(value: Pair<>) -> Self { value.1 } }"
    );
}

#[test]
fn generation_is_deterministic() {
    let declaration = Declaration {
        name: "Entry".to_string(),
        generics: vec![generic(GenericKind::Type, "K")],
        shape: Shape::NamedRecord(vec![
            field(Some("id"), "u64", true),
            field(Some("key"), "K", false),
            Field {
                name: Some("note".to_string()),
                ty: "String".to_string(),
                annotations: vec![Annotation { key: "glue".to_string(), arguments: None }],
            },
        ]),
    };
    let again = declaration.clone();
    let mut first_log: Vec<Diagnostic> = Vec::new();
    let mut second_log: Vec<Diagnostic> = Vec::new();
    let first = derive_glue(&declaration, &mut first_log).unwrap();
    let second = derive_glue(&again, &mut second_log).unwrap();
    assert_eq!(render_all(&first).into_bytes(), render_all(&second).into_bytes());
    assert_eq!(first_log, second_log);
    assert_eq!(first_log.len(), 1);
}
