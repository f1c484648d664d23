use typeglue::conversion::{Conversion, Direction, Instance, InstanceField, Layout, Member, Slot};
use typeglue::derive_glue;
use typeglue::diagnostic::Diagnostic;
use typeglue::model::{Annotation, Declaration, Field, Shape};

fn field(name: &str, ty: &str, excluded: bool) -> Field {
    let annotations = if excluded {
        vec![Annotation { key: "glue".to_string(), arguments: Some("ignore".to_string()) }]
    } else {
        vec![]
    };
    Field { name: Some(name.to_string()), ty: ty.to_string(), annotations }
}

fn generate(name: &str, shape: Shape) -> Vec<Conversion> {
    let declaration = Declaration { name: name.to_string(), generics: vec![], shape };
    let mut log: Vec<Diagnostic> = Vec::new();
    let conversions = derive_glue(&declaration, &mut log).unwrap();
    assert!(log.is_empty());
    conversions
}

fn cached() -> Vec<Conversion> {
    generate(
        "Cached",
        Shape::NamedRecord(vec![
            field("stamp", "u64", true),
            field("body", "String", false),
            field("hits", "u32", true),
        ]),
    )
}

fn slot(name: &str, value: Slot<&'static str>) -> InstanceField<&'static str> {
    InstanceField { name: Some(name.to_string()), value }
}

#[test]
fn excluded_fields_are_filled_by_default() {
    let conversions = cached();
    assert_eq!(conversions.len(), 2);
    assert_eq!(conversions[0].arity(), 1);
    assert!(conversions[0].needs_default());
    assert_eq!(conversions[0].source_types(), vec!["String".to_string()]);
    let built = conversions[0].construct(vec!["page"]).unwrap();
    assert_eq!(
        built,
        Instance {
            target: "Cached".to_string(),
            variant: None,
            fields: vec![
                slot("stamp", Slot::Defaulted),
                slot("body", Slot::Supplied("page")),
                slot("hits", Slot::Defaulted),
            ],
        }
    );
}

#[test]
fn extraction_gives_the_constructed_value_back() {
    let conversions = cached();
    for value in ["", "page", "another page"] {
        let built = conversions[0].construct(vec![value]).unwrap();
        assert_eq!(conversions[1].extract(built), Some(value));
    }
}

#[test]
fn construction_gives_the_extracted_instance_back() {
    let conversions = cached();
    let instance = Instance {
        target: "Cached".to_string(),
        variant: None,
        fields: vec![
            slot("stamp", Slot::Defaulted),
            slot("body", Slot::Supplied("page")),
            slot("hits", Slot::Defaulted),
        ],
    };
    let read = conversions[1].extract(instance.clone()).unwrap();
    assert_eq!(conversions[0].construct(vec![read]), Some(instance));
}

#[test]
fn excluded_field_that_differs_is_not_restored() {
    let conversions = cached();
    let instance = Instance {
        target: "Cached".to_string(),
        variant: None,
        fields: vec![
            slot("stamp", Slot::Supplied("now")),
            slot("body", Slot::Supplied("page")),
            slot("hits", Slot::Defaulted),
        ],
    };
    let read = conversions[1].extract(instance.clone()).unwrap();
    assert_eq!(read, "page");
    assert_ne!(conversions[0].construct(vec![read]), Some(instance));
}

#[test]
fn values_go_to_the_active_fields_in_declaration_order() {
    let conversions = generate(
        "Row",
        Shape::NamedRecord(vec![
            field("a", "u8", false),
            field("skipped", "u8", true),
            field("b", "u8", false),
            field("c", "u8", false),
        ]),
    );
    assert_eq!(conversions.len(), 1);
    assert_eq!(conversions[0].arity(), 3);
    let built = conversions[0].construct(vec![10, 20, 30]).unwrap();
    let values: Vec<Slot<i32>> = built.fields.into_iter().map(|f| f.value).collect();
    assert_eq!(
        values,
        vec![Slot::Supplied(10), Slot::Defaulted, Slot::Supplied(20), Slot::Supplied(30)]
    );
}

#[test]
fn construction_asks_for_as_many_values_as_active_fields() {
    let conversions = cached();
    assert_eq!(conversions[0].construct(Vec::<&str>::new()), None);
    assert_eq!(conversions[0].construct(vec!["a", "b"]), None);
}

#[test]
fn extraction_does_not_construct() {
    let conversions = cached();
    assert_eq!(conversions[1].direction, Direction::Extract);
    assert_eq!(conversions[1].construct(vec!["page"]), None);
}

#[test]
fn construction_does_not_extract() {
    let conversions = cached();
    let built = conversions[0].construct(vec!["page"]).unwrap();
    assert_eq!(conversions[0].extract(built), None);
}

#[test]
fn extraction_reads_only_fitting_instances() {
    let conversions = cached();
    let built = conversions[0].construct(vec!["page"]).unwrap();
    assert!(conversions[1].fits(&built));

    let mut renamed = built.clone();
    renamed.target = "Other".to_string();
    assert!(!conversions[1].fits(&renamed));
    assert_eq!(conversions[1].extract(renamed), None);

    let mut tagged = built.clone();
    tagged.variant = Some("Cached".to_string());
    assert_eq!(conversions[1].extract(tagged), None);

    let mut shorter = built.clone();
    shorter.fields.pop();
    assert_eq!(conversions[1].extract(shorter), None);

    let mut unset = built.clone();
    unset.fields[1].value = Slot::Defaulted;
    assert!(conversions[1].fits(&unset));
    assert_eq!(conversions[1].extract(unset), None);
}

#[test]
fn extraction_needs_a_single_active_member() {
    let member = |excluded| Member { name: None, ty: "u8".to_string(), excluded };
    let conversion = |members| Conversion {
        direction: Direction::Extract,
        target: "T".to_string(),
        generics: vec![],
        layout: Layout::Positional,
        members,
    };
    let instance = |n: usize| Instance {
        target: "T".to_string(),
        variant: None,
        fields: (0..n).map(|i| InstanceField { name: None, value: Slot::Supplied(i) }).collect(),
    };
    assert_eq!(conversion(vec![]).extract(instance(0)), None);
    assert_eq!(conversion(vec![member(true)]).extract(instance(1)), None);
    assert_eq!(conversion(vec![member(false), member(false)]).extract(instance(2)), None);
    assert_eq!(conversion(vec![member(true), member(false)]).extract(instance(2)), Some(1));
}

#[test]
fn variant_instances_carry_their_tag() {
    let conversion = Conversion {
        direction: Direction::Construct,
        target: "Number".to_string(),
        generics: vec![],
        layout: Layout::Variant("Int".to_string()),
        members: vec![Member { name: None, ty: "i32".to_string(), excluded: false }],
    };
    let built = conversion.construct(vec![1]).unwrap();
    assert_eq!(built.variant.as_deref(), Some("Int"));
    assert!(conversion.fits(&built));
    let mut other = built.clone();
    other.variant = Some("Float".to_string());
    assert!(!conversion.fits(&other));
    other.variant = None;
    assert!(!conversion.fits(&other));
}

#[test]
fn positional_record_without_fields_is_built_from_no_value() {
    let conversions = generate("Marker", Shape::PositionalRecord(vec![]));
    assert_eq!(conversions.len(), 1);
    assert_eq!(conversions[0].arity(), 0);
    let built = conversions[0].construct(Vec::<u8>::new()).unwrap();
    assert!(built.fields.is_empty());
    assert_eq!(built.target, "Marker");
}
