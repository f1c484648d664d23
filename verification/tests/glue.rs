use typeglue::conversion::{Conversion, Direction, Instance, Slot};
use typeglue::derive_glue;
use typeglue::diagnostic::Diagnostic;
use typeglue::model::{Declaration, Field, GenericKind, GenericParameter, Shape, Variant};

/// The values that the declared types of these tests hold.
#[derive(Clone, Debug, PartialEq)]
enum Value {
    Int(i32),
    Float(f32),
    Text(String),
    Texts(Vec<String>),
    Ints(Vec<i32>),
}

fn named(name: &str, ty: &str) -> Field {
    Field { name: Some(name.to_string()), ty: ty.to_string(), annotations: vec![] }
}

fn positional(ty: &str) -> Field {
    Field { name: None, ty: ty.to_string(), annotations: vec![] }
}

fn variant(name: &str, payload: &[&str]) -> Variant {
    Variant {
        name: name.to_string(),
        named: false,
        payload: payload.iter().map(|ty| ty.to_string()).collect(),
    }
}

fn declaration(name: &str, shape: Shape) -> Declaration {
    Declaration { name: name.to_string(), generics: vec![], shape }
}

/// Generates for a declaration that is expected to be accepted without any
/// diagnostic.
fn generate(declaration: &Declaration) -> Vec<Conversion> {
    let mut log: Vec<Diagnostic> = Vec::new();
    let conversions = derive_glue(declaration, &mut log).expect("no fatal diagnostic");
    assert!(log.is_empty());
    conversions
}

/// The construction that takes values of the given types, as the host picks
/// an implementation by the type of the argument.
fn construction_from<'a>(conversions: &'a [Conversion], types: &[&str]) -> &'a Conversion {
    let wanted: Vec<String> = types.iter().map(|ty| ty.to_string()).collect();
    let mut found = conversions
        .iter()
        .filter(|c| c.direction == Direction::Construct && c.source_types() == wanted);
    let conversion = found.next().expect("a construction from these types");
    assert!(found.next().is_none());
    conversion
}

fn extraction(conversions: &[Conversion]) -> &Conversion {
    let mut found = conversions.iter().filter(|c| c.direction == Direction::Extract);
    let conversion = found.next().expect("an extraction");
    assert!(found.next().is_none());
    conversion
}

fn field<'a>(instance: &'a Instance<Value>, name: &str) -> &'a Slot<Value> {
    let mut found = instance.fields.iter().filter(|f| f.name.as_deref() == Some(name));
    let field = found.next().expect("a field of this name");
    assert!(found.next().is_none());
    &field.value
}

fn person() -> Declaration {
    declaration("Person", Shape::NamedRecord(vec![named("name", "String")]))
}

#[test]
fn test_glue_basic() {
    let conversions = generate(&person());
    let person = construction_from(&conversions, &["String"])
        .construct(vec![Value::Text("John".to_string())])
        .unwrap();
    assert_eq!(field(&person, "name"), &Slot::Supplied(Value::Text("John".to_string())));
}

#[test]
fn test_glue_backwards() {
    let conversions = generate(&person());
    let name = Value::Text(String::from("John"));
    let person = construction_from(&conversions, &["String"]).construct(vec![name]).unwrap();

    let person_name = extraction(&conversions).extract(person);
    assert_eq!(person_name, Some(Value::Text("John".to_string())));
}

#[test]
fn test_glue_multifield() {
    let xyz = declaration(
        "Xyz",
        Shape::NamedRecord(vec![named("x", "i32"), named("y", "i32"), named("z", "i32")]),
    );
    let conversions = generate(&xyz);
    let point = construction_from(&conversions, &["i32", "i32", "i32"])
        .construct(vec![Value::Int(1), Value::Int(2), Value::Int(3)])
        .unwrap();

    assert_eq!(field(&point, "x"), &Slot::Supplied(Value::Int(1)));
    assert_eq!(field(&point, "y"), &Slot::Supplied(Value::Int(2)));
    assert_eq!(field(&point, "z"), &Slot::Supplied(Value::Int(3)));
}

#[test]
fn test_glue_tuple() {
    let log = declaration("Log", Shape::PositionalRecord(vec![positional("Vec<String>")]));
    let conversions = generate(&log);
    let log = construction_from(&conversions, &["Vec<String>"])
        .construct(vec![Value::Texts(vec!["Hello".to_string(), "World".to_string()])])
        .unwrap();

    match &log.fields[0].value {
        Slot::Supplied(Value::Texts(lines)) => {
            assert_eq!(lines[0], "Hello");
            assert_eq!(lines[1], "World");
        }
        other => panic!("unexpected field: {:?}", other),
    }
}

#[test]
fn test_glue_tuple_multifield() {
    let ticker = declaration(
        "Ticker",
        Shape::PositionalRecord(vec![positional("String"), positional("i32")]),
    );
    let conversions = generate(&ticker);
    let ticker = construction_from(&conversions, &["String", "i32"])
        .construct(vec![Value::Text("AAPL".to_string()), Value::Int(0)])
        .unwrap();

    assert_eq!(ticker.fields[0].value, Slot::Supplied(Value::Text("AAPL".to_string())));
    assert_eq!(ticker.fields[1].value, Slot::Supplied(Value::Int(0)));
}

#[test]
fn test_glue_generic() {
    let list = Declaration {
        name: "List".to_string(),
        generics: vec![GenericParameter { kind: GenericKind::Type, text: "T".to_string() }],
        shape: Shape::PositionalRecord(vec![positional("Vec<T>")]),
    };
    let conversions = generate(&list);
    let list = construction_from(&conversions, &["Vec<T>"])
        .construct(vec![Value::Ints(vec![1, 2, 3])])
        .unwrap();

    match &list.fields[0].value {
        Slot::Supplied(Value::Ints(items)) => {
            assert_eq!(items[0], 1);
            assert_eq!(items[1], 2);
            assert_eq!(items[2], 3);
        }
        other => panic!("unexpected field: {:?}", other),
    }
}

#[test]
fn test_glue_enum() {
    let number = declaration(
        "Number",
        Shape::UnionType(vec![variant("Int", &["i32"]), variant("Float", &["f32"])]),
    );
    let conversions = generate(&number);
    let int = construction_from(&conversions, &["i32"]).construct(vec![Value::Int(1)]).unwrap();
    let float =
        construction_from(&conversions, &["f32"]).construct(vec![Value::Float(1.0)]).unwrap();

    match (int.variant.as_deref(), &int.fields[..]) {
        (Some("Int"), [n]) => assert_eq!(n.value, Slot::Supplied(Value::Int(1))),
        _ => unreachable!(),
    }

    match (float.variant.as_deref(), &float.fields[..]) {
        (Some("Float"), [n]) => assert_eq!(n.value, Slot::Supplied(Value::Float(1.0))),
        _ => unreachable!(),
    }
}

#[test]
fn test_glue_enum_multifield() {
    let dimensions = declaration(
        "Dimensions",
        Shape::UnionType(vec![
            variant("Vec2", &["i32", "i32"]),
            variant("Vec3", &["i32", "i32", "i32"]),
        ]),
    );
    let conversions = generate(&dimensions);
    let vec2 = construction_from(&conversions, &["i32", "i32"])
        .construct(vec![Value::Int(1), Value::Int(2)])
        .unwrap();
    let vec3 = construction_from(&conversions, &["i32", "i32", "i32"])
        .construct(vec![Value::Int(1), Value::Int(2), Value::Int(3)])
        .unwrap();

    match (vec2.variant.as_deref(), &vec2.fields[..]) {
        (Some("Vec2"), [x, y]) => {
            assert_eq!(x.value, Slot::Supplied(Value::Int(1)));
            assert_eq!(y.value, Slot::Supplied(Value::Int(2)));
        }
        _ => unreachable!(),
    }

    match (vec3.variant.as_deref(), &vec3.fields[..]) {
        (Some("Vec3"), [x, y, z]) => {
            assert_eq!(x.value, Slot::Supplied(Value::Int(1)));
            assert_eq!(y.value, Slot::Supplied(Value::Int(2)));
            assert_eq!(z.value, Slot::Supplied(Value::Int(3)));
        }
        _ => unreachable!(),
    }
}
