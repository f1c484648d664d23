//! The structural description of a declared type, and its mathematical model.

use vstd::prelude::*;

verus! {

/// What a generic parameter stands for.
#[derive(Clone, Copy, Debug, PartialEq, Eq, Structural)]
pub enum GenericKind {
    Type,
    Lifetime,
    Constant,
}

/// A generic parameter of the declared type, with its source text.
#[derive(Clone, Debug)]
pub struct GenericParameter {
    pub kind: GenericKind,
    pub text: String,
}

/// An annotation on a field: the path it is written under and, where it is
/// written with a delimited argument list, the text of the tokens between the
/// delimiters, with a single blank between two tokens.
#[derive(Clone, Debug)]
pub struct Annotation {
    pub key: String,
    pub arguments: Option<String>,
}

/// A field of a record.
#[derive(Clone, Debug)]
pub struct Field {
    pub name: Option<String>,
    pub ty: String,
    pub annotations: Vec<Annotation>,
}

/// An alternative of a tagged union. `payload` holds the types of its fields
/// in declaration order; `named` says that the fields were declared by name.
#[derive(Clone, Debug)]
pub struct Variant {
    pub name: String,
    pub named: bool,
    pub payload: Vec<String>,
}

/// The shape of a declared type.
#[derive(Clone, Debug)]
pub enum Shape {
    NamedRecord(Vec<Field>),
    PositionalRecord(Vec<Field>),
    UnionType(Vec<Variant>),
    UnitRecord,
    Unsupported,
}

/// A declared type.
#[derive(Clone, Debug)]
pub struct Declaration {
    pub name: String,
    pub generics: Vec<GenericParameter>,
    pub shape: Shape,
}

pub ghost struct GenericParameterModel {
    pub kind: GenericKind,
    pub text: Seq<char>,
}

pub ghost struct AnnotationModel {
    pub key: Seq<char>,
    pub arguments: Option<Seq<char>>,
}

pub ghost struct FieldModel {
    pub name: Option<Seq<char>>,
    pub ty: Seq<char>,
    pub annotations: Seq<AnnotationModel>,
}

pub ghost struct VariantModel {
    pub name: Seq<char>,
    pub named: bool,
    pub payload: Seq<Seq<char>>,
}

pub ghost enum ShapeModel {
    NamedRecord(Seq<FieldModel>),
    PositionalRecord(Seq<FieldModel>),
    UnionType(Seq<VariantModel>),
    UnitRecord,
    Unsupported,
}

pub ghost struct DeclarationModel {
    pub name: Seq<char>,
    pub generics: Seq<GenericParameterModel>,
    pub shape: ShapeModel,
}

impl View for GenericParameter {
    type V = GenericParameterModel;

    open spec fn view(&self) -> GenericParameterModel {
        GenericParameterModel { kind: self.kind, text: self.text@ }
    }
}

impl DeepView for GenericParameter {
    type V = GenericParameterModel;

    open spec fn deep_view(&self) -> GenericParameterModel {
        self@
    }
}

impl View for Annotation {
    type V = AnnotationModel;

    open spec fn view(&self) -> AnnotationModel {
        AnnotationModel { key: self.key@, arguments: self.arguments.deep_view() }
    }
}

impl DeepView for Annotation {
    type V = AnnotationModel;

    open spec fn deep_view(&self) -> AnnotationModel {
        self@
    }
}

impl View for Field {
    type V = FieldModel;

    open spec fn view(&self) -> FieldModel {
        FieldModel {
            name: self.name.deep_view(),
            ty: self.ty@,
            annotations: self.annotations.deep_view(),
        }
    }
}

impl DeepView for Field {
    type V = FieldModel;

    open spec fn deep_view(&self) -> FieldModel {
        self@
    }
}

impl View for Variant {
    type V = VariantModel;

    open spec fn view(&self) -> VariantModel {
        VariantModel { name: self.name@, named: self.named, payload: self.payload.deep_view() }
    }
}

impl DeepView for Variant {
    type V = VariantModel;

    open spec fn deep_view(&self) -> VariantModel {
        self@
    }
}

impl View for Shape {
    type V = ShapeModel;

    open spec fn view(&self) -> ShapeModel {
        match self {
            Shape::NamedRecord(fields) => ShapeModel::NamedRecord(fields.deep_view()),
            Shape::PositionalRecord(fields) => ShapeModel::PositionalRecord(fields.deep_view()),
            Shape::UnionType(variants) => ShapeModel::UnionType(variants.deep_view()),
            Shape::UnitRecord => ShapeModel::UnitRecord,
            Shape::Unsupported => ShapeModel::Unsupported,
        }
    }
}

impl View for Declaration {
    type V = DeclarationModel;

    open spec fn view(&self) -> DeclarationModel {
        DeclarationModel {
            name: self.name@,
            generics: self.generics.deep_view(),
            shape: self.shape@,
        }
    }
}

/// Every field carries a name.
pub open spec fn all_named(fields: Seq<FieldModel>) -> bool {
    forall|i: int| 0 <= i < fields.len() ==> (#[trigger] fields[i]).name is Some
}

impl DeclarationModel {
    /// The fields of a record with named fields are named.
    pub open spec fn well_formed(self) -> bool {
        self.shape matches ShapeModel::NamedRecord(fields) ==> all_named(fields)
    }
}

impl Declaration {
    /// Tests the invariant of the model: in a record with named fields no
    /// field is without a name.
    pub fn is_well_formed(&self) -> (ok: bool)
        ensures
            ok == self@.well_formed(),
    {
        match &self.shape {
            Shape::NamedRecord(fields) => {
                let mut i: usize = 0;
                while i < fields.len()
                    invariant
                        self.shape == Shape::NamedRecord(*fields),
                        i <= fields.len(),
                        forall|j: int| 0 <= j < i ==> (#[trigger] fields.deep_view()[j]).name is Some,
                    decreases fields.len() - i,
                {
                    if fields[i].name.is_none() {
                        assert(fields.deep_view()[i as int].name is None);
                        assert(!all_named(fields.deep_view()));
                        return false;
                    }
                    i += 1;
                }
                true
            },
            _ => true,
        }
    }
}

} // verus!
