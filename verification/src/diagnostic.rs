//! Diagnostics: what a generator reports instead of, or beside, its output.

use vstd::prelude::*;

verus! {

/// How far a diagnostic reaches.
#[derive(Clone, Copy, Debug, PartialEq, Eq, Structural)]
pub enum Severity {
    /// Generation for the declaration stops and nothing is emitted for it.
    Fatal,
    /// Generation goes on, but the build as a whole has failed.
    Recoverable,
}

/// Why a declaration's shape cannot be handled.
#[derive(Clone, Copy, Debug, PartialEq, Eq, Structural)]
pub enum ShapeFault {
    /// A record without any field.
    FieldlessRecord,
    /// Neither a record nor a tagged union.
    NotRecordOrUnion,
}

/// The kinds of diagnostic.
#[derive(Clone, Copy, Debug, PartialEq, Eq, Structural)]
pub enum DiagnosticKind {
    UnsupportedShape(ShapeFault),
    ConstGenericUnsupported,
    GenericUnionUnsupported,
    AllFieldsExcluded,
    ExcludeOnPositionalRecord,
    MalformedAnnotation,
    NamedFieldsInVariant,
    UnitVariant,
}

/// The part of a declaration that a diagnostic points at. Indices count in
/// declaration order, from zero.
#[derive(Clone, Copy, Debug, PartialEq, Eq, Structural)]
pub enum Location {
    /// The declaration as a whole.
    Declaration,
    /// The declared type's name.
    Name,
    /// A generic parameter.
    Generic(usize),
    /// An annotation of a field.
    Annotation { field: usize, index: usize },
    /// A variant of a union.
    Variant(usize),
    /// The field list of a variant.
    VariantFields(usize),
}

/// A message bound to a place in the declaration.
#[derive(Clone, Copy, Debug, PartialEq, Eq, Structural)]
pub struct Diagnostic {
    pub kind: DiagnosticKind,
    pub location: Location,
}

/// The severity that belongs to each kind.
pub open spec fn severity_of(kind: DiagnosticKind) -> Severity {
    match kind {
        DiagnosticKind::UnsupportedShape(_) => Severity::Fatal,
        DiagnosticKind::ConstGenericUnsupported => Severity::Fatal,
        DiagnosticKind::GenericUnionUnsupported => Severity::Fatal,
        DiagnosticKind::AllFieldsExcluded => Severity::Fatal,
        DiagnosticKind::ExcludeOnPositionalRecord => Severity::Fatal,
        DiagnosticKind::MalformedAnnotation => Severity::Recoverable,
        DiagnosticKind::NamedFieldsInVariant => Severity::Recoverable,
        DiagnosticKind::UnitVariant => Severity::Recoverable,
    }
}

/// The text that belongs to each kind.
pub open spec fn message_of(kind: DiagnosticKind) -> Seq<char> {
    match kind {
        DiagnosticKind::UnsupportedShape(ShapeFault::FieldlessRecord) => {
            "cannot generate conversions for a fieldless record"@
        },
        DiagnosticKind::UnsupportedShape(ShapeFault::NotRecordOrUnion) => {
            "can only generate conversions for records or tagged unions"@
        },
        DiagnosticKind::ConstGenericUnsupported => {
            "constant generic parameters are not supported"@
        },
        DiagnosticKind::GenericUnionUnsupported => {
            "tagged unions with generic parameters are not supported"@
        },
        DiagnosticKind::AllFieldsExcluded => "cannot exclude every field"@,
        DiagnosticKind::ExcludeOnPositionalRecord => "positional records cannot exclude fields"@,
        DiagnosticKind::MalformedAnnotation => "unrecognized annotation form"@,
        DiagnosticKind::NamedFieldsInVariant => "variants with named fields are not supported"@,
        DiagnosticKind::UnitVariant => "unit variants are not supported"@,
    }
}

/// Every entry of `log` is recoverable.
pub open spec fn all_recoverable(log: Seq<Diagnostic>) -> bool {
    forall|i: int| 0 <= i < log.len() ==> severity_of(#[trigger] log[i].kind) == Severity::Recoverable
}

impl Diagnostic {
    pub fn new(kind: DiagnosticKind, location: Location) -> (diagnostic: Diagnostic)
        ensures
            diagnostic == (Diagnostic { kind, location }),
    {
        Diagnostic { kind, location }
    }

    pub fn severity(&self) -> (severity: Severity)
        ensures
            severity == severity_of(self.kind),
    {
        match self.kind {
            DiagnosticKind::UnsupportedShape(_) => Severity::Fatal,
            DiagnosticKind::ConstGenericUnsupported => Severity::Fatal,
            DiagnosticKind::GenericUnionUnsupported => Severity::Fatal,
            DiagnosticKind::AllFieldsExcluded => Severity::Fatal,
            DiagnosticKind::ExcludeOnPositionalRecord => Severity::Fatal,
            DiagnosticKind::MalformedAnnotation => Severity::Recoverable,
            DiagnosticKind::NamedFieldsInVariant => Severity::Recoverable,
            DiagnosticKind::UnitVariant => Severity::Recoverable,
        }
    }

    pub fn message(&self) -> (message: &'static str)
        ensures
            message@ == message_of(self.kind),
    {
        match self.kind {
            DiagnosticKind::UnsupportedShape(ShapeFault::FieldlessRecord) => {
                "cannot generate conversions for a fieldless record"
            },
            DiagnosticKind::UnsupportedShape(ShapeFault::NotRecordOrUnion) => {
                "can only generate conversions for records or tagged unions"
            },
            DiagnosticKind::ConstGenericUnsupported => {
                "constant generic parameters are not supported"
            },
            DiagnosticKind::GenericUnionUnsupported => {
                "tagged unions with generic parameters are not supported"
            },
            DiagnosticKind::AllFieldsExcluded => "cannot exclude every field",
            DiagnosticKind::ExcludeOnPositionalRecord => "positional records cannot exclude fields",
            DiagnosticKind::MalformedAnnotation => "unrecognized annotation form",
            DiagnosticKind::NamedFieldsInVariant => "variants with named fields are not supported",
            DiagnosticKind::UnitVariant => "unit variants are not supported",
        }
    }
}

/// Whether the build has to be reported as failed: it has, as soon as the log
/// of recoverable diagnostics holds an entry.
pub fn build_failed(log: &Vec<Diagnostic>) -> (failed: bool)
    ensures
        failed == (log@.len() > 0),
{
    log.len() > 0
}

} // verus!
