//! Generation of conversions between a composite type and the values of its
//! fields.
//!
//! A [`Declaration`](model::Declaration) describes a record with named
//! fields, a record with positional fields, or a tagged union. From it the
//! generators plan [`Conversion`](conversion::Conversion)s: the construction
//! of the type from the values of its active fields and, for a record with a
//! single active field, the extraction of that value. A conversion can be
//! rendered as source text and applied to values.
//!
//! A fatal diagnostic is returned in place of the conversions. Recoverable
//! diagnostics are appended to a log that the caller keeps for the whole
//! build: generation goes on, but a build whose log is not empty has failed.

pub mod annotation;
pub mod conversion;
pub mod diagnostic;
pub mod glue;
pub mod laws;
pub mod model;
pub mod render;
pub mod text;

use crate::conversion::{Conversion, ConversionModel};
use crate::diagnostic::{Diagnostic, DiagnosticKind, Location, ShapeFault};
use crate::glue::{
    enum_impl, named_outcome, outcome_view, positional_outcome, record_log, struct_named_impl,
    struct_unnamed_impl, union_log, union_outcome,
};
use crate::model::{Declaration, DeclarationModel, Shape, ShapeModel};
use vstd::prelude::*;

verus! {

/// What is generated for a declaration: the outcome of the generator for its
/// shape, and a fatal diagnostic for a shape that has none.
pub open spec fn generation(declaration: DeclarationModel) -> Result<
    Seq<ConversionModel>,
    Diagnostic,
> {
    match declaration.shape {
        ShapeModel::NamedRecord(_) => named_outcome(declaration),
        ShapeModel::PositionalRecord(_) => positional_outcome(declaration),
        ShapeModel::UnionType(_) => union_outcome(declaration),
        ShapeModel::UnitRecord => Err(
            Diagnostic {
                kind: DiagnosticKind::UnsupportedShape(ShapeFault::FieldlessRecord),
                location: Location::Declaration,
            },
        ),
        ShapeModel::Unsupported => Err(
            Diagnostic {
                kind: DiagnosticKind::UnsupportedShape(ShapeFault::NotRecordOrUnion),
                location: Location::Declaration,
            },
        ),
    }
}

/// The recoverable diagnostics that the generation records, in order.
pub open spec fn generation_log(declaration: DeclarationModel) -> Seq<Diagnostic> {
    match declaration.shape {
        ShapeModel::NamedRecord(fields) => record_log(declaration, fields),
        ShapeModel::PositionalRecord(fields) => record_log(declaration, fields),
        ShapeModel::UnionType(_) => union_log(declaration),
        ShapeModel::UnitRecord => Seq::empty(),
        ShapeModel::Unsupported => Seq::empty(),
    }
}

/// Generates the conversions of a declared type.
///
/// The declaration goes to the generator for its shape. A record without
/// fields and a declaration that is neither a record nor a tagged union are
/// refused with a fatal diagnostic. Recoverable diagnostics are appended to
/// `log`.
pub fn derive_glue(decl: &Declaration, log: &mut Vec<Diagnostic>) -> (result: Result<
    Vec<Conversion>,
    Diagnostic,
>)
    ensures
        outcome_view(result) == generation(decl@),
        final(log)@ == old(log)@ + generation_log(decl@),
{
    match &decl.shape {
        Shape::NamedRecord(_) => struct_named_impl(decl, log),
        Shape::PositionalRecord(_) => struct_unnamed_impl(decl, log),
        Shape::UnionType(_) => enum_impl(decl, log),
        Shape::UnitRecord => {
            assert(log@ =~= old(log)@ + Seq::<Diagnostic>::empty());
            Err(
                Diagnostic::new(
                    DiagnosticKind::UnsupportedShape(ShapeFault::FieldlessRecord),
                    Location::Declaration,
                ),
            )
        },
        Shape::Unsupported => {
            assert(log@ =~= old(log)@ + Seq::<Diagnostic>::empty());
            Err(
                Diagnostic::new(
                    DiagnosticKind::UnsupportedShape(ShapeFault::NotRecordOrUnion),
                    Location::Declaration,
                ),
            )
        },
    }
}

} // verus!
