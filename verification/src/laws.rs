//! What holds of every generation.

use crate::annotation::{
    annotation_diagnostics, field_excluded, lemma_field_diagnostics_recoverable,
};
use crate::conversion::{
    active, defaulted, first_active, lemma_active_grows, lemma_first_active, lemma_partition,
    ConversionModel, Direction, InstanceModel, LayoutModel, MemberModel,
};
use crate::diagnostic::{
    all_recoverable, severity_of, Diagnostic, DiagnosticKind, Location, Severity,
};
use crate::glue::{
    constant_fault, constant_position, record_construction, record_conversions,
    variant_construction, variant_conversions, variant_diagnostics, variant_fault,
};
use crate::model::{
    Declaration, DeclarationModel, FieldModel, GenericKind, GenericParameterModel, ShapeModel,
    VariantModel,
};
use crate::render::rendered_all;
use crate::{generation, generation_log};
use vstd::prelude::*;

verus! {

impl ConversionModel {
    /// The extraction that belongs to a construction: the same target and
    /// members, read the other way.
    pub open spec fn reversed(self) -> ConversionModel {
        ConversionModel { direction: Direction::Extract, ..self }
    }

    /// Whether `instance` is one that the construction can build: it fits the
    /// target, its fields bear the members' names, each active member's field
    /// holds a supplied value and each excluded member's field the default.
    pub open spec fn can_build<V>(self, instance: InstanceModel<V>) -> bool {
        &&& self.fits(instance)
        &&& forall|i: int|
            0 <= i < self.members.len() ==> {
                &&& (#[trigger] instance.fields[i]).name == self.members[i].name
                &&& instance.fields[i].value is Defaulted <==> self.members[i].excluded
            }
    }
}

/// In a conversion of one value, the only active member is the first active
/// member.
proof fn lemma_single_active(members: Seq<MemberModel>, n: int, i: int)
    requires
        0 <= i < n <= members.len(),
        active(members, n).len() == 1,
        !members[i].excluded,
    ensures
        first_active(members, n) == i,
    decreases n,
{
    lemma_first_active(members, n - 1);
    if i < n - 1 {
        lemma_active_grows(members, i + 1, n - 1);
        lemma_single_active(members, n - 1, i);
    }
}

/// A construction that takes a single value, followed by the extraction that
/// belongs to it, gives that value back.
pub proof fn lemma_extract_constructed<V>(construction: ConversionModel, value: V)
    requires
        construction.direction == Direction::Construct,
        construction.arity() == 1,
    ensures
        construction.constructed(seq![value]) matches Some(instance)
            && construction.reversed().extracted(instance) == Some(value),
{
    let members = construction.members;
    lemma_first_active(members, members.len() as int);
}

/// An extraction from an instance that the construction can build, followed
/// by that construction, gives the instance back.
pub proof fn lemma_construct_extracted<V>(construction: ConversionModel, instance: InstanceModel<V>)
    requires
        construction.direction == Direction::Construct,
        construction.arity() == 1,
        construction.can_build(instance),
    ensures
        construction.reversed().extracted(instance) matches Some(value)
            && construction.constructed(seq![value]) == Some(instance),
{
    let members = construction.members;
    let n = members.len() as int;
    lemma_first_active(members, n);
    let position = first_active(members, n);
    let value = construction.reversed().extracted(instance)->Some_0;
    let rebuilt = construction.constructed(seq![value])->Some_0;
    assert forall|i: int| 0 <= i < n implies rebuilt.fields[i] == instance.fields[i] by {
        if !members[i].excluded {
            lemma_single_active(members, n, i);
        }
    }
    assert(rebuilt.fields =~= instance.fields);
}

/// Round trip. For a record with exactly one active field, the generated
/// construction and extraction undo each other: extracting from the instance
/// constructed from a value gives the value, and constructing from the value
/// extracted from an instance gives the instance, as long as the instance's
/// excluded fields hold their defaults.
pub proof fn lemma_round_trip<V>(
    declaration: DeclarationModel,
    value: V,
    instance: InstanceModel<V>,
)
    requires
        declaration.shape is NamedRecord || declaration.shape is PositionalRecord,
        generation(declaration) matches Ok(conversions) && conversions[0].arity() == 1,
    ensures
        generation(declaration) matches Ok(conversions) && {
            &&& conversions.len() == 2
            &&& conversions[0].direction == Direction::Construct
            &&& conversions[1] == conversions[0].reversed()
            &&& conversions[0].constructed(seq![value]) matches Some(built)
                && conversions[1].extracted(built) == Some(value)
            &&& conversions[0].can_build(instance) ==> (conversions[1].extracted(
                instance,
            ) matches Some(read) && conversions[0].constructed(seq![read]) == Some(instance))
        },
{
    let conversions = generation(declaration)->Ok_0;
    lemma_extract_constructed(conversions[0], value);
    if conversions[0].can_build(instance) {
        lemma_construct_extracted(conversions[0], instance);
    }
}

/// Determinism. What is generated, what is recorded and the text that is
/// rendered depend on nothing but the declaration's model: two declarations
/// with the same model give the same of each.
pub proof fn lemma_deterministic(first: Declaration, second: Declaration)
    requires
        first@ == second@,
    ensures
        generation(first@) == generation(second@),
        generation_log(first@) == generation_log(second@),
        generation(first@) matches Ok(conversions) ==> rendered_all(conversions) == rendered_all(
            generation(second@)->Ok_0,
        ),
{
}

/// A generation ends in conversions or in one fatal diagnostic; what it
/// records beside that is recoverable.
pub proof fn lemma_severities(declaration: DeclarationModel)
    ensures
        generation(declaration) matches Err(fault) ==> severity_of(fault.kind) == Severity::Fatal,
        all_recoverable(generation_log(declaration)),
{
    match declaration.shape {
        ShapeModel::NamedRecord(fields) => {
            lemma_annotation_diagnostics_recoverable(fields, fields.len() as int);
        },
        ShapeModel::PositionalRecord(fields) => {
            lemma_annotation_diagnostics_recoverable(fields, fields.len() as int);
        },
        ShapeModel::UnionType(variants) => {
            lemma_variant_diagnostics_recoverable(variants, variants.len() as int);
        },
        _ => {},
    }
}

proof fn lemma_annotation_diagnostics_recoverable(fields: Seq<FieldModel>, n: int)
    ensures
        all_recoverable(annotation_diagnostics(fields, n)),
    decreases n,
{
    if n > 0 {
        lemma_annotation_diagnostics_recoverable(fields, n - 1);
        lemma_field_diagnostics_recoverable(
            fields[n - 1].annotations,
            n - 1,
            fields[n - 1].annotations.len() as int,
        );
    }
}

proof fn lemma_variant_diagnostics_recoverable(variants: Seq<VariantModel>, n: int)
    ensures
        all_recoverable(variant_diagnostics(variants, n)),
    decreases n,
{
    if n > 0 {
        lemma_variant_diagnostics_recoverable(variants, n - 1);
    }
}

/// Where every one of the first `n` members is excluded, all of them are
/// filled by default; where one is excluded, at least one is.
proof fn lemma_defaulted_count(members: Seq<MemberModel>, n: int)
    requires
        0 <= n <= members.len(),
    ensures
        (forall|i: int| 0 <= i < n ==> members[i].excluded) <==> defaulted(members, n).len() == n,
        (exists|i: int| 0 <= i < n && members[i].excluded) <==> defaulted(members, n).len() > 0,
        defaulted(members, n).len() <= n,
    decreases n,
{
    if n > 0 {
        lemma_defaulted_count(members, n - 1);
    }
}

/// A record with named fields of which every one is excluded yields a fatal
/// diagnostic and no conversion; and only such a record is refused for its
/// exclusions.
pub proof fn lemma_all_fields_excluded(declaration: DeclarationModel)
    requires
        declaration.shape is NamedRecord,
    ensures
        ({
            let fields = declaration.shape->NamedRecord_0;
            let all = forall|i: int|
                0 <= i < fields.len() ==> field_excluded((#[trigger] fields[i]).annotations);
            &&& all ==> generation(declaration) is Err
            &&& all && constant_fault(declaration.generics) is None ==> generation(declaration)
                == Err::<Seq<ConversionModel>, Diagnostic>(
                Diagnostic {
                    kind: DiagnosticKind::AllFieldsExcluded,
                    location: Location::Name,
                },
            )
            &&& (generation(declaration) matches Err(fault) && fault.kind
                == DiagnosticKind::AllFieldsExcluded) ==> all
        }),
{
    let fields = declaration.shape->NamedRecord_0;
    let construction = record_construction(declaration, LayoutModel::Named, fields);
    lemma_defaulted_count(construction.members, fields.len() as int);
    let all = forall|i: int|
        0 <= i < fields.len() ==> field_excluded((#[trigger] fields[i]).annotations);
    if all {
        assert forall|i: int| 0 <= i < fields.len() implies construction.members[i].excluded by {
            assert(field_excluded(fields[i].annotations));
        }
    }
    if construction.defaulted_members().len() == fields.len() {
        assert forall|i: int| 0 <= i < fields.len() implies field_excluded(
            (#[trigger] fields[i]).annotations,
        ) by {
            assert(construction.members[i].excluded);
        }
    }
}

/// A record with positional fields of which one is excluded yields a fatal
/// diagnostic and no conversion; and only such a record is refused for an
/// exclusion.
pub proof fn lemma_exclusion_in_positional_record(declaration: DeclarationModel)
    requires
        declaration.shape is PositionalRecord,
    ensures
        ({
            let fields = declaration.shape->PositionalRecord_0;
            let any = exists|i: int|
                0 <= i < fields.len() && field_excluded((#[trigger] fields[i]).annotations);
            &&& any ==> generation(declaration) is Err
            &&& any && constant_fault(declaration.generics) is None ==> generation(declaration)
                == Err::<Seq<ConversionModel>, Diagnostic>(
                Diagnostic {
                    kind: DiagnosticKind::ExcludeOnPositionalRecord,
                    location: Location::Name,
                },
            )
            &&& (generation(declaration) matches Err(fault) && fault.kind
                == DiagnosticKind::ExcludeOnPositionalRecord) ==> any
        }),
{
    let fields = declaration.shape->PositionalRecord_0;
    let construction = record_construction(declaration, LayoutModel::Positional, fields);
    lemma_defaulted_count(construction.members, fields.len() as int);
    let any = exists|i: int|
        0 <= i < fields.len() && field_excluded((#[trigger] fields[i]).annotations);
    if any {
        let i = choose|i: int|
            0 <= i < fields.len() && field_excluded((#[trigger] fields[i]).annotations);
        assert(construction.members[i].excluded);
    }
    if construction.defaulted_members().len() > 0 {
        let i = choose|i: int| 0 <= i < fields.len() && construction.members[i].excluded;
        assert(field_excluded(fields[i].annotations));
    }
}

/// In a union without generic parameters a variant that is passed over does
/// not keep the others back: every variant with a positional payload has its
/// construction among the conversions, and every other variant its diagnostic
/// in the log.
pub proof fn lemma_variants_independent(declaration: DeclarationModel, i: int)
    requires
        declaration.shape is UnionType,
        declaration.generics.len() == 0,
        0 <= i < declaration.shape->UnionType_0.len(),
    ensures
        ({
            let variants = declaration.shape->UnionType_0;
            match variant_fault(variants[i], i) {
                Some(fault) => generation_log(declaration).contains(fault),
                None => generation(declaration) matches Ok(conversions) && conversions.contains(
                    variant_construction(declaration.name, variants[i]),
                ),
            }
        }),
{
    let variants = declaration.shape->UnionType_0;
    lemma_variant_kept(declaration.name, variants, variants.len() as int, i);
}

proof fn lemma_variant_kept(target: Seq<char>, variants: Seq<VariantModel>, n: int, i: int)
    requires
        0 <= i < n <= variants.len(),
    ensures
        match variant_fault(variants[i], i) {
            Some(fault) => variant_diagnostics(variants, n).contains(fault),
            None => variant_conversions(target, variants, n).contains(
                variant_construction(target, variants[i]),
            ),
        },
    decreases n,
{
    let conversions = variant_conversions(target, variants, n);
    let diagnostics = variant_diagnostics(variants, n);
    if i == n - 1 {
        match variant_fault(variants[i], i) {
            Some(fault) => {
                assert(diagnostics[diagnostics.len() - 1] == fault);
            },
            None => {
                assert(conversions[conversions.len() - 1] == variant_construction(
                    target,
                    variants[i],
                ));
            },
        }
    } else {
        lemma_variant_kept(target, variants, n - 1, i);
        let earlier_conversions = variant_conversions(target, variants, n - 1);
        let earlier_diagnostics = variant_diagnostics(variants, n - 1);
        match variant_fault(variants[i], i) {
            Some(fault) => {
                let k = choose|k: int|
                    0 <= k < earlier_diagnostics.len() && earlier_diagnostics[k] == fault;
                assert(diagnostics[k] == fault);
            },
            None => {
                let wanted = variant_construction(target, variants[i]);
                let k = choose|k: int|
                    0 <= k < earlier_conversions.len() && earlier_conversions[k] == wanted;
                assert(conversions[k] == wanted);
            },
        }
    }
}

/// A constant parameter among the first `n` is found at its position or before.
proof fn lemma_constant_position(generics: Seq<GenericParameterModel>, n: int, i: int)
    requires
        0 <= i < n <= generics.len(),
        generics[i].kind == GenericKind::Constant,
    ensures
        constant_position(generics, n) <= i,
    decreases n,
{
    if i < n - 1 {
        lemma_constant_position(generics, n - 1, i);
    } else {
        lemma_constant_position_bound(generics, n - 1);
    }
}

proof fn lemma_constant_position_bound(generics: Seq<GenericParameterModel>, n: int)
    requires
        0 <= n,
    ensures
        0 <= constant_position(generics, n) <= n,
    decreases n,
{
    if n > 0 {
        lemma_constant_position_bound(generics, n - 1);
    }
}

/// No declaration with a constant generic parameter is accepted, and no
/// tagged union with any generic parameter.
pub proof fn lemma_generic_parameters(declaration: DeclarationModel, i: int)
    requires
        0 <= i < declaration.generics.len(),
    ensures
        declaration.generics[i].kind == GenericKind::Constant ==> generation(declaration) is Err,
        declaration.shape is UnionType ==> generation(declaration) == Err::<
            Seq<ConversionModel>,
            Diagnostic,
        >(
            Diagnostic {
                kind: DiagnosticKind::GenericUnionUnsupported,
                location: Location::Declaration,
            },
        ),
{
    if declaration.generics[i].kind == GenericKind::Constant {
        lemma_constant_position(declaration.generics, declaration.generics.len() as int, i);
    }
}

proof fn lemma_variants_construct(target: Seq<char>, variants: Seq<VariantModel>, n: int, i: int)
    requires
        0 <= i < variant_conversions(target, variants, n).len(),
    ensures
        variant_conversions(target, variants, n)[i].direction == Direction::Construct,
    decreases n,
{
    if n > 0 && i < variant_conversions(target, variants, n - 1).len() {
        lemma_variants_construct(target, variants, n - 1, i);
    }
}

/// Which way the generated conversions go. A record yields its construction,
/// followed by the extraction exactly when a single field is active; with
/// more active fields, or none, there is no extraction. A union yields
/// constructions only.
pub proof fn lemma_directions(declaration: DeclarationModel)
    requires
        generation(declaration) is Ok,
    ensures
        ({
            let conversions = generation(declaration)->Ok_0;
            if declaration.shape is UnionType {
                forall|i: int|
                    0 <= i < conversions.len() ==> (#[trigger] conversions[i]).direction
                        == Direction::Construct
            } else {
                &&& conversions.len() >= 1
                &&& conversions[0].direction == Direction::Construct
                &&& conversions[0].arity() == 1 ==> conversions.len() == 2 && conversions[1]
                    == conversions[0].reversed()
                &&& conversions[0].arity() != 1 ==> conversions.len() == 1
            }
        }),
{
    let conversions = generation(declaration)->Ok_0;
    if let ShapeModel::UnionType(variants) = declaration.shape {
        assert forall|i: int| 0 <= i < conversions.len() implies (#[trigger] conversions[i]).direction
            == Direction::Construct by {
            lemma_variants_construct(declaration.name, variants, variants.len() as int, i);
        }
    }
}

/// Every conversion generated from a well-formed declaration is well formed.
pub proof fn lemma_conversions_well_formed(declaration: DeclarationModel, i: int)
    requires
        declaration.well_formed(),
        generation(declaration) matches Ok(conversions) && 0 <= i < conversions.len(),
    ensures
        generation(declaration)->Ok_0[i].well_formed(),
{
    match declaration.shape {
        ShapeModel::NamedRecord(fields) => {
            let construction = record_construction(declaration, LayoutModel::Named, fields);
            lemma_partition(construction.members, fields.len() as int);
            assert(record_conversions(construction)[i].members == construction.members);
        },
        ShapeModel::PositionalRecord(fields) => {
            let construction = record_construction(declaration, LayoutModel::Positional, fields);
            assert(record_conversions(construction)[i].members == construction.members);
        },
        ShapeModel::UnionType(variants) => {
            lemma_variant_conversions_well_formed(
                declaration.name,
                variants,
                variants.len() as int,
                i,
            );
        },
        _ => {},
    }
}

/// No member of a variant's construction is excluded: all take a value.
proof fn lemma_payload_active(members: Seq<MemberModel>, n: int)
    requires
        0 <= n <= members.len(),
        forall|j: int| 0 <= j < members.len() ==> !(#[trigger] members[j]).excluded,
    ensures
        active(members, n).len() == n,
        defaulted(members, n).len() == 0,
    decreases n,
{
    if n > 0 {
        lemma_payload_active(members, n - 1);
    }
}

proof fn lemma_variant_conversions_well_formed(
    target: Seq<char>,
    variants: Seq<VariantModel>,
    n: int,
    i: int,
)
    requires
        0 <= n <= variants.len(),
        0 <= i < variant_conversions(target, variants, n).len(),
    ensures
        variant_conversions(target, variants, n)[i].well_formed(),
    decreases n,
{
    if n > 0 {
        let earlier = variant_conversions(target, variants, n - 1);
        if i < earlier.len() {
            lemma_variant_conversions_well_formed(target, variants, n - 1, i);
        } else {
            let construction = variant_construction(target, variants[n - 1]);
            lemma_payload_active(construction.members, construction.members.len() as int);
        }
    }
}

} // verus!
