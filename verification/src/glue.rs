//! The generators: one for each shape of declaration that is handled.

use crate::annotation::{annotation_diagnostics, exclusions, get_ignored_fields};
use crate::conversion::{
    lemma_partition, Conversion, ConversionModel, Direction, Layout, LayoutModel, Member,
    MemberModel,
};
use crate::diagnostic::{Diagnostic, DiagnosticKind, Location};
use crate::model::{
    Declaration, DeclarationModel, Field, FieldModel, GenericKind, GenericParameter,
    GenericParameterModel, Shape, Variant, VariantModel,
};
use vstd::pervasive::unreached;
use vstd::prelude::*;

verus! {

/// What a generator hands back: the conversions, or the fatal diagnostic that
/// stopped it.
pub open spec fn outcome_view(result: Result<Vec<Conversion>, Diagnostic>) -> Result<
    Seq<ConversionModel>,
    Diagnostic,
> {
    match result {
        Ok(conversions) => Ok(conversions.deep_view()),
        Err(diagnostic) => Err(diagnostic),
    }
}

/// The position of the first constant parameter among the first `n`; `n`
/// where there is none.
pub open spec fn constant_position(generics: Seq<GenericParameterModel>, n: int) -> int
    decreases n,
{
    if n <= 0 {
        0
    } else {
        let found = constant_position(generics, n - 1);
        if found < n - 1 {
            found
        } else if generics[n - 1].kind == GenericKind::Constant {
            n - 1
        } else {
            n
        }
    }
}

/// The fatal diagnostic for a constant parameter, where the declaration has
/// one: it points at the first.
pub open spec fn constant_fault(generics: Seq<GenericParameterModel>) -> Option<Diagnostic> {
    let position = constant_position(generics, generics.len() as int);
    if position < generics.len() {
        Some(
            Diagnostic {
                kind: DiagnosticKind::ConstGenericUnsupported,
                location: Location::Generic(position as usize),
            },
        )
    } else {
        None
    }
}

/// The source text of each generic parameter.
pub open spec fn generic_texts(generics: Seq<GenericParameterModel>) -> Seq<Seq<char>> {
    Seq::new(generics.len(), |i: int| generics[i].text)
}

/// The members of a record's conversions: one for each field, excluded as
/// `excluded` says.
pub open spec fn planned_members(fields: Seq<FieldModel>, excluded: Seq<bool>) -> Seq<
    MemberModel,
> {
    Seq::new(
        fields.len(),
        |i: int| MemberModel { name: fields[i].name, ty: fields[i].ty, excluded: excluded[i] },
    )
}

/// The construction of a record.
pub open spec fn record_construction(
    declaration: DeclarationModel,
    layout: LayoutModel,
    fields: Seq<FieldModel>,
) -> ConversionModel {
    ConversionModel {
        direction: Direction::Construct,
        target: declaration.name,
        generics: generic_texts(declaration.generics),
        layout,
        members: planned_members(fields, exclusions(fields)),
    }
}

/// The conversions of a record: its construction and, where a single member
/// is active, the extraction of that member.
pub open spec fn record_conversions(construction: ConversionModel) -> Seq<ConversionModel> {
    if construction.arity() == 1 {
        seq![construction, ConversionModel { direction: Direction::Extract, ..construction }]
    } else {
        seq![construction]
    }
}

/// What is generated for a record with named fields. A constant parameter is
/// fatal, and so is a record that excludes as many fields as it has.
pub open spec fn named_outcome(declaration: DeclarationModel) -> Result<
    Seq<ConversionModel>,
    Diagnostic,
> {
    let fields = declaration.shape->NamedRecord_0;
    let construction = record_construction(declaration, LayoutModel::Named, fields);
    if let Some(fault) = constant_fault(declaration.generics) {
        Err(fault)
    } else if construction.defaulted_members().len() == fields.len() {
        Err(Diagnostic { kind: DiagnosticKind::AllFieldsExcluded, location: Location::Name })
    } else {
        Ok(record_conversions(construction))
    }
}

/// What is generated for a record with positional fields. A constant
/// parameter is fatal, and so is an excluded field.
pub open spec fn positional_outcome(declaration: DeclarationModel) -> Result<
    Seq<ConversionModel>,
    Diagnostic,
> {
    let fields = declaration.shape->PositionalRecord_0;
    let construction = record_construction(declaration, LayoutModel::Positional, fields);
    if let Some(fault) = constant_fault(declaration.generics) {
        Err(fault)
    } else if construction.defaulted_members().len() > 0 {
        Err(
            Diagnostic {
                kind: DiagnosticKind::ExcludeOnPositionalRecord,
                location: Location::Name,
            },
        )
    } else {
        Ok(record_conversions(construction))
    }
}

/// What a record's generator records: nothing where a constant parameter stops
/// it at once, else the diagnostics for the fields' annotations.
pub open spec fn record_log(
    declaration: DeclarationModel,
    fields: Seq<FieldModel>,
) -> Seq<Diagnostic> {
    if constant_fault(declaration.generics) is Some {
        Seq::empty()
    } else {
        annotation_diagnostics(fields, fields.len() as int)
    }
}

/// Whether a variant is passed over, and why: named fields come first, then
/// the lack of a payload.
pub open spec fn variant_fault(variant: VariantModel, position: int) -> Option<Diagnostic> {
    if variant.named {
        Some(
            Diagnostic {
                kind: DiagnosticKind::NamedFieldsInVariant,
                location: Location::VariantFields(position as usize),
            },
        )
    } else if variant.payload.len() == 0 {
        Some(
            Diagnostic {
                kind: DiagnosticKind::UnitVariant,
                location: Location::Variant(position as usize),
            },
        )
    } else {
        None
    }
}

/// The construction of a union through one of its variants.
pub open spec fn variant_construction(target: Seq<char>, variant: VariantModel) -> ConversionModel {
    ConversionModel {
        direction: Direction::Construct,
        target,
        generics: Seq::empty(),
        layout: LayoutModel::Variant(variant.name),
        members: Seq::new(
            variant.payload.len(),
            |i: int| MemberModel { name: None, ty: variant.payload[i], excluded: false },
        ),
    }
}

/// The constructions for the first `n` variants: one for each that is not
/// passed over, in declaration order.
pub open spec fn variant_conversions(
    target: Seq<char>,
    variants: Seq<VariantModel>,
    n: int,
) -> Seq<ConversionModel>
    decreases n,
{
    if n <= 0 {
        Seq::empty()
    } else if variant_fault(variants[n - 1], n - 1) is Some {
        variant_conversions(target, variants, n - 1)
    } else {
        variant_conversions(target, variants, n - 1).push(
            variant_construction(target, variants[n - 1]),
        )
    }
}

/// The diagnostics for the first `n` variants: one for each that is passed
/// over, in declaration order.
pub open spec fn variant_diagnostics(variants: Seq<VariantModel>, n: int) -> Seq<Diagnostic>
    decreases n,
{
    if n <= 0 {
        Seq::empty()
    } else {
        match variant_fault(variants[n - 1], n - 1) {
            Some(fault) => variant_diagnostics(variants, n - 1).push(fault),
            None => variant_diagnostics(variants, n - 1),
        }
    }
}

/// What is generated for a tagged union. A generic parameter is fatal;
/// otherwise each variant is handled by itself.
pub open spec fn union_outcome(declaration: DeclarationModel) -> Result<
    Seq<ConversionModel>,
    Diagnostic,
> {
    let variants = declaration.shape->UnionType_0;
    if declaration.generics.len() > 0 {
        Err(
            Diagnostic {
                kind: DiagnosticKind::GenericUnionUnsupported,
                location: Location::Declaration,
            },
        )
    } else {
        Ok(variant_conversions(declaration.name, variants, variants.len() as int))
    }
}

/// What the union's generator records: nothing where a generic parameter stops
/// it at once, else the diagnostics for the variants passed over.
pub open spec fn union_log(declaration: DeclarationModel) -> Seq<Diagnostic> {
    let variants = declaration.shape->UnionType_0;
    if declaration.generics.len() > 0 {
        Seq::empty()
    } else {
        variant_diagnostics(variants, variants.len() as int)
    }
}

/// Looks for the first constant parameter.
fn find_constant(generics: &Vec<GenericParameter>) -> (fault: Option<Diagnostic>)
    ensures
        fault == constant_fault(generics.deep_view()),
{
    let mut i: usize = 0;
    while i < generics.len()
        invariant
            i <= generics.len(),
            constant_position(generics.deep_view(), i as int) == i,
        decreases generics.len() - i,
    {
        match generics[i].kind {
            GenericKind::Constant => {
                proof {
                    lemma_constant_found(generics.deep_view(), i as int, generics.len() as int);
                }
                return Some(
                    Diagnostic::new(
                        DiagnosticKind::ConstGenericUnsupported,
                        Location::Generic(i),
                    ),
                );
            },
            _ => {},
        }
        i += 1;
    }
    None
}

/// A constant parameter at `i` with none before it is the first of every
/// longer prefix.
proof fn lemma_constant_found(generics: Seq<GenericParameterModel>, i: int, n: int)
    requires
        0 <= i < n <= generics.len(),
        constant_position(generics, i) == i,
        generics[i].kind == GenericKind::Constant,
    ensures
        constant_position(generics, n) == i,
    decreases n,
{
    if n > i + 1 {
        lemma_constant_found(generics, i, n - 1);
    }
}

fn copy_generic_texts(generics: &Vec<GenericParameter>) -> (texts: Vec<String>)
    ensures
        texts.deep_view() == generic_texts(generics.deep_view()),
{
    let mut texts: Vec<String> = Vec::new();
    let mut i: usize = 0;
    while i < generics.len()
        invariant
            i <= generics.len(),
            texts.deep_view() == generic_texts(generics.deep_view()).take(i as int),
        decreases generics.len() - i,
    {
        let ghost before = texts.deep_view();
        texts.push(generics[i].text.clone());
        assert(texts.deep_view() =~= before.push(generics@[i as int].text@));
        assert(texts.deep_view() =~= generic_texts(generics.deep_view()).take(i + 1));
        i += 1;
    }
    assert(texts.deep_view() =~= generic_texts(generics.deep_view()));
    texts
}

fn plan_members(fields: &Vec<Field>, excluded: &Vec<bool>) -> (members: Vec<Member>)
    requires
        excluded@.len() == fields@.len(),
    ensures
        members.deep_view() == planned_members(fields.deep_view(), excluded@),
{
    let mut members: Vec<Member> = Vec::new();
    let mut i: usize = 0;
    while i < fields.len()
        invariant
            i <= fields.len(),
            excluded@.len() == fields@.len(),
            members.deep_view() == planned_members(fields.deep_view(), excluded@).take(i as int),
        decreases fields.len() - i,
    {
        let member = Member {
            name: crate::text::copy_optional(&fields[i].name),
            ty: fields[i].ty.clone(),
            excluded: excluded[i],
        };
        let ghost before = members.deep_view();
        members.push(member);
        assert(members.deep_view() =~= before.push(member@));
        assert(members.deep_view() =~= planned_members(fields.deep_view(), excluded@).take(
            i + 1,
        ));
        i += 1;
    }
    assert(members.deep_view() =~= planned_members(fields.deep_view(), excluded@));
    members
}

fn plan_record(
    decl: &Declaration,
    direction: Direction,
    layout: Layout,
    fields: &Vec<Field>,
    excluded: &Vec<bool>,
) -> (conversion: Conversion)
    requires
        excluded@ == exclusions(fields.deep_view()),
    ensures
        conversion@ == (ConversionModel {
            direction,
            ..record_construction(decl@, layout@, fields.deep_view())
        }),
{
    Conversion {
        direction,
        target: decl.name.clone(),
        generics: copy_generic_texts(&decl.generics),
        layout,
        members: plan_members(fields, excluded),
    }
}

fn plan_variant(target: &String, variant: &Variant) -> (conversion: Conversion)
    ensures
        conversion@ == variant_construction(target@, variant@),
{
    let mut members: Vec<Member> = Vec::new();
    let mut i: usize = 0;
    while i < variant.payload.len()
        invariant
            i <= variant.payload.len(),
            members.deep_view() == variant_construction(target@, variant@).members.take(i as int),
        decreases variant.payload.len() - i,
    {
        let member = Member { name: None, ty: variant.payload[i].clone(), excluded: false };
        let ghost before = members.deep_view();
        members.push(member);
        assert(members.deep_view() =~= before.push(member@));
        assert(members.deep_view() =~= variant_construction(target@, variant@).members.take(
            i + 1,
        ));
        i += 1;
    }
    assert(members.deep_view() =~= variant_construction(target@, variant@).members);
    let conversion = Conversion {
        direction: Direction::Construct,
        target: target.clone(),
        generics: Vec::new(),
        layout: Layout::Variant(variant.name.clone()),
        members,
    };
    assert(conversion@.generics =~= Seq::empty());
    conversion
}

/// Generates the conversions of a record with named fields.
///
/// A constant generic parameter stops the generation at once. Otherwise the
/// fields' annotations are read, and the diagnostics for malformed ones are
/// recorded in `log`. A record that excludes every field is refused. What is
/// left is the construction from the active fields and, where exactly one
/// field is active, the extraction of that field.
pub fn struct_named_impl(decl: &Declaration, log: &mut Vec<Diagnostic>) -> (result: Result<
    Vec<Conversion>,
    Diagnostic,
>)
    requires
        decl.shape is NamedRecord,
    ensures
        outcome_view(result) == named_outcome(decl@),
        final(log)@ == old(log)@ + record_log(decl@, decl@.shape->NamedRecord_0),
{
    let fields = match &decl.shape {
        Shape::NamedRecord(fields) => fields,
        _ => unreached(),
    };
    if let Some(fault) = find_constant(&decl.generics) {
        assert(log@ =~= old(log)@ + Seq::<Diagnostic>::empty());
        return Err(fault);
    }
    let ignored = get_ignored_fields(fields, log);
    let construction = plan_record(decl, Direction::Construct, Layout::Named, fields, &ignored);
    let arity = construction.arity();
    proof {
        lemma_partition(construction@.members, fields.len() as int);
    }
    if arity == 0 {
        return Err(Diagnostic::new(DiagnosticKind::AllFieldsExcluded, Location::Name));
    }
    let mut conversions: Vec<Conversion> = Vec::new();
    conversions.push(construction);
    if arity == 1 {
        let extraction = plan_record(decl, Direction::Extract, Layout::Named, fields, &ignored);
        conversions.push(extraction);
    }
    assert(conversions.deep_view() =~= named_outcome(decl@)->Ok_0);
    Ok(conversions)
}

/// Generates the conversions of a record with positional fields.
///
/// A constant generic parameter stops the generation at once. Otherwise the
/// fields' annotations are read, and the diagnostics for malformed ones are
/// recorded in `log`. A record that excludes a field is refused. What is left
/// is the construction from all fields and, where there is exactly one field,
/// its extraction.
pub fn struct_unnamed_impl(decl: &Declaration, log: &mut Vec<Diagnostic>) -> (result: Result<
    Vec<Conversion>,
    Diagnostic,
>)
    requires
        decl.shape is PositionalRecord,
    ensures
        outcome_view(result) == positional_outcome(decl@),
        final(log)@ == old(log)@ + record_log(decl@, decl@.shape->PositionalRecord_0),
{
    let fields = match &decl.shape {
        Shape::PositionalRecord(fields) => fields,
        _ => unreached(),
    };
    if let Some(fault) = find_constant(&decl.generics) {
        assert(log@ =~= old(log)@ + Seq::<Diagnostic>::empty());
        return Err(fault);
    }
    let ignored = get_ignored_fields(fields, log);
    let construction = plan_record(
        decl,
        Direction::Construct,
        Layout::Positional,
        fields,
        &ignored,
    );
    if construction.needs_default() {
        return Err(Diagnostic::new(DiagnosticKind::ExcludeOnPositionalRecord, Location::Name));
    }
    let arity = construction.arity();
    let mut conversions: Vec<Conversion> = Vec::new();
    conversions.push(construction);
    if arity == 1 {
        let extraction = plan_record(
            decl,
            Direction::Extract,
            Layout::Positional,
            fields,
            &ignored,
        );
        conversions.push(extraction);
    }
    assert(conversions.deep_view() =~= positional_outcome(decl@)->Ok_0);
    Ok(conversions)
}

/// Generates the conversions of a tagged union.
///
/// A generic parameter stops the generation at once. Otherwise each variant is
/// handled by itself: one with named fields or without a payload is passed
/// over, with a diagnostic recorded in `log`; every other variant yields the
/// construction of the union through it.
pub fn enum_impl(decl: &Declaration, log: &mut Vec<Diagnostic>) -> (result: Result<
    Vec<Conversion>,
    Diagnostic,
>)
    requires
        decl.shape is UnionType,
    ensures
        outcome_view(result) == union_outcome(decl@),
        final(log)@ == old(log)@ + union_log(decl@),
{
    let variants = match &decl.shape {
        Shape::UnionType(variants) => variants,
        _ => unreached(),
    };
    if decl.generics.len() > 0 {
        assert(log@ =~= old(log)@ + Seq::<Diagnostic>::empty());
        return Err(
            Diagnostic::new(DiagnosticKind::GenericUnionUnsupported, Location::Declaration),
        );
    }
    let mut conversions: Vec<Conversion> = Vec::new();
    let mut i: usize = 0;
    while i < variants.len()
        invariant
            i <= variants.len(),
            conversions.deep_view() == variant_conversions(
                decl.name@,
                variants.deep_view(),
                i as int,
            ),
            log@ == old(log)@ + variant_diagnostics(variants.deep_view(), i as int),
        decreases variants.len() - i,
    {
        let variant = &variants[i];
        if variant.named {
            log.push(
                Diagnostic::new(DiagnosticKind::NamedFieldsInVariant, Location::VariantFields(i)),
            );
        } else if variant.payload.len() == 0 {
            log.push(Diagnostic::new(DiagnosticKind::UnitVariant, Location::Variant(i)));
        } else {
            let ghost before = conversions.deep_view();
            let conversion = plan_variant(&decl.name, variant);
            conversions.push(conversion);
            assert(conversions.deep_view() =~= before.push(conversion@));
        }
        assert(log@ =~= old(log)@ + variant_diagnostics(variants.deep_view(), i + 1));
        i += 1;
    }
    Ok(conversions)
}

} // verus!
