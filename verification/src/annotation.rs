//! Reading the annotations of a field: which fields are excluded from a
//! conversion, and which annotations are reported as unrecognized.
//!
//! The one recognized annotation is written `glue(ignore)`. An argument list
//! made of letters and blanks is parsed as a meta item by `syn`; which lists
//! are parsed, and what follows from the parse, is decided here.

use crate::diagnostic::{Diagnostic, DiagnosticKind, Location};
use crate::model::{Annotation, AnnotationModel, Field, FieldModel};
use crate::text::text_is;
use vstd::prelude::*;

verus! {

/// The path under which the recognized annotation is written.
pub open spec fn marker_key() -> Seq<char> {
    "glue"@
}

/// The argument that makes the annotation exclude its field.
pub open spec fn marker_argument() -> Seq<char> {
    "ignore"@
}

/// The longest argument list that is handed to the parser, in characters.
pub const MAX_ARGUMENTS: usize = 256;

/// An ASCII letter.
pub open spec fn is_letter(c: char) -> bool {
    ('a' <= c && c <= 'z') || ('A' <= c && c <= 'Z')
}

/// An argument list is plain when it is made of ASCII letters and blanks only
/// and is no longer than [`MAX_ARGUMENTS`]. Such a text holds words and
/// nothing else: no delimiter, no operator, no literal, no character beyond
/// ASCII.
pub open spec fn plain(arguments: Seq<char>) -> bool {
    &&& arguments.len() <= MAX_ARGUMENTS
    &&& forall|i: int|
        0 <= i < arguments.len() ==> is_letter(#[trigger] arguments[i]) || arguments[i] == ' '
}

/// The identifier that `syn` reads out of a plain argument list: the result
/// of `syn::parse_str::<syn::Meta>` on the text, where that is a `Meta::Path`
/// for which `syn::Path::get_ident` yields an identifier, as that identifier's
/// text; `None` for every other outcome of the parse. It is spoken of for
/// plain texts only.
pub uninterp spec fn marker_word(arguments: Seq<char>) -> Option<Seq<char>>;

/// Calls `syn::parse_str::<syn::Meta>` on `arguments` and, for a
/// `Meta::Path`, `syn::Path::get_ident` on the path and `to_string` on the
/// identifier.
///
/// Only plain texts are admitted. `syn` has the text split into tokens by
/// `proc_macro2`, which uses the compiler's lexer inside a macro expansion and
/// its own elsewhere; it then parses nested groups and chains of operators by
/// recursion. A plain text is a row of words of ASCII letters, each of them
/// one identifier to either lexer, so that the parse sees the same tokens
/// everywhere, meets no lexing error and does not recurse. Of the result
/// nothing is claimed but that it is the value named [`marker_word`] for this
/// text.
#[verifier::external_body]
fn parse_marker_word(arguments: &str) -> (word: Option<String>)
    requires
        plain(arguments@),
    ensures
        word.deep_view() == marker_word(arguments@),
{
    match syn::parse_str::<syn::Meta>(arguments) {
        Ok(syn::Meta::Path(path)) => match path.get_ident() {
            Some(ident) => Some(ident.to_string()),
            None => None,
        },
        Ok(syn::Meta::List(_)) => None,
        Ok(syn::Meta::NameValue(_)) => None,
        Err(_) => None,
    }
}

/// Whether an argument list is plain.
pub fn is_plain(arguments: &str) -> (yes: bool)
    ensures
        yes == plain(arguments@),
{
    let length = arguments.unicode_len();
    if length > MAX_ARGUMENTS {
        return false;
    }
    let mut i: usize = 0;
    while i < length
        invariant
            length == arguments@.len(),
            length <= MAX_ARGUMENTS,
            i <= length,
            forall|j: int|
                0 <= j < i ==> is_letter(#[trigger] arguments@[j]) || arguments@[j] == ' ',
        decreases length - i,
    {
        let c = arguments.get_char(i);
        let letter = ('a' <= c && c <= 'z') || ('A' <= c && c <= 'Z');
        if !letter && c != ' ' {
            assert(!(is_letter(arguments@[i as int]) || arguments@[i as int] == ' '));
            return false;
        }
        i += 1;
    }
    true
}

/// What an annotation means for its field.
#[derive(Clone, Copy, Debug, PartialEq, Eq, Structural)]
pub enum Verdict {
    /// Written under another path: not looked at any further.
    Unrelated,
    /// The recognized form: the field is excluded.
    Excluded,
    /// Written under the recognized path, but in another form.
    Malformed,
}

/// The verdict on an argument list, given the identifier read out of it.
pub open spec fn verdict_of_word(word: Option<Seq<char>>) -> Verdict {
    if word == Some(marker_argument()) {
        Verdict::Excluded
    } else {
        Verdict::Malformed
    }
}

/// The verdict on an annotation. Under the recognized path, an argument list
/// that is plain goes by the identifier read out of it; an annotation without
/// a delimited argument list, or with one that is not plain, is malformed.
pub open spec fn verdict_of(annotation: AnnotationModel) -> Verdict {
    if annotation.key != marker_key() {
        Verdict::Unrelated
    } else {
        match annotation.arguments {
            Some(arguments) if plain(arguments) => verdict_of_word(marker_word(arguments)),
            _ => Verdict::Malformed,
        }
    }
}

/// Decides on an argument list from the identifier that the parser read out of
/// it: only the single identifier `ignore` excludes the field.
pub fn verdict_from_word(word: &Option<String>) -> (verdict: Verdict)
    ensures
        verdict == verdict_of_word(word.deep_view()),
{
    match word {
        Some(word) => {
            if text_is(word, "ignore") {
                Verdict::Excluded
            } else {
                Verdict::Malformed
            }
        },
        None => Verdict::Malformed,
    }
}

/// Decides on one annotation. An annotation under another path than `glue` is
/// unrelated. One under `glue` is malformed where it has no delimited argument
/// list, or one that is not plain: such a list cannot be the single word
/// `ignore`, and is not parsed. A plain list is parsed, and the parse decides.
pub fn annotation_verdict(annotation: &Annotation) -> (verdict: Verdict)
    ensures
        verdict == verdict_of(annotation@),
{
    if !text_is(&annotation.key, "glue") {
        return Verdict::Unrelated;
    }
    match &annotation.arguments {
        Some(arguments) => {
            if !is_plain(arguments.as_str()) {
                return Verdict::Malformed;
            }
            let word = parse_marker_word(arguments.as_str());
            verdict_from_word(&word)
        },
        None => Verdict::Malformed,
    }
}

/// A field is excluded as soon as one of its annotations has the recognized
/// form.
pub open spec fn field_excluded(annotations: Seq<AnnotationModel>) -> bool {
    exists|i: int|
        0 <= i < annotations.len() && verdict_of(#[trigger] annotations[i]) == Verdict::Excluded
}

/// The annotations of a field are read in order, up to the first that excludes
/// it: annotation `i` is read when none before it excludes the field.
pub open spec fn is_read(annotations: Seq<AnnotationModel>, i: int) -> bool {
    forall|j: int| 0 <= j < i ==> verdict_of(#[trigger] annotations[j]) != Verdict::Excluded
}

/// The diagnostic for the malformed annotation `index` of field `field`.
pub open spec fn malformed_at(field: int, index: int) -> Diagnostic {
    Diagnostic {
        kind: DiagnosticKind::MalformedAnnotation,
        location: Location::Annotation { field: field as usize, index: index as usize },
    }
}

/// The diagnostics for the first `n` annotations of field `field`: one for each
/// malformed annotation that is read, in order.
pub open spec fn field_diagnostics(annotations: Seq<AnnotationModel>, field: int, n: int) -> Seq<
    Diagnostic,
>
    decreases n,
{
    if n <= 0 {
        Seq::empty()
    } else {
        let before = field_diagnostics(annotations, field, n - 1);
        if verdict_of(annotations[n - 1]) == Verdict::Malformed && is_read(annotations, n - 1) {
            before.push(malformed_at(field, n - 1))
        } else {
            before
        }
    }
}

/// For each field, whether it is excluded.
pub open spec fn exclusions(fields: Seq<FieldModel>) -> Seq<bool> {
    Seq::new(fields.len(), |i: int| field_excluded(fields[i].annotations))
}

/// The diagnostics for the annotations of the first `n` fields, field by field.
pub open spec fn annotation_diagnostics(fields: Seq<FieldModel>, n: int) -> Seq<Diagnostic>
    decreases n,
{
    if n <= 0 {
        Seq::empty()
    } else {
        annotation_diagnostics(fields, n - 1) + field_diagnostics(
            fields[n - 1].annotations,
            n - 1,
            fields[n - 1].annotations.len() as int,
        )
    }
}

/// Once an annotation excludes the field, no later annotation adds a
/// diagnostic.
proof fn lemma_nothing_after_exclusion(
    annotations: Seq<AnnotationModel>,
    field: int,
    stop: int,
    n: int,
)
    requires
        0 <= stop < n <= annotations.len(),
        verdict_of(annotations[stop]) == Verdict::Excluded,
    ensures
        field_diagnostics(annotations, field, n) == field_diagnostics(annotations, field, stop),
    decreases n,
{
    if n > stop + 1 {
        lemma_nothing_after_exclusion(annotations, field, stop, n - 1);
        assert(!is_read(annotations, n - 1));
    }
}

/// Every annotation diagnostic is recoverable.
pub proof fn lemma_field_diagnostics_recoverable(
    annotations: Seq<AnnotationModel>,
    field: int,
    n: int,
)
    ensures
        crate::diagnostic::all_recoverable(field_diagnostics(annotations, field, n)),
    decreases n,
{
    if n > 0 {
        lemma_field_diagnostics_recoverable(annotations, field, n - 1);
    }
}

/// Reads the annotations of field number `index` and says whether the field is
/// excluded. Each malformed annotation met on the way is recorded in `log`.
pub fn scan_field(field: &Field, index: usize, log: &mut Vec<Diagnostic>) -> (excluded: bool)
    ensures
        excluded == field_excluded(field@.annotations),
        final(log)@ == old(log)@ + field_diagnostics(
            field@.annotations,
            index as int,
            field@.annotations.len() as int,
        ),
{
    let ghost annotations = field@.annotations;
    let mut i: usize = 0;
    while i < field.annotations.len()
        invariant
            annotations == field@.annotations,
            i <= field.annotations.len(),
            is_read(annotations, i as int),
            log@ == old(log)@ + field_diagnostics(annotations, index as int, i as int),
        decreases field.annotations.len() - i,
    {
        let verdict = annotation_verdict(&field.annotations[i]);
        assert(verdict == verdict_of(annotations[i as int]));
        match verdict {
            Verdict::Excluded => {
                proof {
                    if i + 1 < annotations.len() {
                        lemma_nothing_after_exclusion(
                            annotations,
                            index as int,
                            i as int,
                            annotations.len() as int,
                        );
                    }
                }
                return true;
            },
            Verdict::Malformed => {
                log.push(
                    Diagnostic::new(
                        DiagnosticKind::MalformedAnnotation,
                        Location::Annotation { field: index, index: i },
                    ),
                );
            },
            Verdict::Unrelated => {},
        }
        i += 1;
    }
    false
}

/// Says of each field whether it is excluded, and records in `log` the
/// diagnostics for the malformed annotations, field by field.
pub fn get_ignored_fields(fields: &Vec<Field>, log: &mut Vec<Diagnostic>) -> (ignored: Vec<bool>)
    ensures
        ignored@ == exclusions(fields.deep_view()),
        final(log)@ == old(log)@ + annotation_diagnostics(
            fields.deep_view(),
            fields.len() as int,
        ),
{
    let mut ignored: Vec<bool> = Vec::new();
    let mut i: usize = 0;
    while i < fields.len()
        invariant
            i <= fields.len(),
            ignored@.len() == i,
            forall|j: int|
                0 <= j < i ==> ignored@[j] == field_excluded(
                    (#[trigger] fields.deep_view()[j]).annotations,
                ),
            log@ == old(log)@ + annotation_diagnostics(fields.deep_view(), i as int),
        decreases fields.len() - i,
    {
        let excluded = scan_field(&fields[i], i, log);
        ignored.push(excluded);
        i += 1;
    }
    assert(ignored@ =~= exclusions(fields.deep_view()));
    ignored
}

} // verus!
