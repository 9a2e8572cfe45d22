//! Generation as a whole: from the definition of a record to the source
//! text of its validation code.

use crate::analyze::{analyze_ast, lemma_failed_annotation_is_reported, rule_errors};
use crate::codegen::{codegen, generated_source};
use crate::diagnostic::{rule_diagnostic, DiagnosticView, ErrorKind, GenerationError};
use crate::filter::{filter_ast, filter_outcome};
use crate::intermediate::{intermediate_code, intermediate_code_of};
use crate::model::{AttributeForm, FieldView, PartialAstView, RecordDef, RecordDefView, RecordKind};
use crate::parser::{
    ast_reads_as, parse_annotations, validation_annotations_of, ParsedAnnotationView, ParsedAst,
    ParsedAstView,
};
use crate::rule::{Operator, RuleErrorView};
use vstd::prelude::*;

verus! {

/// A result of generation as the text and the errors that it holds.
pub open spec fn generation_view(r: Result<String, GenerationError>) -> Result<
    Seq<char>,
    Seq<DiagnosticView>,
> {
    match r {
        Ok(code) => Ok(code@),
        Err(e) => Err(e.all()),
    }
}

/// What generation makes of a record whose annotations were read: where an
/// annotation gave no rules, all such annotations are reported together and
/// no code is written; else the code is written from the rules.
pub open spec fn generation_from(parsed: ParsedAstView) -> Result<Seq<char>, Seq<DiagnosticView>> {
    if rule_errors(parsed).len() > 0 {
        Err(rule_errors(parsed))
    } else {
        Ok(generated_source(intermediate_code_of(parsed)))
    }
}

/// Whether `r` can be what generation makes of a record definition. A
/// definition that the filter refuses gives the filter's error. Of any
/// other, the annotations are read, and generation goes on from what
/// reading them gave.
pub open spec fn generation_of(
    input: RecordDefView,
    r: Result<Seq<char>, Seq<DiagnosticView>>,
) -> bool {
    match filter_outcome(input) {
        Err(d) => r == Err::<Seq<char>, Seq<DiagnosticView>>(seq![d]),
        Ok(ast) => exists|parsed: ParsedAstView|
            ast_reads_as(ast, parsed) && r == #[trigger] generation_from(parsed),
    }
}

/// Generates the validation code of a record whose annotations were read:
/// checks what reading gave, builds the intermediate code and writes the
/// source text.
pub fn generate_from(parsed: ParsedAst) -> (r: Result<String, GenerationError>)
    ensures
        generation_view(r) == generation_from(parsed.deep_view()),
{
    let parsed = match analyze_ast(parsed) {
        Ok(parsed) => parsed,
        Err(e) => {
            return Err(e);
        },
    };
    let ic = match intermediate_code(parsed) {
        Ok(ic) => ic,
        Err(e) => {
            return Err(e);
        },
    };
    Ok(codegen(ic))
}

/// Generates the validation code of a record, as source text, or reports
/// why the record's definition does not allow it.
pub fn generate(input: RecordDef) -> (r: Result<String, GenerationError>)
    ensures
        generation_of(input.deep_view(), generation_view(r)),
{
    let ast = match filter_ast(input) {
        Ok(ast) => ast,
        Err(e) => {
            return Err(e);
        },
    };
    let parsed = parse_annotations(ast);
    let ghost read = parsed.deep_view();
    let r = generate_from(parsed);
    proof {
        assert(generation_view(r) == generation_from(read));
    }
    r
}

/// A text none of whose items passes `keep` has nothing left after filtering.
proof fn lemma_filter_nothing<A>(items: Seq<A>, keep: spec_fn(A) -> bool)
    requires
        forall|i: int| 0 <= i < items.len() ==> !keep(#[trigger] items[i]),
    ensures
        items.filter(keep).len() == 0,
    decreases items.len(),
{
    reveal(Seq::filter);
    if items.len() > 0 {
        lemma_filter_nothing(items.drop_last(), keep);
    }
}

/// A struct none of whose fields carries a validation annotation is
/// refused for that reason, whatever else it holds.
pub proof fn lemma_struct_without_annotations_is_refused(
    input: RecordDefView,
    r: Result<Seq<char>, Seq<DiagnosticView>>,
)
    requires
        input.kind == RecordKind::Struct,
        forall|i: int| 0 <= i < input.fields.len() ==> !(#[trigger] input.fields[i]).is_annotated(),
        generation_of(input, r),
    ensures
        r == Err::<Seq<char>, Seq<DiagnosticView>>(
            seq![
                DiagnosticView {
                    kind: ErrorKind::NoAnnotatedFields,
                    subject: input.name,
                    found: Seq::empty(),
                },
            ],
        ),
{
    lemma_filter_nothing(input.fields, |f: FieldView| f.is_annotated());
}

/// An annotation that gave no rules ends generation: no code is written,
/// and the report holds the annotation's error on its field together with
/// the errors of all other annotations that gave no rules.
pub proof fn lemma_failed_annotation_ends_generation(
    parsed: ParsedAstView,
    i: int,
    j: int,
    e: RuleErrorView,
)
    requires
        0 <= i < parsed.fields.len(),
        0 <= j < parsed.fields[i].annotations.len(),
        parsed.fields[i].annotations[j] == ParsedAnnotationView::Failed(e),
    ensures
        generation_from(parsed) == Err::<Seq<char>, Seq<DiagnosticView>>(rule_errors(parsed)),
        rule_errors(parsed).contains(rule_diagnostic(parsed.fields[i].name, e)),
{
    lemma_failed_annotation_is_reported(parsed, i, j);
}

/// An annotation with a rule that starts with another name than the
/// placeholder ends generation with an error of the kind
/// `InvalidPlaceholder`, which names the field and the name that was found.
pub proof fn lemma_invalid_placeholder_is_reported(
    parsed: ParsedAstView,
    i: int,
    j: int,
    found: Seq<char>,
)
    requires
        0 <= i < parsed.fields.len(),
        0 <= j < parsed.fields[i].annotations.len(),
        parsed.fields[i].annotations[j] == ParsedAnnotationView::Failed(
            RuleErrorView::InvalidPlaceholder { found },
        ),
    ensures
        generation_from(parsed) matches Err(errors) && errors.contains(
            DiagnosticView {
                kind: ErrorKind::InvalidPlaceholder,
                subject: parsed.fields[i].name,
                found,
            },
        ),
{
    lemma_failed_annotation_ends_generation(
        parsed,
        i,
        j,
        RuleErrorView::InvalidPlaceholder { found },
    );
}

/// An annotation with a rule whose operator rules do not support ends
/// generation with an error of the kind `UnsupportedOperator`, which names
/// the field and the operator.
pub proof fn lemma_unsupported_operator_is_reported(
    parsed: ParsedAstView,
    i: int,
    j: int,
    found: Operator,
)
    requires
        0 <= i < parsed.fields.len(),
        0 <= j < parsed.fields[i].annotations.len(),
        parsed.fields[i].annotations[j] == ParsedAnnotationView::Failed(
            RuleErrorView::UnsupportedOperator { found },
        ),
    ensures
        generation_from(parsed) matches Err(errors) && errors.contains(
            DiagnosticView {
                kind: ErrorKind::UnsupportedOperator,
                subject: parsed.fields[i].name,
                found: found.spec_text(),
            },
        ),
{
    lemma_failed_annotation_ends_generation(
        parsed,
        i,
        j,
        RuleErrorView::UnsupportedOperator { found },
    );
}

/// A validation annotation that is not written as a list, or whose list is
/// empty, ends generation with an error of the kind `MalformedRuleList` on
/// its field, whatever reading the other annotations gives.
pub proof fn lemma_annotation_without_rules_is_reported(
    input: RecordDefView,
    ast: PartialAstView,
    i: int,
    j: int,
    r: Result<Seq<char>, Seq<DiagnosticView>>,
)
    requires
        filter_outcome(input) == Ok::<PartialAstView, DiagnosticView>(ast),
        0 <= i < ast.validated_fields.len(),
        0 <= j < validation_annotations_of(ast.validated_fields[i]).len(),
        validation_annotations_of(ast.validated_fields[i])[j].form != AttributeForm::List
            || validation_annotations_of(ast.validated_fields[i])[j].args.len() == 0,
        generation_of(input, r),
    ensures
        r matches Err(errors) && errors.contains(
            DiagnosticView {
                kind: ErrorKind::MalformedRuleList,
                subject: ast.validated_fields[i].name,
                found: Seq::empty(),
            },
        ),
{
    let parsed = choose|parsed: ParsedAstView|
        ast_reads_as(ast, parsed) && r == #[trigger] generation_from(parsed);
    assert(parsed.fields[i].annotations[j] == ParsedAnnotationView::Failed(
        RuleErrorView::MalformedRuleList,
    ));
    lemma_failed_annotation_ends_generation(parsed, i, j, RuleErrorView::MalformedRuleList);
}

} // verus!
