//! The third stage of generation: every validation annotation has to be a
//! list of at least one rule. All that are not are reported together.

use crate::diagnostic::{rule_diagnostic, Diagnostic, DiagnosticView, GenerationError};
use crate::parser::{
    ParsedAnnotation, ParsedAnnotationView, ParsedAst, ParsedAstView, ParsedFieldView,
};
use crate::rule::{RuleError, RuleErrorView};
use vstd::prelude::*;

verus! {

/// The error of one annotation of the field `name`: the reason why reading
/// it gave no rules; and an annotation that was read without a rule is a
/// malformed list.
pub open spec fn annotation_errors(name: Seq<char>, parsed: ParsedAnnotationView) -> Seq<
    DiagnosticView,
> {
    match parsed {
        ParsedAnnotationView::Rules(rules) => if rules.len() == 0 {
            seq![rule_diagnostic(name, RuleErrorView::MalformedRuleList)]
        } else {
            Seq::empty()
        },
        ParsedAnnotationView::Failed(e) => seq![rule_diagnostic(name, e)],
    }
}

/// The errors of one field: those of its annotations, one annotation after
/// the other.
pub open spec fn field_errors(field: ParsedFieldView) -> Seq<DiagnosticView> {
    field.annotations.map_values(
        |p: ParsedAnnotationView| annotation_errors(field.name, p),
    ).flatten()
}

/// The errors of all fields, field by field in the order of declaration.
pub open spec fn rule_errors(ast: ParsedAstView) -> Seq<DiagnosticView> {
    ast.fields.map_values(|f: ParsedFieldView| field_errors(f)).flatten()
}

/// Checks that every validation annotation of every field is a list of at
/// least one rule. All annotations that are not are reported together, in
/// the order in which they were written.
pub fn analyze_ast(ast: ParsedAst) -> (r: Result<ParsedAst, GenerationError>)
    ensures
        match r {
            Ok(same) => rule_errors(ast.deep_view()).len() == 0 && same == ast,
            Err(e) => e.all() == rule_errors(ast.deep_view()),
        },
{
    let ghost fields = ast.deep_view().fields;
    let ghost per_field = |f: ParsedFieldView| field_errors(f);
    let mut errors: Vec<Diagnostic> = Vec::new();
    let mut i: usize = 0;
    proof {
        assert(fields.take(0).map_values(per_field) =~= Seq::<Seq<DiagnosticView>>::empty());
    }
    while i < ast.fields.len()
        invariant
            i <= ast.fields.len(),
            fields == ast.deep_view().fields,
            per_field == |f: ParsedFieldView| field_errors(f),
            errors.deep_view() == fields.take(i as int).map_values(per_field).flatten(),
        decreases ast.fields.len() - i,
    {
        let field = &ast.fields[i];
        let ghost seen = field.deep_view();
        let ghost before = errors.deep_view();
        let ghost annotations = seen.annotations;
        let ghost report = |p: ParsedAnnotationView| annotation_errors(seen.name, p);
        let mut j: usize = 0;
        proof {
            assert(annotations.take(0).map_values(report) =~= Seq::<Seq<DiagnosticView>>::empty());
            assert(before + Seq::<DiagnosticView>::empty() =~= before);
        }
        while j < field.annotations.len()
            invariant
                j <= field.annotations.len(),
                seen == field.deep_view(),
                annotations == seen.annotations,
                report == |p: ParsedAnnotationView| annotation_errors(seen.name, p),
                errors.deep_view() == before + annotations.take(j as int).map_values(
                    report,
                ).flatten(),
            decreases field.annotations.len() - j,
        {
            let annotation = &field.annotations[j];
            let ghost now = errors.deep_view();
            let ghost so_far = annotations.take(j as int).map_values(report);
            let ghost added = annotation_errors(seen.name, annotation.deep_view());
            proof {
                assert(annotations.take(j + 1).map_values(report) =~= so_far.push(added));
                so_far.lemma_flatten_push(added);
                assert(before + (so_far.flatten() + added) =~= now + added);
            }
            match annotation {
                ParsedAnnotation::Rules(rules) => {
                    if rules.len() == 0 {
                        errors.push(
                            Diagnostic::from_rule_error(
                                field.name.as_str(),
                                &RuleError::MalformedRuleList,
                            ),
                        );
                        proof {
                            assert(errors.deep_view() =~= now + added);
                        }
                    } else {
                        proof {
                            assert(now + added =~= now);
                        }
                    }
                },
                ParsedAnnotation::Failed(e) => {
                    errors.push(Diagnostic::from_rule_error(field.name.as_str(), e));
                    proof {
                        assert(errors.deep_view() =~= now + added);
                    }
                },
            }
            j = j + 1;
        }
        proof {
            assert(annotations.take(j as int) =~= annotations);
            assert(fields.take(i + 1).map_values(per_field) =~= fields.take(i as int).map_values(
                per_field,
            ).push(field_errors(seen)));
            fields.take(i as int).map_values(per_field).lemma_flatten_push(field_errors(seen));
        }
        i = i + 1;
    }
    proof {
        assert(fields.take(i as int) =~= fields);
    }
    match GenerationError::from_all(errors) {
        None => Ok(ast),
        Some(e) => Err(e),
    }
}

/// Every item of every part is an item of the parts put together.
pub proof fn lemma_flatten_holds_parts<A>(parts: Seq<Seq<A>>, i: int, j: int)
    requires
        0 <= i < parts.len(),
        0 <= j < parts[i].len(),
    ensures
        parts.flatten().contains(parts[i][j]),
{
    assert(parts.take(i + 1) + parts.skip(i + 1) =~= parts);
    assert(parts.take(i + 1) =~= parts.take(i).push(parts[i]));
    vstd::seq_lib::lemma_flatten_concat(parts.take(i + 1), parts.skip(i + 1));
    parts.take(i).lemma_flatten_push(parts[i]);
    let at = parts.take(i).flatten().len() + j;
    assert(parts.flatten()[at] == parts[i][j]);
}

/// Every annotation that gave no rules is reported, whatever else is
/// reported with it.
pub proof fn lemma_failed_annotation_is_reported(ast: ParsedAstView, i: int, j: int)
    requires
        0 <= i < ast.fields.len(),
        0 <= j < ast.fields[i].annotations.len(),
        ast.fields[i].annotations[j] is Failed,
    ensures
        ast.fields[i].annotations[j] matches ParsedAnnotationView::Failed(e) && rule_errors(
            ast,
        ).contains(rule_diagnostic(ast.fields[i].name, e)),
{
    let field = ast.fields[i];
    let of_annotations = field.annotations.map_values(
        |p: ParsedAnnotationView| annotation_errors(field.name, p),
    );
    let of_fields = ast.fields.map_values(|f: ParsedFieldView| field_errors(f));
    lemma_flatten_holds_parts(of_annotations, j, 0);
    let at = choose|at: int|
        0 <= at < of_annotations.flatten().len() && of_annotations.flatten()[at]
            == of_annotations[j][0];
    assert(of_fields[i] == of_annotations.flatten());
    lemma_flatten_holds_parts(of_fields, i, at);
}

} // verus!
