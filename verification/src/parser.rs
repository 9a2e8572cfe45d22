//! The second stage of generation: reading the validation annotations of
//! every annotated field into rules.

use crate::model::{
    AnnotatedField, AnnotatedFieldView, Attribute, AttributeForm, AttributeView, PartialAst,
    PartialAstView,
};
use crate::rule::{
    all_well_formed, parse_rules, RuleError, RuleErrorView, ValidationRule, ValidationRuleView,
};
use crate::text::same_text;
use vstd::prelude::*;

verus! {

/// What reading one validation annotation gave: its rules, or the reason
/// why it has none.
#[derive(Debug, Clone)]
pub enum ParsedAnnotation {
    Rules(Vec<ValidationRule>),
    Failed(RuleError),
}

/// What a `ParsedAnnotation` holds.
pub enum ParsedAnnotationView {
    Rules(Seq<ValidationRuleView>),
    Failed(RuleErrorView),
}

impl DeepView for ParsedAnnotation {
    type V = ParsedAnnotationView;

    open spec fn deep_view(&self) -> ParsedAnnotationView {
        match self {
            ParsedAnnotation::Rules(rules) => ParsedAnnotationView::Rules(rules.deep_view()),
            ParsedAnnotation::Failed(e) => ParsedAnnotationView::Failed(e.deep_view()),
        }
    }
}

/// An annotated field with what reading each of its validation annotations
/// gave, in the order of the annotations.
#[derive(Debug, Clone)]
pub struct ParsedField {
    pub name: String,
    pub ty: String,
    pub annotations: Vec<ParsedAnnotation>,
}

/// What a `ParsedField` holds.
pub struct ParsedFieldView {
    pub name: Seq<char>,
    pub ty: Seq<char>,
    pub annotations: Seq<ParsedAnnotationView>,
}

impl DeepView for ParsedField {
    type V = ParsedFieldView;

    open spec fn deep_view(&self) -> ParsedFieldView {
        ParsedFieldView {
            name: self.name@,
            ty: self.ty@,
            annotations: self.annotations.deep_view(),
        }
    }
}

/// A record with the annotations of its annotated fields read.
#[derive(Debug, Clone)]
pub struct ParsedAst {
    pub self_type: String,
    pub fields: Vec<ParsedField>,
}

/// What a `ParsedAst` holds.
pub struct ParsedAstView {
    pub self_type: Seq<char>,
    pub fields: Seq<ParsedFieldView>,
}

impl DeepView for ParsedAst {
    type V = ParsedAstView;

    open spec fn deep_view(&self) -> ParsedAstView {
        ParsedAstView { self_type: self.self_type@, fields: self.fields.deep_view() }
    }
}

/// Whether `parsed` can be what reading the annotation gave. Rules come
/// only from a list that has characters; they are well formed, at least one
/// and no more than the list has characters. An annotation that is no list,
/// or whose list has no characters, is a malformed list of rules; any other
/// error names something that is at fault indeed.
pub open spec fn reads_as(annotation: AttributeView, parsed: ParsedAnnotationView) -> bool {
    match parsed {
        ParsedAnnotationView::Rules(rules) => {
            &&& annotation.form == AttributeForm::List
            &&& 1 <= rules.len() <= annotation.args.len()
            &&& all_well_formed(rules)
        },
        ParsedAnnotationView::Failed(e) => {
            &&& e.well_founded()
            &&& annotation.form != AttributeForm::List || annotation.args.len() == 0 ==> e
                == RuleErrorView::MalformedRuleList
        },
    }
}

/// Whether `parsed` can be what reading the validation annotations of the
/// field gave: it has the field's name and type, and for each validation
/// annotation of the field, in their order, what reading it gave.
/// Attributes of other names are passed over.
pub open spec fn field_reads_as(field: AnnotatedFieldView, parsed: ParsedFieldView) -> bool {
    &&& parsed.name == field.name
    &&& parsed.ty == field.ty
    &&& parsed.annotations.len() == validation_annotations_of(field).len()
    &&& forall|j: int|
        0 <= j < parsed.annotations.len() ==> reads_as(
            validation_annotations_of(field)[j],
            #[trigger] parsed.annotations[j],
        )
}

/// The validation annotations among the annotations of a field.
pub open spec fn validation_annotations_of(field: AnnotatedFieldView) -> Seq<AttributeView> {
    field.annotations.filter(|a: AttributeView| a.is_validation())
}

/// Whether `parsed` can be what reading the annotations of the record gave:
/// it has the record's name, and for each of its fields, in their order,
/// what reading the field gave.
pub open spec fn ast_reads_as(ast: PartialAstView, parsed: ParsedAstView) -> bool {
    &&& parsed.self_type == ast.self_type
    &&& parsed.fields.len() == ast.validated_fields.len()
    &&& forall|i: int|
        0 <= i < parsed.fields.len() ==> field_reads_as(
            ast.validated_fields[i],
            #[trigger] parsed.fields[i],
        )
}

/// Reads the rules of one annotation: those of its argument list, where it
/// is written as a list.
pub fn parse_validate_rules_from_attribute(attribute: &Attribute) -> (r: Result<
    Vec<ValidationRule>,
    RuleError,
>)
    ensures
        match r {
            Ok(rules) => reads_as(
                attribute.deep_view(),
                ParsedAnnotationView::Rules(rules.deep_view()),
            ),
            Err(e) => reads_as(attribute.deep_view(), ParsedAnnotationView::Failed(e.deep_view())),
        },
{
    match attribute.form {
        AttributeForm::List => parse_rules(attribute.args.as_str()),
        _ => Err(RuleError::MalformedRuleList),
    }
}

/// Reads the validation annotations of one field.
pub fn parse_field(field: AnnotatedField) -> (parsed: ParsedField)
    ensures
        field_reads_as(field.deep_view(), parsed.deep_view()),
{
    let ghost seen = field.deep_view();
    let AnnotatedField { name, ty, annotations } = field;
    let ghost all = seen.annotations;
    let ghost wanted = |a: AttributeView| a.is_validation();
    let mut parsed: Vec<ParsedAnnotation> = Vec::new();
    let mut i: usize = 0;
    proof {
        reveal(Seq::filter);
        assert(all.take(0).filter(wanted) =~= Seq::<AttributeView>::empty());
    }
    while i < annotations.len()
        invariant
            i <= annotations.len(),
            all == annotations.deep_view(),
            wanted == |a: AttributeView| a.is_validation(),
            parsed.len() == all.take(i as int).filter(wanted).len(),
            forall|j: int|
                0 <= j < parsed.len() ==> reads_as(
                    all.take(i as int).filter(wanted)[j],
                    #[trigger] parsed.deep_view()[j],
                ),
        decreases annotations.len() - i,
    {
        let annotation = &annotations[i];
        let ghost before = parsed.deep_view();
        let ghost kept = all.take(i as int).filter(wanted);
        proof {
            assert(all.take(i + 1) =~= all.take(i as int).push(annotation.deep_view()));
            all.take(i as int).lemma_filter_push(annotation.deep_view(), wanted);
        }
        if same_text(annotation.name.as_str(), "validate_value") {
            let outcome = match parse_validate_rules_from_attribute(annotation) {
                Ok(rules) => ParsedAnnotation::Rules(rules),
                Err(e) => ParsedAnnotation::Failed(e),
            };
            parsed.push(outcome);
            proof {
                assert(parsed.deep_view() =~= before.push(outcome.deep_view()));
                assert forall|j: int| 0 <= j < parsed.len() implies reads_as(
                    kept.push(annotation.deep_view())[j],
                    #[trigger] parsed.deep_view()[j],
                ) by {
                    if j < before.len() {
                        assert(parsed.deep_view()[j] == before[j]);
                    }
                }
            }
        }
        i = i + 1;
    }
    proof {
        assert(all.take(i as int) =~= all);
    }
    ParsedField { name, ty, annotations: parsed }
}

/// Reads the validation annotations of every field of a record.
pub fn parse_annotations(ast: PartialAst) -> (parsed: ParsedAst)
    ensures
        ast_reads_as(ast.deep_view(), parsed.deep_view()),
{
    let ghost whole = ast.deep_view();
    let PartialAst { self_type, validated_fields } = ast;
    let ghost all = whole.validated_fields;
    let ghost items = validated_fields@;
    let mut fields: Vec<ParsedField> = Vec::new();
    for field in it: validated_fields.into_iter()
        invariant
            it.seq() == items,
            all == Seq::new(items.len(), |i: int| items[i].deep_view()),
            fields.len() == it.index(),
            forall|k: int|
                0 <= k < fields.len() ==> field_reads_as(all[k], #[trigger] fields.deep_view()[k]),
    {
        let ghost before = fields.deep_view();
        let parsed = parse_field(field);
        fields.push(parsed);
        proof {
            assert(fields.deep_view() =~= before.push(parsed.deep_view()));
            assert forall|k: int| 0 <= k < fields.len() implies field_reads_as(
                all[k],
                #[trigger] fields.deep_view()[k],
            ) by {
                if k < before.len() {
                    assert(fields.deep_view()[k] == before[k]);
                }
            }
        }
    }
    ParsedAst { self_type, fields }
}

} // verus!
