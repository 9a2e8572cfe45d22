use engcon::analyze::analyze_ast;
use engcon::diagnostic::{Diagnostic, ErrorKind, GenerationError};
use engcon::filter::{filter_ast, validation_annotations};
use engcon::intermediate::{field_info, intermediate_code};
use engcon::model::{
    AnnotatedField, Attribute, AttributeForm, Field, PartialAst, RecordDef, RecordKind,
};
use engcon::parser::{
    parse_annotations, parse_field, parse_validate_rules_from_attribute, ParsedAnnotation,
    ParsedAst, ParsedField,
};
use engcon::rule::{parse_rules, CmpOp, Operator, RuleError, RuleExpr};
use engcon::validator::{generate, generate_from};

fn attribute(name: &str, form: AttributeForm, args: &str) -> Attribute {
    Attribute { name: name.to_owned(), form, args: args.to_owned() }
}

fn list(args: &str) -> Attribute {
    attribute("validate_value", AttributeForm::List, args)
}

fn field(name: &str, ty: &str, attributes: Vec<Attribute>) -> Field {
    Field { name: name.to_owned(), ty: ty.to_owned(), attributes }
}

fn record(kind: RecordKind, fields: Vec<Field>) -> RecordDef {
    RecordDef { name: "Column".to_owned(), kind, fields }
}

fn annotated(name: &str, ty: &str, annotations: Vec<Attribute>) -> AnnotatedField {
    AnnotatedField { name: name.to_owned(), ty: ty.to_owned(), annotations }
}

fn ast(fields: Vec<AnnotatedField>) -> PartialAst {
    PartialAst { self_type: "Column".to_owned(), validated_fields: fields }
}

fn summary(e: &GenerationError) -> Vec<(ErrorKind, String, String)> {
    std::iter::once(&e.primary)
        .chain(e.notes.iter())
        .map(|d| (d.kind, d.subject.clone(), d.found.clone()))
        .collect()
}

fn entry(kind: ErrorKind, subject: &str, found: &str) -> (ErrorKind, String, String) {
    (kind, subject.to_owned(), found.to_owned())
}

#[test]
fn enum_is_not_a_record_type() {
    let input = record(RecordKind::Enum, vec![field("trays", "i32", vec![list("x >= 3")])]);
    let e = filter_ast(input).unwrap_err();
    assert_eq!(summary(&e), vec![entry(ErrorKind::NotARecordType, "Column", "")]);
}

#[test]
fn union_is_not_a_record_type() {
    let e = filter_ast(record(RecordKind::Union, vec![])).unwrap_err();
    assert_eq!(summary(&e), vec![entry(ErrorKind::NotARecordType, "Column", "")]);
}

#[test]
fn struct_without_annotated_field_is_refused() {
    let e = filter_ast(record(RecordKind::Struct, vec![])).unwrap_err();
    assert_eq!(summary(&e), vec![entry(ErrorKind::NoAnnotatedFields, "Column", "")]);
    let input = record(
        RecordKind::Struct,
        vec![
            field("trays", "i32", vec![]),
            field("feed_place", "i32", vec![attribute("serde", AttributeForm::List, "skip")]),
        ],
    );
    let e = filter_ast(input).unwrap_err();
    assert_eq!(summary(&e), vec![entry(ErrorKind::NoAnnotatedFields, "Column", "")]);
}

#[test]
fn filter_keeps_annotated_fields_in_order() {
    let input = record(
        RecordKind::Struct,
        vec![
            field("name", "String", vec![]),
            field("trays", "i32", vec![list("x >= 3")]),
            field("comment", "String", vec![attribute("doc", AttributeForm::NameValue, "")]),
            field(
                "feed_place",
                "i32",
                vec![
                    attribute("serde", AttributeForm::List, "rename = \"fp\""),
                    list("x < trays"),
                    attribute("doc", AttributeForm::NameValue, ""),
                    list("x >= 1"),
                ],
            ),
        ],
    );
    let ast = filter_ast(input).unwrap();
    assert_eq!(ast.self_type, "Column");
    assert_eq!(ast.validated_fields.len(), 2);
    assert_eq!(ast.validated_fields[0].name, "trays");
    assert_eq!(ast.validated_fields[0].ty, "i32");
    assert_eq!(ast.validated_fields[0].annotations.len(), 1);
    assert_eq!(ast.validated_fields[1].name, "feed_place");
    let args: Vec<&str> =
        ast.validated_fields[1].annotations.iter().map(|a| a.args.as_str()).collect();
    assert_eq!(args, vec!["x < trays", "x >= 1"]);
}

#[test]
fn only_the_validation_attribute_counts() {
    let kept = validation_annotations(vec![
        attribute("validate", AttributeForm::List, "x >= 3"),
        attribute("validate_value", AttributeForm::Path, ""),
        attribute("validate_values", AttributeForm::List, "x >= 3"),
        list("x >= 3"),
    ]);
    assert_eq!(kept.len(), 2);
    assert_eq!(kept[0].form, AttributeForm::Path);
    assert_eq!(kept[1].form, AttributeForm::List);
}

fn parsed(fields: Vec<(&str, Vec<ParsedAnnotation>)>) -> ParsedAst {
    ParsedAst {
        self_type: "Column".to_owned(),
        fields: fields
            .into_iter()
            .map(|(name, annotations)| ParsedField {
                name: name.to_owned(),
                ty: "i32".to_owned(),
                annotations,
            })
            .collect(),
    }
}

fn rules(args: &str) -> ParsedAnnotation {
    ParsedAnnotation::Rules(parse_rules(args).unwrap())
}

fn failed(e: RuleError) -> ParsedAnnotation {
    ParsedAnnotation::Failed(e)
}

fn wrong_name(found: &str) -> RuleError {
    RuleError::InvalidPlaceholder { found: found.to_owned() }
}

#[test]
fn annotation_that_is_no_list_gives_no_rules() {
    let a = attribute("validate_value", AttributeForm::Path, "x >= 3");
    assert!(matches!(parse_validate_rules_from_attribute(&a), Err(RuleError::MalformedRuleList)));
    let a = attribute("validate_value", AttributeForm::NameValue, "x >= 3");
    assert!(matches!(parse_validate_rules_from_attribute(&a), Err(RuleError::MalformedRuleList)));
    assert!(matches!(
        parse_validate_rules_from_attribute(&list("")),
        Err(RuleError::MalformedRuleList)
    ));
    let rules = parse_validate_rules_from_attribute(&list("x >= 3")).unwrap();
    assert_eq!(rules.len(), 1);
}

#[test]
fn reading_a_field_passes_over_attributes_of_other_names() {
    let field = parse_field(annotated(
        "a",
        "i32",
        vec![
            attribute("serde", AttributeForm::List, "skip"),
            list("x >= 3"),
            attribute("doc", AttributeForm::NameValue, ""),
            list("y < 9"),
            attribute("validate_value", AttributeForm::Path, ""),
        ],
    ));
    assert_eq!(field.name, "a");
    assert_eq!(field.ty, "i32");
    assert_eq!(field.annotations.len(), 3);
    assert!(matches!(&field.annotations[0], ParsedAnnotation::Rules(r) if r.len() == 1));
    assert!(matches!(
        &field.annotations[1],
        ParsedAnnotation::Failed(RuleError::InvalidPlaceholder { found }) if found == "y"
    ));
    assert!(matches!(&field.annotations[2], ParsedAnnotation::Failed(RuleError::MalformedRuleList)));
}

#[test]
fn reading_keeps_the_record_and_its_fields_in_order() {
    let read = parse_annotations(ast(vec![
        annotated("trays", "i32", vec![list("x >= 3")]),
        annotated("feed_place", "u8", vec![list("x < trays"), list("x >= 1")]),
    ]));
    assert_eq!(read.self_type, "Column");
    assert_eq!(read.fields.len(), 2);
    assert_eq!((read.fields[0].name.as_str(), read.fields[0].ty.as_str()), ("trays", "i32"));
    assert_eq!((read.fields[1].name.as_str(), read.fields[1].ty.as_str()), ("feed_place", "u8"));
    assert_eq!(read.fields[0].annotations.len(), 1);
    assert_eq!(read.fields[1].annotations.len(), 2);
}

#[test]
fn analysis_passes_a_record_without_errors_unchanged() {
    let input = parsed(vec![("trays", vec![rules("x >= 3"), rules("x < 9, x <= 8")])]);
    let same = analyze_ast(input).unwrap();
    assert_eq!(same.self_type, "Column");
    assert_eq!(same.fields.len(), 1);
    assert_eq!(same.fields[0].annotations.len(), 2);
    assert!(matches!(&same.fields[0].annotations[1], ParsedAnnotation::Rules(r) if r.len() == 2));
}

#[test]
fn analysis_reports_every_annotation_without_rules() {
    let input = parsed(vec![
        ("trays", vec![failed(RuleError::MalformedRuleList), rules("x >= 3")]),
        ("ok", vec![rules("x >= 3")]),
        (
            "ratio",
            vec![
                failed(wrong_name("y")),
                ParsedAnnotation::Rules(vec![]),
                failed(RuleError::UnsupportedOperator { found: Operator::Eq }),
            ],
        ),
    ]);
    let e = analyze_ast(input).unwrap_err();
    assert_eq!(
        summary(&e),
        vec![
            entry(ErrorKind::MalformedRuleList, "trays", ""),
            entry(ErrorKind::InvalidPlaceholder, "ratio", "y"),
            entry(ErrorKind::MalformedRuleList, "ratio", ""),
            entry(ErrorKind::UnsupportedOperator, "ratio", "=="),
        ]
    );
}

#[test]
fn analysis_refuses_an_empty_list() {
    let read = parse_annotations(ast(vec![annotated("a", "i32", vec![list("")])]));
    let e = analyze_ast(read).unwrap_err();
    assert_eq!(summary(&e), vec![entry(ErrorKind::MalformedRuleList, "a", "")]);
}

#[test]
fn rules_of_a_field_follow_its_annotations() {
    let info = field_info(ParsedField {
        name: "feed_place".to_owned(),
        ty: "i32".to_owned(),
        annotations: vec![rules("x < trays, x >= 1"), failed(wrong_name("y")), rules("x <= 99")],
    });
    assert_eq!(info.field_name, "feed_place");
    assert_eq!(info.ty, "i32");
    let ops: Vec<CmpOp> = info.rules.iter().map(|r| r.cmp_op).collect();
    assert_eq!(ops, vec![CmpOp::Lt, CmpOp::Ge, CmpOp::Le]);
    assert!(info.rules[0].right_is_field_on_self);
    assert!(matches!(&info.rules[2].right, RuleExpr::Other { text } if text == "99"));
}

#[test]
fn intermediate_code_keeps_fields_in_order() {
    let ic = intermediate_code(parsed(vec![
        ("trays", vec![rules("x >= 3")]),
        ("feed_place", vec![rules("x < trays, x >= 1")]),
    ]))
    .unwrap();
    assert_eq!(ic.self_type, "Column");
    let names: Vec<&str> = ic.field_infos.iter().map(|f| f.field_name.as_str()).collect();
    assert_eq!(names, vec!["trays", "feed_place"]);
    assert_eq!(ic.field_infos[0].rules.len(), 1);
    assert_eq!(ic.field_infos[1].rules.len(), 2);
}

#[test]
fn intermediate_code_reports_all_errors_together() {
    let e = intermediate_code(parsed(vec![
        ("trays", vec![failed(wrong_name("value"))]),
        ("fine", vec![rules("x >= 3")]),
        ("feed_place", vec![failed(RuleError::UnsupportedOperator { found: Operator::Ne })]),
    ]))
    .unwrap_err();
    assert_eq!(
        summary(&e),
        vec![
            entry(ErrorKind::InvalidPlaceholder, "trays", "value"),
            entry(ErrorKind::UnsupportedOperator, "feed_place", "!="),
        ]
    );
}

#[test]
fn errors_of_all_fields_are_reported_together() {
    let input = record(
        RecordKind::Struct,
        vec![
            field("trays", "i32", vec![list("value >= 3")]),
            field("fine", "i32", vec![list("x >= 3")]),
            field("feed_place", "i32", vec![list("x != trays"), list("x >= ")]),
            field("ratio", "f32", vec![attribute("validate_value", AttributeForm::Path, "")]),
            field("empty", "f32", vec![list("")]),
        ],
    );
    let e = generate(input).unwrap_err();
    assert_eq!(e.primary.kind, ErrorKind::InvalidPlaceholder);
    assert_eq!(
        summary(&e),
        vec![
            entry(ErrorKind::InvalidPlaceholder, "trays", "value"),
            entry(ErrorKind::UnsupportedOperator, "feed_place", "!="),
            entry(ErrorKind::MalformedRuleList, "feed_place", ""),
            entry(ErrorKind::MalformedRuleList, "ratio", ""),
            entry(ErrorKind::MalformedRuleList, "empty", ""),
        ]
    );
}

#[test]
fn wrong_placeholder_and_missing_list_are_reported_in_one_report() {
    let input = record(
        RecordKind::Struct,
        vec![
            field("a", "i32", vec![list("y >= 3")]),
            field("b", "i32", vec![attribute("validate_value", AttributeForm::Path, "")]),
        ],
    );
    let e = generate(input).unwrap_err();
    assert_eq!(
        summary(&e),
        vec![
            entry(ErrorKind::InvalidPlaceholder, "a", "y"),
            entry(ErrorKind::MalformedRuleList, "b", ""),
        ]
    );
}

#[test]
fn other_attributes_beside_a_validation_annotation_are_ignored() {
    let input = record(
        RecordKind::Struct,
        vec![field(
            "a",
            "i32",
            vec![attribute("serde", AttributeForm::List, "skip"), list("x >= 3")],
        )],
    );
    let code = generate(input).unwrap();
    assert!(code.contains("pub fn contract_a(value: i32) -> Result<(), ValidationError> {"));
    assert!(code.contains("if !(self.a >= 3) {"));
}

#[test]
fn generation_stops_at_the_filter() {
    let not_a_struct = record(RecordKind::Enum, vec![field("a", "i32", vec![list("y > 1")])]);
    let e = generate(not_a_struct).unwrap_err();
    assert_eq!(summary(&e), vec![entry(ErrorKind::NotARecordType, "Column", "")]);

    let no_annotation = record(RecordKind::Struct, vec![field("a", "i32", vec![])]);
    let e = generate(no_annotation).unwrap_err();
    assert_eq!(summary(&e), vec![entry(ErrorKind::NoAnnotatedFields, "Column", "")]);
}

#[test]
fn generation_from_what_was_read() {
    let code = generate_from(parsed(vec![("trays", vec![rules("x >= 3")])])).unwrap();
    assert!(code.contains("pub fn contract_trays(value: i32) -> Result<(), ValidationError> {"));
    assert!(code.contains("impl Validator for Column {"));
    let e = generate_from(parsed(vec![
        ("trays", vec![rules("x >= 3"), failed(wrong_name("y"))]),
        ("feed_place", vec![failed(RuleError::MalformedRuleList)]),
    ]))
    .unwrap_err();
    assert_eq!(
        summary(&e),
        vec![
            entry(ErrorKind::InvalidPlaceholder, "trays", "y"),
            entry(ErrorKind::MalformedRuleList, "feed_place", ""),
        ]
    );
}

#[test]
fn every_kind_has_its_sentence() {
    assert_eq!(ErrorKind::NotARecordType.message(), "Validator Macros only work on structs yet");
    assert_eq!(
        ErrorKind::NoAnnotatedFields.message(),
        "Use at least one validate_value() attribute helper"
    );
    assert_eq!(ErrorKind::MalformedRuleList.message(), "is not a list of comma separated rules");
    assert_eq!(
        ErrorKind::InvalidPlaceholder.message(),
        "You are required to call this identifier 'x'"
    );
    assert_eq!(
        ErrorKind::UnsupportedOperator.message(),
        "Only <, <=, >= and > are supported operators"
    );
}

#[test]
fn rule_errors_become_diagnostics_of_their_field() {
    let d = Diagnostic::from_rule_error("trays", &RuleError::MalformedRuleList);
    assert_eq!((d.kind, d.subject.as_str(), d.found.as_str()), (ErrorKind::MalformedRuleList, "trays", ""));
    let d = Diagnostic::from_rule_error("trays", &wrong_name("y"));
    assert_eq!((d.kind, d.subject.as_str(), d.found.as_str()), (ErrorKind::InvalidPlaceholder, "trays", "y"));
    let d = Diagnostic::from_rule_error(
        "trays",
        &RuleError::UnsupportedOperator { found: Operator::Eq },
    );
    assert_eq!((d.kind, d.subject.as_str(), d.found.as_str()), (ErrorKind::UnsupportedOperator, "trays", "=="));
}

#[test]
fn combined_report_keeps_the_order_of_the_errors() {
    let mut first = GenerationError::new(Diagnostic::new(ErrorKind::MalformedRuleList, "a"));
    let mut second = GenerationError::new(Diagnostic::new(ErrorKind::InvalidPlaceholder, "b"));
    second.combine(GenerationError::new(Diagnostic::new(ErrorKind::UnsupportedOperator, "c")));
    first.combine(second);
    assert_eq!(
        summary(&first),
        vec![
            entry(ErrorKind::MalformedRuleList, "a", ""),
            entry(ErrorKind::InvalidPlaceholder, "b", ""),
            entry(ErrorKind::UnsupportedOperator, "c", ""),
        ]
    );
    assert!(GenerationError::from_all(vec![]).is_none());
    let all = GenerationError::from_all(vec![
        Diagnostic::new(ErrorKind::MalformedRuleList, "a"),
        Diagnostic::new(ErrorKind::InvalidPlaceholder, "b"),
    ])
    .unwrap();
    assert_eq!(all.primary.subject, "a");
    assert_eq!(all.notes.len(), 1);
    assert_eq!(all.notes[0].subject, "b");
}
