//! The fourth stage of generation: the rules of every annotated field, one
//! list for each field.

use crate::analyze::{
    analyze_ast, annotation_errors, field_errors, lemma_flatten_holds_parts, rule_errors,
};
use crate::diagnostic::GenerationError;
use crate::parser::{
    ParsedAnnotation, ParsedAnnotationView, ParsedAst, ParsedAstView, ParsedField, ParsedFieldView,
};
use crate::rule::{ValidationRule, ValidationRuleView};
use vstd::prelude::*;

verus! {

/// A field with its rules, in the order in which they were written.
#[derive(Debug, Clone)]
pub struct FieldInfo {
    pub field_name: String,
    pub ty: String,
    pub rules: Vec<ValidationRule>,
}

/// What a `FieldInfo` holds.
pub struct FieldInfoView {
    pub field_name: Seq<char>,
    pub ty: Seq<char>,
    pub rules: Seq<ValidationRuleView>,
}

impl DeepView for FieldInfo {
    type V = FieldInfoView;

    open spec fn deep_view(&self) -> FieldInfoView {
        FieldInfoView { field_name: self.field_name@, ty: self.ty@, rules: self.rules.deep_view() }
    }
}

/// All that code generation needs: the name of the record type, and its
/// annotated fields with their rules, in the order of declaration.
#[derive(Debug, Clone)]
pub struct IntermediateCode {
    pub self_type: String,
    pub field_infos: Vec<FieldInfo>,
}

/// What an `IntermediateCode` holds.
pub struct IntermediateCodeView {
    pub self_type: Seq<char>,
    pub field_infos: Seq<FieldInfoView>,
}

impl DeepView for IntermediateCode {
    type V = IntermediateCodeView;

    open spec fn deep_view(&self) -> IntermediateCodeView {
        IntermediateCodeView {
            self_type: self.self_type@,
            field_infos: self.field_infos.deep_view(),
        }
    }
}

/// The rules that one annotation adds to its field: none, where reading it
/// gave none.
pub open spec fn rules_added(parsed: ParsedAnnotationView) -> Seq<ValidationRuleView> {
    match parsed {
        ParsedAnnotationView::Rules(rules) => rules,
        ParsedAnnotationView::Failed(_) => Seq::empty(),
    }
}

/// The rules of a field: those of its annotations, one annotation after the
/// other.
pub open spec fn field_rules(field: ParsedFieldView) -> Seq<ValidationRuleView> {
    field.annotations.map_values(|p: ParsedAnnotationView| rules_added(p)).flatten()
}

/// The field with its rules.
pub open spec fn field_info_of(field: ParsedFieldView) -> FieldInfoView {
    FieldInfoView { field_name: field.name, ty: field.ty, rules: field_rules(field) }
}

/// The intermediate code of a record: its name, and each field with its
/// rules, in the order of declaration.
pub open spec fn intermediate_code_of(ast: ParsedAstView) -> IntermediateCodeView {
    IntermediateCodeView {
        self_type: ast.self_type,
        field_infos: ast.fields.map_values(|f: ParsedFieldView| field_info_of(f)),
    }
}

/// Puts the rules of the annotations of one field into one list.
pub fn field_info(field: ParsedField) -> (info: FieldInfo)
    ensures
        info.deep_view() == field_info_of(field.deep_view()),
{
    let ghost seen = field.deep_view();
    let ParsedField { name, ty, annotations } = field;
    let ghost all = seen.annotations;
    let ghost items = annotations@;
    let ghost added = |p: ParsedAnnotationView| rules_added(p);
    let mut rules: Vec<ValidationRule> = Vec::new();
    proof {
        assert(all.take(0).map_values(added) =~= Seq::<Seq<ValidationRuleView>>::empty());
    }
    for annotation in it: annotations.into_iter()
        invariant
            it.seq() == items,
            all == Seq::new(items.len(), |i: int| items[i].deep_view()),
            added == |p: ParsedAnnotationView| rules_added(p),
            rules.deep_view() == all.take(it.index() as int).map_values(added).flatten(),
    {
        let ghost n = it.index() as int;
        let ghost before = rules.deep_view();
        proof {
            assert(all.take(n + 1).map_values(added) =~= all.take(n).map_values(added).push(
                rules_added(annotation.deep_view()),
            ));
            all.take(n).map_values(added).lemma_flatten_push(rules_added(annotation.deep_view()));
        }
        match annotation {
            ParsedAnnotation::Rules(r) => {
                let ghost more = r.deep_view();
                let mut r = r;
                rules.append(&mut r);
                proof {
                    assert(rules.deep_view() =~= before + more);
                }
            },
            ParsedAnnotation::Failed(_) => {
                proof {
                    assert(before + Seq::<ValidationRuleView>::empty() =~= before);
                }
            },
        }
    }
    proof {
        assert(all.take(items.len() as int) =~= all);
    }
    FieldInfo { field_name: name, ty, rules }
}

/// Builds the intermediate code of a record. Where an annotation gave no
/// rules there is no intermediate code: all such annotations are reported
/// together, as `analyze_ast` reports them.
pub fn intermediate_code(ast: ParsedAst) -> (r: Result<IntermediateCode, GenerationError>)
    ensures
        match r {
            Ok(ic) => rule_errors(ast.deep_view()).len() == 0 && ic.deep_view()
                == intermediate_code_of(ast.deep_view()),
            Err(e) => e.all() == rule_errors(ast.deep_view()),
        },
{
    let ast = match analyze_ast(ast) {
        Ok(ast) => ast,
        Err(e) => {
            return Err(e);
        },
    };
    let ghost whole = ast.deep_view();
    let ParsedAst { self_type, fields } = ast;
    let ghost all = whole.fields;
    let ghost items = fields@;
    let ghost info_of = |f: ParsedFieldView| field_info_of(f);
    let mut field_infos: Vec<FieldInfo> = Vec::new();
    proof {
        assert(all.take(0).map_values(info_of) =~= Seq::<FieldInfoView>::empty());
    }
    for field in it: fields.into_iter()
        invariant
            it.seq() == items,
            all == Seq::new(items.len(), |i: int| items[i].deep_view()),
            info_of == |f: ParsedFieldView| field_info_of(f),
            field_infos.deep_view() == all.take(it.index() as int).map_values(info_of),
    {
        let ghost n = it.index() as int;
        let ghost before = field_infos.deep_view();
        let ghost seen = field.deep_view();
        field_infos.push(field_info(field));
        proof {
            assert(field_infos.deep_view() =~= before.push(field_info_of(seen)));
            assert(all.take(n + 1).map_values(info_of) =~= all.take(n).map_values(info_of).push(
                field_info_of(seen),
            ));
        }
    }
    proof {
        assert(all.take(items.len() as int) =~= all);
    }
    Ok(IntermediateCode { self_type, field_infos })
}

/// In the intermediate code of a record without errors, every field that
/// carries an annotation has a rule.
pub proof fn lemma_intermediate_code_well_formed(ast: ParsedAstView)
    requires
        rule_errors(ast).len() == 0,
        forall|k: int| 0 <= k < ast.fields.len() ==> (#[trigger] ast.fields[k]).annotations.len() > 0,
    ensures
        forall|k: int|
            0 <= k < ast.fields.len() ==> (#[trigger] intermediate_code_of(
                ast,
            ).field_infos[k]).rules.len() > 0,
{
    assert forall|k: int| 0 <= k < ast.fields.len() implies (#[trigger] intermediate_code_of(
        ast,
    ).field_infos[k]).rules.len() > 0 by {
        let field = ast.fields[k];
        let first = field.annotations[0];
        let of_annotations = field.annotations.map_values(
            |p: ParsedAnnotationView| annotation_errors(field.name, p),
        );
        let of_fields = ast.fields.map_values(|f: ParsedFieldView| field_errors(f));
        if annotation_errors(field.name, first).len() > 0 {
            lemma_flatten_holds_parts(of_annotations, 0, 0);
            let at = choose|at: int|
                0 <= at < of_annotations.flatten().len() && of_annotations.flatten()[at]
                    == of_annotations[0][0];
            assert(of_fields[k] == of_annotations.flatten());
            lemma_flatten_holds_parts(of_fields, k, at);
        } else {
            let added = field.annotations.map_values(|p: ParsedAnnotationView| rules_added(p));
            lemma_flatten_holds_parts(added, 0, 0);
        }
    }
}

} // verus!
