//! The first stage of generation: selecting the fields that carry
//! validation annotations.

use crate::diagnostic::{Diagnostic, DiagnosticView, ErrorKind, GenerationError};
use crate::model::{
    AnnotatedField, AnnotatedFieldView, Attribute, AttributeView, Field, FieldView, PartialAst,
    PartialAstView, RecordDef, RecordDefView, RecordKind,
};
use crate::text::same_text;
use vstd::prelude::*;

verus! {

/// The annotated fields among `fields`, in their order, each with its
/// validation annotations alone.
pub open spec fn annotated_fields(fields: Seq<FieldView>) -> Seq<AnnotatedFieldView> {
    fields.filter(|f: FieldView| f.is_annotated()).map_values(|f: FieldView| f.annotated())
}

/// What filtering makes of a record definition: a type that is no struct is
/// refused, then a struct without an annotated field; of any other struct
/// the name and the annotated fields stay.
pub open spec fn filter_outcome(input: RecordDefView) -> Result<PartialAstView, DiagnosticView> {
    if input.kind != RecordKind::Struct {
        Err(
            DiagnosticView {
                kind: ErrorKind::NotARecordType,
                subject: input.name,
                found: Seq::empty(),
            },
        )
    } else if annotated_fields(input.fields).len() == 0 {
        Err(
            DiagnosticView {
                kind: ErrorKind::NoAnnotatedFields,
                subject: input.name,
                found: Seq::empty(),
            },
        )
    } else {
        Ok(
            PartialAstView {
                self_type: input.name,
                validated_fields: annotated_fields(input.fields),
            },
        )
    }
}

/// Whether every field of a list is a well-formed annotated field.
pub open spec fn all_annotated(fields: Seq<AnnotatedFieldView>) -> bool {
    forall|i: int| 0 <= i < fields.len() ==> (#[trigger] fields[i]).well_formed()
}

/// The validation annotations among the attributes of a field.
pub fn validation_annotations(attributes: Vec<Attribute>) -> (kept: Vec<Attribute>)
    ensures
        kept.deep_view() == attributes.deep_view().filter(|a: AttributeView| a.is_validation()),
        forall|i: int| 0 <= i < kept.len() ==> (#[trigger] kept.deep_view()[i]).is_validation(),
{
    let ghost all = attributes.deep_view();
    let ghost items = attributes@;
    let ghost pred = |a: AttributeView| a.is_validation();
    let mut kept: Vec<Attribute> = Vec::new();
    proof {
        reveal(Seq::filter);
        assert(all.take(0).filter(pred) =~= Seq::<AttributeView>::empty());
    }
    for attribute in it: attributes.into_iter()
        invariant
            it.seq() == items,
            all == Seq::new(items.len(), |i: int| items[i].deep_view()),
            pred == |a: AttributeView| a.is_validation(),
            kept.deep_view() == all.take(it.index() as int).filter(pred),
            forall|i: int| 0 <= i < kept.len() ==> (#[trigger] kept.deep_view()[i]).is_validation(),
    {
        let ghost n = it.index() as int;
        let ghost before = kept.deep_view();
        proof {
            assert(all.take(n + 1) =~= all.take(n).push(attribute.deep_view()));
            all.take(n).lemma_filter_push(attribute.deep_view(), pred);
        }
        if same_text(attribute.name.as_str(), "validate_value") {
            kept.push(attribute);
            proof {
                assert(kept.deep_view() =~= before.push(attribute.deep_view()));
            }
        }
    }
    proof {
        assert(all.take(items.len() as int) =~= all);
    }
    kept
}

/// Selects the fields of a struct that carry validation annotations.
///
/// Fails on a type that is not a struct, and on a struct none of whose
/// fields carries a validation annotation.
pub fn filter_ast(input: RecordDef) -> (r: Result<PartialAst, GenerationError>)
    ensures
        match r {
            Ok(ast) => filter_outcome(input.deep_view()) == Ok::<PartialAstView, DiagnosticView>(
                ast.deep_view(),
            ) && all_annotated(ast.deep_view().validated_fields),
            Err(e) => filter_outcome(input.deep_view()) matches Err(d) && e.all() == seq![d],
        },
{
    let RecordDef { name, kind, fields } = input;
    match kind {
        RecordKind::Struct => {},
        _ => {
            return Err(
                GenerationError::new(Diagnostic::new(ErrorKind::NotARecordType, name.as_str())),
            );
        },
    }
    let ghost all = fields.deep_view();
    let ghost items = fields@;
    let ghost keep = |f: FieldView| f.is_annotated();
    let ghost convert = |f: FieldView| f.annotated();
    let mut validated_fields: Vec<AnnotatedField> = Vec::new();
    proof {
        reveal(Seq::filter);
        assert(all.take(0).filter(keep) =~= Seq::<FieldView>::empty());
        assert(all.take(0).filter(keep).map_values(convert) =~= Seq::<AnnotatedFieldView>::empty());
    }
    for field in it: fields.into_iter()
        invariant
            it.seq() == items,
            all == Seq::new(items.len(), |i: int| items[i].deep_view()),
            keep == |f: FieldView| f.is_annotated(),
            convert == |f: FieldView| f.annotated(),
            validated_fields.deep_view() == all.take(it.index() as int).filter(keep).map_values(
                convert,
            ),
            all_annotated(validated_fields.deep_view()),
    {
        let ghost n = it.index() as int;
        let ghost before = validated_fields.deep_view();
        let ghost seen = field.deep_view();
        proof {
            assert(all.take(n + 1) =~= all.take(n).push(seen));
            all.take(n).lemma_filter_push(seen, keep);
        }
        let Field { name, ty, attributes } = field;
        let annotations = validation_annotations(attributes);
        if annotations.len() > 0 {
            let annotated = AnnotatedField { name, ty, annotations };
            validated_fields.push(annotated);
            proof {
                assert(annotated.deep_view() == seen.annotated());
                assert(validated_fields.deep_view() =~= before.push(seen.annotated()));
                assert(all.take(n).filter(keep).push(seen).map_values(convert) =~= before.push(
                    seen.annotated(),
                ));
            }
        }
    }
    proof {
        assert(all.take(items.len() as int) =~= all);
    }
    if validated_fields.len() == 0 {
        Err(GenerationError::new(Diagnostic::new(ErrorKind::NoAnnotatedFields, name.as_str())))
    } else {
        Ok(PartialAst { self_type: name, validated_fields })
    }
}

} // verus!
