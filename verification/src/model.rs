//! The description of a record type that generation starts from.

use vstd::prelude::*;

verus! {

/// What kind of type a definition defines.
#[derive(Debug, Clone, Copy, PartialEq, Eq, Structural)]
pub enum RecordKind {
    Struct,
    Enum,
    Union,
}

/// The form in which an attribute is written: a bare name, a name with a
/// list of arguments in brackets, or a name with a value.
#[derive(Debug, Clone, Copy, PartialEq, Eq, Structural)]
pub enum AttributeForm {
    Path,
    List,
    NameValue,
}

/// An attribute on a field. `args` is the text between the brackets of a
/// list; it is empty in the other forms.
#[derive(Debug, Clone)]
pub struct Attribute {
    pub name: String,
    pub form: AttributeForm,
    pub args: String,
}

/// What an `Attribute` holds.
pub struct AttributeView {
    pub name: Seq<char>,
    pub form: AttributeForm,
    pub args: Seq<char>,
}

impl DeepView for Attribute {
    type V = AttributeView;

    open spec fn deep_view(&self) -> AttributeView {
        AttributeView { name: self.name@, form: self.form, args: self.args@ }
    }
}

/// A field of a record, with all the attributes written on it.
#[derive(Debug, Clone)]
pub struct Field {
    pub name: String,
    pub ty: String,
    pub attributes: Vec<Attribute>,
}

/// What a `Field` holds.
pub struct FieldView {
    pub name: Seq<char>,
    pub ty: Seq<char>,
    pub attributes: Seq<AttributeView>,
}

impl DeepView for Field {
    type V = FieldView;

    open spec fn deep_view(&self) -> FieldView {
        FieldView { name: self.name@, ty: self.ty@, attributes: self.attributes.deep_view() }
    }
}

/// The definition of a type: its name, its kind and its fields in the order
/// of their declaration.
#[derive(Debug, Clone)]
pub struct RecordDef {
    pub name: String,
    pub kind: RecordKind,
    pub fields: Vec<Field>,
}

/// What a `RecordDef` holds.
pub struct RecordDefView {
    pub name: Seq<char>,
    pub kind: RecordKind,
    pub fields: Seq<FieldView>,
}

impl DeepView for RecordDef {
    type V = RecordDefView;

    open spec fn deep_view(&self) -> RecordDefView {
        RecordDefView { name: self.name@, kind: self.kind, fields: self.fields.deep_view() }
    }
}

/// The name of the attribute that carries validation rules.
pub open spec fn validation_attribute() -> Seq<char> {
    "validate_value"@
}

impl AttributeView {
    /// Whether this attribute carries validation rules.
    pub open spec fn is_validation(self) -> bool {
        self.name == validation_attribute()
    }
}

impl FieldView {
    /// The validation annotations of the field, in their order.
    pub open spec fn annotations(self) -> Seq<AttributeView> {
        self.attributes.filter(|a: AttributeView| a.is_validation())
    }

    /// Whether the field carries a validation annotation.
    pub open spec fn is_annotated(self) -> bool {
        self.annotations().len() > 0
    }

    /// The field with its validation annotations alone.
    pub open spec fn annotated(self) -> AnnotatedFieldView {
        AnnotatedFieldView { name: self.name, ty: self.ty, annotations: self.annotations() }
    }
}

/// A field that carries validation annotations: its name, its type, and the
/// annotations in the order in which they were written.
#[derive(Debug, Clone)]
pub struct AnnotatedField {
    pub name: String,
    pub ty: String,
    pub annotations: Vec<Attribute>,
}

/// What an `AnnotatedField` holds.
pub struct AnnotatedFieldView {
    pub name: Seq<char>,
    pub ty: Seq<char>,
    pub annotations: Seq<AttributeView>,
}

impl DeepView for AnnotatedField {
    type V = AnnotatedFieldView;

    open spec fn deep_view(&self) -> AnnotatedFieldView {
        AnnotatedFieldView {
            name: self.name@,
            ty: self.ty@,
            annotations: self.annotations.deep_view(),
        }
    }
}

impl AnnotatedFieldView {
    /// An annotated field has an annotation, and all it has are validation
    /// annotations.
    pub open spec fn well_formed(self) -> bool {
        &&& self.annotations.len() > 0
        &&& forall|i: int|
            0 <= i < self.annotations.len() ==> (#[trigger] self.annotations[i]).is_validation()
    }
}

/// A record reduced to what generation works on: its name and its annotated
/// fields, in the order of their declaration.
#[derive(Debug, Clone)]
pub struct PartialAst {
    pub self_type: String,
    pub validated_fields: Vec<AnnotatedField>,
}

/// What a `PartialAst` holds.
pub struct PartialAstView {
    pub self_type: Seq<char>,
    pub validated_fields: Seq<AnnotatedFieldView>,
}

impl DeepView for PartialAst {
    type V = PartialAstView;

    open spec fn deep_view(&self) -> PartialAstView {
        PartialAstView {
            self_type: self.self_type@,
            validated_fields: self.validated_fields.deep_view(),
        }
    }
}

} // verus!
