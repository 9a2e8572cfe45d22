//! Validation rules: the comparison that one rule makes, and how the
//! argument list of an annotation is read into rules.

use crate::text::same_text;
use proc_macro2::TokenStream;
use quote::ToTokens;
use syn::parse::{ParseStream, Parser};
use syn::token::Comma;
use syn::{BinOp, Expr, Ident};
use vstd::prelude::*;
use vstd::string::{StrSliceExecFns, StringExecFns};

verus! {

/// The comparison operators that a rule may use.
#[derive(Debug, Clone, Copy, PartialEq, Eq, Structural)]
pub enum CmpOp {
    Lt,
    Le,
    Ge,
    Gt,
}

impl CmpOp {
    /// How the operator is written.
    pub open spec fn spec_text(self) -> Seq<char> {
        match self {
            CmpOp::Lt => "<"@,
            CmpOp::Le => "<="@,
            CmpOp::Ge => ">="@,
            CmpOp::Gt => ">"@,
        }
    }

    /// Writes the operator.
    pub fn text(self) -> (text: &'static str)
        ensures
            text@ == self.spec_text(),
    {
        match self {
            CmpOp::Lt => "<",
            CmpOp::Le => "<=",
            CmpOp::Ge => ">=",
            CmpOp::Gt => ">",
        }
    }
}

/// The binary operators that can stand in the place of a rule's operator.
/// `Other` stands for an operator that this list does not know.
#[derive(Debug, Clone, Copy, PartialEq, Eq, Structural)]
pub enum Operator {
    Add,
    Sub,
    Mul,
    Div,
    Rem,
    And,
    Or,
    BitXor,
    BitAnd,
    BitOr,
    Shl,
    Shr,
    Eq,
    Lt,
    Le,
    Ne,
    Ge,
    Gt,
    AddAssign,
    SubAssign,
    MulAssign,
    DivAssign,
    RemAssign,
    BitXorAssign,
    BitAndAssign,
    BitOrAssign,
    ShlAssign,
    ShrAssign,
    Other,
}

impl Operator {
    /// The comparison that the operator makes, if it is one a rule may use:
    /// only `<`, `<=`, `>=` and `>` are.
    pub open spec fn spec_comparison(self) -> Option<CmpOp> {
        match self {
            Operator::Lt => Some(CmpOp::Lt),
            Operator::Le => Some(CmpOp::Le),
            Operator::Ge => Some(CmpOp::Ge),
            Operator::Gt => Some(CmpOp::Gt),
            _ => None,
        }
    }

    /// The comparison that the operator makes, if it is one a rule may use.
    pub fn comparison(self) -> (op: Option<CmpOp>)
        ensures
            op == self.spec_comparison(),
    {
        match self {
            Operator::Lt => Some(CmpOp::Lt),
            Operator::Le => Some(CmpOp::Le),
            Operator::Ge => Some(CmpOp::Ge),
            Operator::Gt => Some(CmpOp::Gt),
            _ => None,
        }
    }

    /// How the operator is written; nothing for an operator that is not known.
    pub open spec fn spec_text(self) -> Seq<char> {
        match self {
            Operator::Add => "+"@,
            Operator::Sub => "-"@,
            Operator::Mul => "*"@,
            Operator::Div => "/"@,
            Operator::Rem => "%"@,
            Operator::And => "&&"@,
            Operator::Or => "||"@,
            Operator::BitXor => "^"@,
            Operator::BitAnd => "&"@,
            Operator::BitOr => "|"@,
            Operator::Shl => "<<"@,
            Operator::Shr => ">>"@,
            Operator::Eq => "=="@,
            Operator::Lt => "<"@,
            Operator::Le => "<="@,
            Operator::Ne => "!="@,
            Operator::Ge => ">="@,
            Operator::Gt => ">"@,
            Operator::AddAssign => "+="@,
            Operator::SubAssign => "-="@,
            Operator::MulAssign => "*="@,
            Operator::DivAssign => "/="@,
            Operator::RemAssign => "%="@,
            Operator::BitXorAssign => "^="@,
            Operator::BitAndAssign => "&="@,
            Operator::BitOrAssign => "|="@,
            Operator::ShlAssign => "<<="@,
            Operator::ShrAssign => ">>="@,
            Operator::Other => ""@,
        }
    }

    /// Writes the operator.
    pub fn text(self) -> (text: &'static str)
        ensures
            text@ == self.spec_text(),
    {
        match self {
            Operator::Add => "+",
            Operator::Sub => "-",
            Operator::Mul => "*",
            Operator::Div => "/",
            Operator::Rem => "%",
            Operator::And => "&&",
            Operator::Or => "||",
            Operator::BitXor => "^",
            Operator::BitAnd => "&",
            Operator::BitOr => "|",
            Operator::Shl => "<<",
            Operator::Shr => ">>",
            Operator::Eq => "==",
            Operator::Lt => "<",
            Operator::Le => "<=",
            Operator::Ne => "!=",
            Operator::Ge => ">=",
            Operator::Gt => ">",
            Operator::AddAssign => "+=",
            Operator::SubAssign => "-=",
            Operator::MulAssign => "*=",
            Operator::DivAssign => "/=",
            Operator::RemAssign => "%=",
            Operator::BitXorAssign => "^=",
            Operator::BitAndAssign => "&=",
            Operator::BitOrAssign => "|=",
            Operator::ShlAssign => "<<=",
            Operator::ShrAssign => ">>=",
            Operator::Other => "",
        }
    }
}

/// The right-hand side of a rule.
#[derive(Debug, Clone)]
pub enum RuleExpr {
    /// A path such as `trays` or `limits::MAX`, with the name of each of its
    /// segments and the text of the whole.
    Path { segments: Vec<String>, text: String },
    /// The value of the field `member` on the record that is validated.
    SelfField { member: String },
    /// Any other expression, kept as its text.
    Other { text: String },
}

/// What a `RuleExpr` holds.
pub enum RuleExprView {
    Path { segments: Seq<Seq<char>>, text: Seq<char> },
    SelfField { member: Seq<char> },
    Other { text: Seq<char> },
}

impl DeepView for RuleExpr {
    type V = RuleExprView;

    open spec fn deep_view(&self) -> RuleExprView {
        match self {
            RuleExpr::Path { segments, text } => RuleExprView::Path {
                segments: segments.deep_view(),
                text: text@,
            },
            RuleExpr::SelfField { member } => RuleExprView::SelfField { member: member@ },
            RuleExpr::Other { text } => RuleExprView::Other { text: text@ },
        }
    }
}

impl RuleExprView {
    /// A path of exactly one segment names a field of the same record, and
    /// is read as that field's value; every other expression stays as it is.
    pub open spec fn adapted(self) -> RuleExprView {
        match self {
            RuleExprView::Path { segments, text } => if segments.len() == 1 {
                RuleExprView::SelfField { member: segments[0] }
            } else {
                self
            },
            _ => self,
        }
    }

    /// Whether `adapted` changes the expression.
    pub open spec fn names_sibling(self) -> bool {
        self matches RuleExprView::Path { segments, .. } && segments.len() == 1
    }

    /// The expression as code that reads its value: a field of the record
    /// is read through `self`.
    pub open spec fn source(self) -> Seq<char> {
        match self {
            RuleExprView::Path { text, .. } => text,
            RuleExprView::SelfField { member } => "self."@ + member,
            RuleExprView::Other { text } => text,
        }
    }

    /// The expression as it was written in the rule: a field of the record
    /// by its bare name.
    pub open spec fn written(self) -> Seq<char> {
        match self {
            RuleExprView::Path { text, .. } => text,
            RuleExprView::SelfField { member } => member,
            RuleExprView::Other { text } => text,
        }
    }
}

impl RuleExpr {
    /// The expression as it was written in the rule.
    pub fn written(&self) -> (text: String)
        ensures
            text@ == self.deep_view().written(),
    {
        match self {
            RuleExpr::Path { segments: _, text } => text.clone(),
            RuleExpr::SelfField { member } => member.clone(),
            RuleExpr::Other { text } => text.clone(),
        }
    }

    /// The expression as code that reads its value.
    pub fn source(&self) -> (text: String)
        ensures
            text@ == self.deep_view().source(),
    {
        match self {
            RuleExpr::Path { segments: _, text } => text.clone(),
            RuleExpr::SelfField { member } => {
                let mut text = "self.".to_owned();
                text.append(member.as_str());
                text
            },
            RuleExpr::Other { text } => text.clone(),
        }
    }
}

/// Rewrites an expression that is a bare field name into the value of that
/// field on the validated record. Says whether it did.
pub fn adapt_ident_with_self(expr: &mut RuleExpr) -> (adapted: bool)
    ensures
        final(expr).deep_view() == old(expr).deep_view().adapted(),
        adapted == old(expr).deep_view().names_sibling(),
{
    let adaption: Option<String> = match &*expr {
        RuleExpr::Path { segments, text: _ } => {
            if segments.len() == 1 {
                Some(segments[0].clone())
            } else {
                None
            }
        },
        _ => None,
    };
    if let Some(member) = adaption {
        *expr = RuleExpr::SelfField { member };
        true
    } else {
        false
    }
}

/// One rule as it was read, before it is checked: the placeholder and the
/// right-hand side as text, the operator, and the names of the right-hand
/// side's segments where it is a path.
#[derive(Debug, Clone)]
pub struct RawRule {
    pub left: String,
    pub op: Operator,
    pub right: String,
    pub right_path: Option<Vec<String>>,
}

/// What a `RawRule` holds.
pub struct RawRuleView {
    pub left: Seq<char>,
    pub op: Operator,
    pub right: Seq<char>,
    pub right_path: Option<Seq<Seq<char>>>,
}

impl DeepView for RawRule {
    type V = RawRuleView;

    open spec fn deep_view(&self) -> RawRuleView {
        RawRuleView {
            left: self.left@,
            op: self.op,
            right: self.right@,
            right_path: self.right_path.deep_view(),
        }
    }
}

impl RawRuleView {
    /// The right-hand side as an expression.
    pub open spec fn right_expr(self) -> RuleExprView {
        match self.right_path {
            Some(segments) => RuleExprView::Path { segments, text: self.right },
            None => RuleExprView::Other { text: self.right },
        }
    }
}

/// Why the argument list of an annotation gives no rules.
#[derive(Debug, Clone)]
pub enum RuleError {
    /// The list is empty or is not a comma-separated list of rules.
    MalformedRuleList,
    /// A rule starts with `found` where the placeholder `x` must stand.
    InvalidPlaceholder { found: String },
    /// A rule compares with `found`, which is not `<`, `<=`, `>=` or `>`.
    UnsupportedOperator { found: Operator },
}

/// What a `RuleError` holds.
pub enum RuleErrorView {
    MalformedRuleList,
    InvalidPlaceholder { found: Seq<char> },
    UnsupportedOperator { found: Operator },
}

impl DeepView for RuleError {
    type V = RuleErrorView;

    open spec fn deep_view(&self) -> RuleErrorView {
        match self {
            RuleError::MalformedRuleList => RuleErrorView::MalformedRuleList,
            RuleError::InvalidPlaceholder { found } => RuleErrorView::InvalidPlaceholder {
                found: found@,
            },
            RuleError::UnsupportedOperator { found } => RuleErrorView::UnsupportedOperator {
                found: *found,
            },
        }
    }
}

/// The name by which a rule refers to the value of its own field.
pub open spec fn placeholder() -> Seq<char> {
    seq!['x']
}

/// One comparison that a field's value has to pass.
#[derive(Debug, Clone)]
pub struct ValidationRule {
    pub left: String,
    pub cmp_op: CmpOp,
    pub right: RuleExpr,
    pub right_is_field_on_self: bool,
}

/// What a `ValidationRule` holds.
pub struct ValidationRuleView {
    pub left: Seq<char>,
    pub cmp_op: CmpOp,
    pub right: RuleExprView,
    pub right_is_field_on_self: bool,
}

impl DeepView for ValidationRule {
    type V = ValidationRuleView;

    open spec fn deep_view(&self) -> ValidationRuleView {
        ValidationRuleView {
            left: self.left@,
            cmp_op: self.cmp_op,
            right: self.right.deep_view(),
            right_is_field_on_self: self.right_is_field_on_self,
        }
    }
}

impl ValidationRuleView {
    /// How the operator of the rule is written.
    pub open spec fn op_text(self) -> Seq<char> {
        self.cmp_op.spec_text()
    }

    /// A rule starts with the placeholder, and its flag says whether its
    /// right-hand side is a field of the same record.
    pub open spec fn well_formed(self) -> bool {
        &&& self.left == placeholder()
        &&& self.right_is_field_on_self == (self.right is SelfField)
        &&& !(self.right matches RuleExprView::Path { segments, .. } && segments.len() == 1)
    }
}

/// The rule that `raw` stands for, or the reason why it stands for none:
/// the placeholder is looked at first, then the operator.
pub open spec fn rule_of(raw: RawRuleView) -> Result<ValidationRuleView, RuleErrorView> {
    if raw.left != placeholder() {
        Err(RuleErrorView::InvalidPlaceholder { found: raw.left })
    } else {
        match raw.op.spec_comparison() {
            None => Err(RuleErrorView::UnsupportedOperator { found: raw.op }),
            Some(cmp_op) => Ok(
                ValidationRuleView {
                    left: raw.left,
                    cmp_op,
                    right: raw.right_expr().adapted(),
                    right_is_field_on_self: raw.right_expr().names_sibling(),
                },
            ),
        }
    }
}

impl ValidationRule {
    /// How the operator of the rule is written.
    pub fn op_text(&self) -> (text: &'static str)
        ensures
            text@ == self.deep_view().op_text(),
    {
        self.cmp_op.text()
    }

    /// Checks a rule that was read and makes it a `ValidationRule`.
    pub fn parse(raw: RawRule) -> (r: Result<ValidationRule, RuleError>)
        ensures
            match r {
                Ok(rule) => rule_of(raw.deep_view()) == Ok::<ValidationRuleView, RuleErrorView>(
                    rule.deep_view(),
                ) && rule.deep_view().well_formed(),
                Err(e) => rule_of(raw.deep_view()) == Err::<ValidationRuleView, RuleErrorView>(
                    e.deep_view(),
                ),
            },
    {
        proof {
            reveal_strlit("x");
            assert("x"@ =~= placeholder());
        }
        let RawRule { left, op, right, right_path } = raw;
        if !same_text(left.as_str(), "x") {
            return Err(RuleError::InvalidPlaceholder { found: left });
        }
        let cmp_op = match op.comparison() {
            Some(cmp_op) => cmp_op,
            None => {
                return Err(RuleError::UnsupportedOperator { found: op });
            },
        };
        let mut candidate = ValidationRule {
            left,
            cmp_op,
            right: match right_path {
                Some(segments) => RuleExpr::Path { segments, text: right },
                None => RuleExpr::Other { text: right },
            },
            right_is_field_on_self: false,
        };
        let was_adapted = adapt_ident_with_self(&mut candidate.right);
        if was_adapted {
            candidate.right_is_field_on_self = true;
        }
        Ok(candidate)
    }
}


/// What one step of reading a list of rules finds at the front of a text: a
/// rule, whether a comma follows it, and the text after that.
#[derive(Debug, Clone)]
pub struct RuleStep {
    pub rule: RawRule,
    pub comma: bool,
    pub rest: String,
}

/// What a `RuleStep` holds.
pub struct RuleStepView {
    pub rule: RawRuleView,
    pub comma: bool,
    pub rest: Seq<char>,
}

impl DeepView for RuleStep {
    type V = RuleStepView;

    open spec fn deep_view(&self) -> RuleStepView {
        RuleStepView { rule: self.rule.deep_view(), comma: self.comma, rest: self.rest@ }
    }
}

/// How a list goes on after one of its rules.
pub enum Tail {
    /// The rule was the last one.
    End,
    /// A comma followed: another rule has to follow in this text.
    More { rest: Seq<char> },
}

impl RuleStepView {
    /// The rule of this step and how the list goes on, or why the list is no
    /// list of rules. The rule is checked first; after a rule that stands, a
    /// list ends only where its text ends.
    pub open spec fn outcome(self) -> Result<(ValidationRuleView, Tail), RuleErrorView> {
        match rule_of(self.rule) {
            Err(e) => Err(e),
            Ok(rule) => if self.comma {
                Ok((rule, Tail::More { rest: self.rest }))
            } else if self.rest.len() == 0 {
                Ok((rule, Tail::End))
            } else {
                Err(RuleErrorView::MalformedRuleList)
            },
        }
    }
}

impl RuleStep {
    /// Checks the rule of this step, and says how the list goes on: with the
    /// text that is returned, or, where none is returned, not at all.
    pub fn accept(self) -> (r: Result<(ValidationRule, Option<String>), RuleError>)
        ensures
            match r {
                Ok((rule, None)) => self.deep_view().outcome() == Ok::<
                    (ValidationRuleView, Tail),
                    RuleErrorView,
                >((rule.deep_view(), Tail::End)) && rule.deep_view().well_formed(),
                Ok((rule, Some(rest))) => self.deep_view().outcome() == Ok::<
                    (ValidationRuleView, Tail),
                    RuleErrorView,
                >((rule.deep_view(), Tail::More { rest: rest@ })) && rule.deep_view().well_formed(),
                Err(e) => self.deep_view().outcome() == Err::<
                    (ValidationRuleView, Tail),
                    RuleErrorView,
                >(e.deep_view()),
            },
    {
        let RuleStep { rule, comma, rest } = self;
        let rule = match ValidationRule::parse(rule) {
            Ok(rule) => rule,
            Err(e) => {
                return Err(e);
            },
        };
        if comma {
            Ok((rule, Some(rest)))
        } else if rest.as_str().is_empty() {
            Ok((rule, None))
        } else {
            Err(RuleError::MalformedRuleList)
        }
    }
}

/// `syn::Error`, the error of `syn`'s parsers. It is handed through as it
/// is: nothing is said of what it holds.
#[verifier::external_type_specification]
#[verifier::external_body]
pub struct ExSynError(syn::Error);

/// `syn::BinOp`, a binary operator as `syn` reads it. It is handed through
/// as it is: nothing is said of what it holds.
#[verifier::external_type_specification]
#[verifier::external_body]
pub struct ExBinOp(syn::BinOp);

/// One step as `syn` read it, with the operator still in `syn`'s own type.
struct SynStep {
    left: String,
    op: BinOp,
    right: String,
    right_path: Option<Vec<String>>,
    comma: bool,
    rest: String,
}

/// Reads one rule off the front of a text with `syn`: `Parser::parse_str` runs
/// a parser that takes an `Ident`, a `BinOp`, an `Expr`, an optional `Comma`
/// and the remaining `TokenStream`, each by its `parse`. The identifier, the
/// expression and the remaining tokens come back as the text that they print;
/// of a path expression the names of the segments come back too. Nothing is
/// claimed of the outcome: how a text is read, and how tokens print, is up
/// to `syn` and `proc-macro2` and to where they run. `syn` reads an
/// expression as deep as it nests, so an expression that nests some hundred
/// levels deep can exhaust the stack.
#[verifier::external_body]
fn read_step(text: &str) -> (r: Result<SynStep, syn::Error>) {
    let (left, op, right, comma, rest): (Ident, BinOp, Expr, Option<Comma>, TokenStream) =
        Parser::parse_str(|input: ParseStream| {
            Ok((input.parse()?, input.parse()?, input.parse()?, input.parse()?, input.parse()?))
        }, text)?;
    let right_path = match &right {
        Expr::Path(p) => Some(p.path.segments.iter().map(|s| s.ident.to_string()).collect()),
        _ => None,
    };
    let (left, right) = (left.to_string(), right.to_token_stream().to_string());
    Ok(SynStep { left, op, right, right_path, comma: comma.is_some(), rest: rest.to_string() })
}

/// Tells the variants of `syn::BinOp` apart that compute or test equality,
/// one arm for each; every other operator comes back as `Other`.
#[verifier::external_body]
fn computing_operator(op: &BinOp) -> (r: Operator) {
    match op {
        BinOp::Add(_) => Operator::Add, BinOp::Sub(_) => Operator::Sub,
        BinOp::Mul(_) => Operator::Mul, BinOp::Div(_) => Operator::Div,
        BinOp::Rem(_) => Operator::Rem, BinOp::And(_) => Operator::And,
        BinOp::Or(_) => Operator::Or, BinOp::BitXor(_) => Operator::BitXor,
        BinOp::BitAnd(_) => Operator::BitAnd, BinOp::BitOr(_) => Operator::BitOr,
        BinOp::Shl(_) => Operator::Shl, BinOp::Shr(_) => Operator::Shr,
        BinOp::Eq(_) => Operator::Eq, BinOp::Ne(_) => Operator::Ne,
        _ => Operator::Other,
    }
}

/// Tells the variants of `syn::BinOp` apart that order their operands or
/// assign, one arm for each; every other operator comes back as `Other`.
#[verifier::external_body]
fn ordering_or_assigning_operator(op: &BinOp) -> (r: Operator) {
    match op {
        BinOp::Lt(_) => Operator::Lt, BinOp::Le(_) => Operator::Le,
        BinOp::Ge(_) => Operator::Ge, BinOp::Gt(_) => Operator::Gt,
        BinOp::AddAssign(_) => Operator::AddAssign, BinOp::SubAssign(_) => Operator::SubAssign,
        BinOp::MulAssign(_) => Operator::MulAssign, BinOp::DivAssign(_) => Operator::DivAssign,
        BinOp::RemAssign(_) => Operator::RemAssign, BinOp::BitXorAssign(_) => Operator::BitXorAssign,
        BinOp::BitAndAssign(_) => Operator::BitAndAssign, BinOp::BitOrAssign(_) => Operator::BitOrAssign,
        BinOp::ShlAssign(_) => Operator::ShlAssign, BinOp::ShrAssign(_) => Operator::ShrAssign,
        _ => Operator::Other,
    }
}

/// Reads one rule off the front of a text, if the text starts with one.
fn read_rule(text: &str) -> (r: Option<RuleStep>) {
    match read_step(text) {
        Err(_) => None,
        Ok(step) => {
            let SynStep { left, op, right, right_path, comma, rest } = step;
            let op = match computing_operator(&op) {
                Operator::Other => ordering_or_assigning_operator(&op),
                known => known,
            };
            Some(RuleStep { rule: RawRule { left, op, right, right_path }, comma, rest })
        },
    }
}

/// Whether every rule of a list is well formed.
pub open spec fn all_well_formed(rules: Seq<ValidationRuleView>) -> bool {
    forall|i: int| 0 <= i < rules.len() ==> (#[trigger] rules[i]).well_formed()
}

impl RuleErrorView {
    /// Whether the error names something that is at fault indeed: a name
    /// that is not the placeholder, an operator that rules do not support.
    pub open spec fn well_founded(self) -> bool {
        match self {
            RuleErrorView::MalformedRuleList => true,
            RuleErrorView::InvalidPlaceholder { found } => found != placeholder(),
            RuleErrorView::UnsupportedOperator { found } => found.spec_comparison() is None,
        }
    }
}

/// Reads the argument list of an annotation into rules.
///
/// The list has to be a comma-separated list of at least one rule, with no
/// comma at its end; each rule is the placeholder `x`, one of `<`, `<=`, `>=`,
/// `>`, and an expression. The text is read rule by rule from its front;
/// each rule is checked by `RuleStep::accept` as soon as it is read, and the
/// first step that fails ends the reading with its error. What a step reads
/// is up to `syn`, so the contract states what holds of every result: rules
/// that come back are well formed, at least one and no more than the text
/// has characters; an error that comes back is well founded; and a text
/// without characters is no list.
pub fn parse_rules(args: &str) -> (r: Result<Vec<ValidationRule>, RuleError>)
    ensures
        match r {
            Ok(rules) => 1 <= rules.len() <= args@.len() && all_well_formed(rules.deep_view()),
            Err(e) => e.deep_view().well_founded(),
        },
        args@.len() == 0 ==> r matches Err(RuleError::MalformedRuleList),
{
    let mut limit: usize = args.unicode_len();
    let mut text: String = args.to_owned();
    let mut rules: Vec<ValidationRule> = Vec::new();
    while limit > 0
        invariant
            rules.len() + limit == args@.len(),
            all_well_formed(rules.deep_view()),
        decreases limit,
    {
        let ghost before = rules.deep_view();
        let step = match read_rule(text.as_str()) {
            Some(step) => step,
            None => {
                return Err(RuleError::MalformedRuleList);
            },
        };
        match step.accept() {
            Err(e) => {
                return Err(e);
            },
            Ok((rule, tail)) => {
                rules.push(rule);
                proof {
                    assert(rules.deep_view() =~= before.push(rule.deep_view()));
                }
                match tail {
                    None => {
                        return Ok(rules);
                    },
                    Some(rest) => {
                        text = rest;
                        limit = limit - 1;
                    },
                }
            },
        }
    }
    Err(RuleError::MalformedRuleList)
}

} // verus!
