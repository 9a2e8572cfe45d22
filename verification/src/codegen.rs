//! The last stage of generation: the source text of the validation code of
//! a record.

use crate::intermediate::{FieldInfo, FieldInfoView, IntermediateCode, IntermediateCodeView};
use crate::rule::ValidationRuleView;
use crate::text::{decimal, decimal_text, lemma_decimal_injective, quote_text, quoted};
use vstd::prelude::*;
use vstd::string::StringExecFns;

verus! {

/// One check of generated code: unless `subject` compares as the rule asks
/// with `operand`, the function returns an error. The error's message gives
/// the value of `subject`, the name of the field, the operator and `right`,
/// the rule's right-hand side as it was written; its source is the name of
/// the record type.
/// Every line of the check starts with `indent`.
pub open spec fn check_source(
    indent: Seq<char>,
    subject: Seq<char>,
    op: Seq<char>,
    operand: Seq<char>,
    field: Seq<char>,
    right: Seq<char>,
    record: Seq<char>,
) -> Seq<char> {
    indent + "if !("@ + subject + " "@ + op + " "@ + operand + ") {\n"@ + indent
        + "    let inject_msg = format!(\"value={}: '{}' {} '{}'\", "@ + subject + ", "@ + quoted(
        field,
    ) + ", "@ + quoted(op) + ", "@ + quoted(right) + ");\n"@ + indent
        + "    return Err(ValidationError::new(inject_msg, "@ + quoted(record)
        + ".to_owned()));\n"@ + indent + "}\n"@
}

/// Writes one check of generated code.
pub fn emit_check(
    indent: &str,
    subject: &str,
    op: &str,
    operand: &str,
    field: &str,
    right: &str,
    record: &str,
) -> (code: String)
    ensures
        code@ == check_source(indent@, subject@, op@, operand@, field@, right@, record@),
{
    let mut code = indent.to_owned();
    code.append("if !(");
    code.append(subject);
    code.append(" ");
    code.append(op);
    code.append(" ");
    code.append(operand);
    code.append(") {\n");
    code.append(indent);
    code.append("    let inject_msg = format!(\"value={}: '{}' {} '{}'\", ");
    code.append(subject);
    code.append(", ");
    code.append(quote_text(field).as_str());
    code.append(", ");
    code.append(quote_text(op).as_str());
    code.append(", ");
    code.append(quote_text(right).as_str());
    code.append(");\n");
    code.append(indent);
    code.append("    return Err(ValidationError::new(inject_msg, ");
    code.append(quote_text(record).as_str());
    code.append(".to_owned()));\n");
    code.append(indent);
    code.append("}\n");
    code
}

/// The name of the parameter that stands for the `k`-th sibling that the
/// rules of a field refer to, counted from one.
pub open spec fn sibling_name(k: int) -> Seq<char> {
    "s"@ + decimal(k as nat)
}

/// Writes the name of the parameter for the `k`-th sibling.
pub fn sibling_param(k: usize) -> (name: String)
    ensures
        name@ == sibling_name(k as int),
{
    let mut name = "s".to_owned();
    name.append(decimal_text(k).as_str());
    name
}

/// How many of the rules refer to a sibling field.
pub open spec fn siblings_in(rules: Seq<ValidationRuleView>) -> int
    decreases rules.len(),
{
    if rules.len() == 0 {
        0
    } else {
        siblings_in(rules.drop_last()) + if rules.last().right_is_field_on_self {
            1int
        } else {
            0int
        }
    }
}

/// What the `i`-th check of the free function of a field compares the value
/// with: the parameter of the rule, where the rule refers to a sibling, and
/// the rule's right-hand side otherwise.
pub open spec fn free_operand(field: FieldInfoView, i: int) -> Seq<char> {
    if field.rules[i].right_is_field_on_self {
        sibling_name(siblings_in(field.rules.take(i)) + 1)
    } else {
        field.rules[i].right.source()
    }
}

/// The `i`-th check of the free function of a field.
pub open spec fn free_check_at(record: Seq<char>, field: FieldInfoView, i: int) -> Seq<char> {
    check_source(
        "    "@,
        "value"@,
        field.rules[i].op_text(),
        free_operand(field, i),
        field.field_name,
        field.rules[i].right.written(),
        record,
    )
}

/// The checks of the free function of a field: one for each rule, in the
/// order of the rules.
pub open spec fn free_checks(record: Seq<char>, field: FieldInfoView) -> Seq<char> {
    Seq::new(field.rules.len(), |i: int| free_check_at(record, field, i)).flatten()
}

/// The declaration of the parameter for the sibling number `k`, counted
/// from zero.
pub open spec fn param_at(field: FieldInfoView, k: int) -> Seq<char> {
    ", "@ + sibling_name(k + 1) + ": "@ + field.ty
}

/// The parameters that the free function of a field takes after the value:
/// one for each rule that refers to a sibling, in the order of the rules.
pub open spec fn sibling_params(field: FieldInfoView) -> Seq<char> {
    Seq::new(siblings_in(field.rules) as nat, |k: int| param_at(field, k)).flatten()
}

/// The free function of a field: it takes a value for the field and one
/// value for each rule that refers to a sibling, and checks the rules in
/// their order.
pub open spec fn free_function_source(record: Seq<char>, field: FieldInfoView) -> Seq<char> {
    "#[inline]\npub fn contract_"@ + field.field_name + "(value: "@ + field.ty + sibling_params(field)
        + ") -> Result<(), ValidationError> {\n"@ + free_checks(record, field)
        + "    Ok(())\n}\n"@
}

/// Writes the free function of a field.
pub fn emit_free_function(record: &str, field: &FieldInfo) -> (code: String)
    ensures
        code@ == free_function_source(record@, field.deep_view()),
{
    let ghost f = field.deep_view();
    let ghost rules = f.rules;
    let ghost check_at = |i: int| free_check_at(record@, f, i);
    let ghost declare = |k: int| param_at(f, k);
    let mut params = String::new();
    let mut checks = String::new();
    let mut num_args: usize = 0;
    let mut i: usize = 0;
    proof {
        assert(Seq::new(0, check_at) =~= Seq::<Seq<char>>::empty());
        assert(Seq::new(0, declare) =~= Seq::<Seq<char>>::empty());
        assert(rules.take(0) =~= Seq::<ValidationRuleView>::empty());
    }
    while i < field.rules.len()
        invariant
            i <= field.rules.len(),
            f == field.deep_view(),
            rules == f.rules,
            check_at == |i: int| free_check_at(record@, f, i),
            declare == |k: int| param_at(f, k),
            num_args == siblings_in(rules.take(i as int)),
            num_args <= i,
            params@ == Seq::new(num_args as nat, declare).flatten(),
            checks@ == Seq::new(i as nat, check_at).flatten(),
        decreases field.rules.len() - i,
    {
        let rule = &field.rules[i];
        let written = rule.right.written();
        proof {
            assert(rules.take(i + 1).drop_last() =~= rules.take(i as int));
            assert(rules.take(i + 1).last() == rule.deep_view());
            assert(Seq::new((i + 1) as nat, check_at) =~= Seq::new(i as nat, check_at).push(
                free_check_at(record@, f, i as int),
            ));
            Seq::new(i as nat, check_at).lemma_flatten_push(free_check_at(record@, f, i as int));
        }
        let operand = if rule.right_is_field_on_self {
            let arg = sibling_param(num_args + 1);
            proof {
                assert(Seq::new((num_args + 1) as nat, declare) =~= Seq::new(
                    num_args as nat,
                    declare,
                ).push(param_at(f, num_args as int)));
                Seq::new(num_args as nat, declare).lemma_flatten_push(param_at(f, num_args as int));
            }
            let mut param = ", ".to_owned();
            param.append(arg.as_str());
            param.append(": ");
            param.append(field.ty.as_str());
            params.append(param.as_str());
            num_args = num_args + 1;
            arg
        } else {
            rule.right.source()
        };
        let check = emit_check(
            "    ",
            "value",
            rule.op_text(),
            operand.as_str(),
            field.field_name.as_str(),
            written.as_str(),
            record,
        );
        checks.append(check.as_str());
        i = i + 1;
    }
    proof {
        assert(rules.take(i as int) =~= rules);
    }
    let mut code = "#[inline]\npub fn contract_".to_owned();
    code.append(field.field_name.as_str());
    code.append("(value: ");
    code.append(field.ty.as_str());
    code.append(params.as_str());
    code.append(") -> Result<(), ValidationError> {\n");
    code.append(checks.as_str());
    code.append("    Ok(())\n}\n");
    code
}


/// The `i`-th check of the method of a field: it compares the field of the
/// record itself with the rule's right-hand side.
pub open spec fn method_check_at(record: Seq<char>, field: FieldInfoView, i: int) -> Seq<char> {
    check_source(
        "        "@,
        "self."@ + field.field_name,
        field.rules[i].op_text(),
        field.rules[i].right.source(),
        field.field_name,
        field.rules[i].right.written(),
        record,
    )
}

/// The checks of the method of a field: one for each rule, in the order of
/// the rules.
pub open spec fn method_checks(record: Seq<char>, field: FieldInfoView) -> Seq<char> {
    Seq::new(field.rules.len(), |i: int| method_check_at(record, field, i)).flatten()
}

/// The method of a field: it checks the rules of the field on the record
/// itself, in their order.
pub open spec fn method_source(record: Seq<char>, field: FieldInfoView) -> Seq<char> {
    "    #[inline]\n    pub fn contract_"@ + field.field_name
        + "(&self) -> Result<(), ValidationError> {\n"@ + method_checks(record, field)
        + "        Ok(())\n    }\n"@
}

/// Writes the method of a field.
pub fn emit_method(record: &str, field: &FieldInfo) -> (code: String)
    ensures
        code@ == method_source(record@, field.deep_view()),
{
    let ghost f = field.deep_view();
    let ghost check_at = |i: int| method_check_at(record@, f, i);
    let mut subject = "self.".to_owned();
    subject.append(field.field_name.as_str());
    let mut checks = String::new();
    let mut i: usize = 0;
    proof {
        assert(Seq::new(0, check_at) =~= Seq::<Seq<char>>::empty());
    }
    while i < field.rules.len()
        invariant
            i <= field.rules.len(),
            f == field.deep_view(),
            check_at == |i: int| method_check_at(record@, f, i),
            subject@ == "self."@ + f.field_name,
            checks@ == Seq::new(i as nat, check_at).flatten(),
        decreases field.rules.len() - i,
    {
        let rule = &field.rules[i];
        let right = rule.right.source();
        let written = rule.right.written();
        proof {
            assert(Seq::new((i + 1) as nat, check_at) =~= Seq::new(i as nat, check_at).push(
                method_check_at(record@, f, i as int),
            ));
            Seq::new(i as nat, check_at).lemma_flatten_push(method_check_at(record@, f, i as int));
        }
        let check = emit_check(
            "        ",
            subject.as_str(),
            rule.op_text(),
            right.as_str(),
            field.field_name.as_str(),
            written.as_str(),
            record,
        );
        checks.append(check.as_str());
        i = i + 1;
    }
    let mut code = "    #[inline]\n    pub fn contract_".to_owned();
    code.append(field.field_name.as_str());
    code.append("(&self) -> Result<(), ValidationError> {\n");
    code.append(checks.as_str());
    code.append("        Ok(())\n    }\n");
    code
}

/// The call by which `validate` checks one field; the first error ends
/// `validate`.
pub open spec fn call_source(field: FieldInfoView) -> Seq<char> {
    "        self.contract_"@ + field.field_name + "()?;\n"@
}

/// Writes the call that checks one field.
pub fn emit_call(field: &FieldInfo) -> (code: String)
    ensures
        code@ == call_source(field.deep_view()),
{
    let mut code = "        self.contract_".to_owned();
    code.append(field.field_name.as_str());
    code.append("()?;\n");
    code
}

/// The free functions of all fields, in the order of the fields.
pub open spec fn free_functions_source(ic: IntermediateCodeView) -> Seq<char> {
    ic.field_infos.map_values(|f: FieldInfoView| free_function_source(ic.self_type, f)).flatten()
}

/// The methods of all fields, in the order of the fields.
pub open spec fn methods_source(ic: IntermediateCodeView) -> Seq<char> {
    ic.field_infos.map_values(|f: FieldInfoView| method_source(ic.self_type, f)).flatten()
}

/// The calls of `validate`: one for each field, in the order of the fields.
pub open spec fn calls_source(ic: IntermediateCodeView) -> Seq<char> {
    ic.field_infos.map_values(|f: FieldInfoView| call_source(f)).flatten()
}

/// The implementation of `Validator`: `validate` checks field after field
/// and succeeds where no check fails.
pub open spec fn validator_source(ic: IntermediateCodeView) -> Seq<char> {
    "#[automatically_derived]\nimpl Validator for "@ + ic.self_type
        + " {\n    fn validate(&self) -> Result<(), ValidationError> {\n"@ + calls_source(ic)
        + "        Ok(())\n    }\n}\n"@
}

/// The conversion of a record into its validated wrapper: it validates the
/// record and wraps it where that succeeds, and hands on the error where it
/// does not.
pub open spec fn try_from_source(record: Seq<char>) -> Seq<char> {
    "#[automatically_derived]\nimpl TryFrom<"@ + record + "> for Validated<"@ + record
        + "> {\n    type Error = ValidationError;\n\n    fn try_from(value: "@ + record
        + ") -> Result<Self, Self::Error> {\n        match value.validate() {\n            Ok(_) => Ok(Validated::new_unchecked(value)),\n            Err(err) => Err(err),\n        }\n    }\n}\n"@
}

/// Writes the conversion of a record into its validated wrapper.
pub fn emit_try_from(record: &str) -> (code: String)
    ensures
        code@ == try_from_source(record@),
{
    let mut code = "#[automatically_derived]\nimpl TryFrom<".to_owned();
    code.append(record);
    code.append("> for Validated<");
    code.append(record);
    code.append("> {\n    type Error = ValidationError;\n\n    fn try_from(value: ");
    code.append(record);
    code.append(
        ") -> Result<Self, Self::Error> {\n        match value.validate() {\n            Ok(_) => Ok(Validated::new_unchecked(value)),\n            Err(err) => Err(err),\n        }\n    }\n}\n",
    );
    code
}

/// All the code that is generated for a record: the free functions, the
/// methods, `validate`, and the conversion into the validated wrapper.
pub open spec fn generated_source(ic: IntermediateCodeView) -> Seq<char> {
    free_functions_source(ic) + "impl "@ + ic.self_type + " {\n"@ + methods_source(ic) + "}\n"@
        + validator_source(ic) + try_from_source(ic.self_type)
}

/// Generates the validation code of a record as source text.
pub fn codegen(ic: IntermediateCode) -> (code: String)
    ensures
        code@ == generated_source(ic.deep_view()),
{
    let ghost whole = ic.deep_view();
    let ghost fields = whole.field_infos;
    let ghost free_of = |f: FieldInfoView| free_function_source(whole.self_type, f);
    let ghost method_of = |f: FieldInfoView| method_source(whole.self_type, f);
    let ghost call_of = |f: FieldInfoView| call_source(f);
    let record = ic.self_type.as_str();
    let mut free_contract_functions = String::new();
    let mut contract_functions = String::new();
    let mut contract_function_calls = String::new();
    let mut i: usize = 0;
    proof {
        assert(fields.take(0).map_values(free_of) =~= Seq::<Seq<char>>::empty());
        assert(fields.take(0).map_values(method_of) =~= Seq::<Seq<char>>::empty());
        assert(fields.take(0).map_values(call_of) =~= Seq::<Seq<char>>::empty());
    }
    while i < ic.field_infos.len()
        invariant
            i <= ic.field_infos.len(),
            whole == ic.deep_view(),
            fields == whole.field_infos,
            record@ == whole.self_type,
            free_of == |f: FieldInfoView| free_function_source(whole.self_type, f),
            method_of == |f: FieldInfoView| method_source(whole.self_type, f),
            call_of == |f: FieldInfoView| call_source(f),
            free_contract_functions@ == fields.take(i as int).map_values(free_of).flatten(),
            contract_functions@ == fields.take(i as int).map_values(method_of).flatten(),
            contract_function_calls@ == fields.take(i as int).map_values(call_of).flatten(),
        decreases ic.field_infos.len() - i,
    {
        let field = &ic.field_infos[i];
        let ghost f = field.deep_view();
        proof {
            assert(fields.take(i + 1).map_values(free_of) =~= fields.take(i as int).map_values(
                free_of,
            ).push(free_function_source(whole.self_type, f)));
            assert(fields.take(i + 1).map_values(method_of) =~= fields.take(i as int).map_values(
                method_of,
            ).push(method_source(whole.self_type, f)));
            assert(fields.take(i + 1).map_values(call_of) =~= fields.take(i as int).map_values(
                call_of,
            ).push(call_source(f)));
            fields.take(i as int).map_values(free_of).lemma_flatten_push(
                free_function_source(whole.self_type, f),
            );
            fields.take(i as int).map_values(method_of).lemma_flatten_push(
                method_source(whole.self_type, f),
            );
            fields.take(i as int).map_values(call_of).lemma_flatten_push(call_source(f));
        }
        free_contract_functions.append(emit_free_function(record, field).as_str());
        contract_functions.append(emit_method(record, field).as_str());
        contract_function_calls.append(emit_call(field).as_str());
        i = i + 1;
    }
    proof {
        assert(fields.take(i as int) =~= fields);
    }
    let mut validator = "#[automatically_derived]\nimpl Validator for ".to_owned();
    validator.append(record);
    validator.append(" {\n    fn validate(&self) -> Result<(), ValidationError> {\n");
    validator.append(contract_function_calls.as_str());
    validator.append("        Ok(())\n    }\n}\n");
    let mut code = free_contract_functions;
    code.append("impl ");
    code.append(record);
    code.append(" {\n");
    code.append(contract_functions.as_str());
    code.append("}\n");
    code.append(validator.as_str());
    code.append(emit_try_from(record).as_str());
    code
}


/// Two siblings never share the name of a parameter.
pub proof fn lemma_sibling_names_differ(a: int, b: int)
    requires
        0 <= a,
        0 <= b,
        sibling_name(a) == sibling_name(b),
    ensures
        a == b,
{
    reveal_strlit("s");
    assert(sibling_name(a).skip(1) =~= decimal(a as nat));
    assert(sibling_name(b).skip(1) =~= decimal(b as nat));
    lemma_decimal_injective(a as nat, b as nat);
}

/// No sibling's parameter has the name of the parameter for the value.
pub proof fn lemma_sibling_name_is_not_value(k: int)
    ensures
        sibling_name(k) != "value"@,
{
    reveal_strlit("s");
    reveal_strlit("value");
    assert(sibling_name(k)[0] == 's');
    assert("value"@[0] == 'v');
}

/// Pieces of text that are put together one after the other can be split
/// at any piece: before it stand the pieces before it, after it those after
/// it, each group in its order.
pub proof fn lemma_pieces_in_order(piece: spec_fn(int) -> Seq<char>, n: nat, k: int)
    requires
        0 <= k < n,
    ensures
        Seq::new(n, piece).flatten() == Seq::new(k as nat, piece).flatten() + piece(k) + Seq::new(
            (n - k - 1) as nat,
            |i: int| piece(k + 1 + i),
        ).flatten(),
{
    let before = Seq::new(k as nat, piece);
    let after = Seq::new((n - k - 1) as nat, |i: int| piece(k + 1 + i));
    assert(Seq::new(n, piece) =~= before.push(piece(k)) + after);
    vstd::seq_lib::lemma_flatten_concat(before.push(piece(k)), after);
    before.lemma_flatten_push(piece(k));
}

/// The method of a field checks the rules in the order in which they were
/// written: the check of a rule stands after the checks of all rules before
/// it and before the checks of all rules after it. Each check returns the
/// error of its own rule, so the first rule that fails decides the result.
pub proof fn lemma_method_checks_follow_rules(record: Seq<char>, field: FieldInfoView, k: int)
    requires
        0 <= k < field.rules.len(),
    ensures
        method_checks(record, field) == Seq::new(
            k as nat,
            |i: int| method_check_at(record, field, i),
        ).flatten() + method_check_at(record, field, k) + Seq::new(
            (field.rules.len() - k - 1) as nat,
            |i: int| method_check_at(record, field, k + 1 + i),
        ).flatten(),
{
    let piece = |i: int| method_check_at(record, field, i);
    lemma_pieces_in_order(piece, field.rules.len(), k);
    assert(Seq::new((field.rules.len() - k - 1) as nat, |i: int| piece(k + 1 + i)) =~= Seq::new(
        (field.rules.len() - k - 1) as nat,
        |i: int| method_check_at(record, field, k + 1 + i),
    ));
}

/// The free function of a field checks the rules in the order in which
/// they were written, as the method does.
pub proof fn lemma_free_checks_follow_rules(record: Seq<char>, field: FieldInfoView, k: int)
    requires
        0 <= k < field.rules.len(),
    ensures
        free_checks(record, field) == Seq::new(
            k as nat,
            |i: int| free_check_at(record, field, i),
        ).flatten() + free_check_at(record, field, k) + Seq::new(
            (field.rules.len() - k - 1) as nat,
            |i: int| free_check_at(record, field, k + 1 + i),
        ).flatten(),
{
    let piece = |i: int| free_check_at(record, field, i);
    lemma_pieces_in_order(piece, field.rules.len(), k);
    assert(Seq::new((field.rules.len() - k - 1) as nat, |i: int| piece(k + 1 + i)) =~= Seq::new(
        (field.rules.len() - k - 1) as nat,
        |i: int| free_check_at(record, field, k + 1 + i),
    ));
}

/// `validate` checks the fields in the order of their declaration: the call
/// for a field stands after the calls for all fields before it and before
/// the calls for all fields after it.
pub proof fn lemma_validate_follows_fields(ic: IntermediateCodeView, k: int)
    requires
        0 <= k < ic.field_infos.len(),
    ensures
        calls_source(ic) == Seq::new(
            k as nat,
            |i: int| call_source(ic.field_infos[i]),
        ).flatten() + call_source(ic.field_infos[k]) + Seq::new(
            (ic.field_infos.len() - k - 1) as nat,
            |i: int| call_source(ic.field_infos[k + 1 + i]),
        ).flatten(),
{
    let piece = |i: int| call_source(ic.field_infos[i]);
    lemma_pieces_in_order(piece, ic.field_infos.len(), k);
    assert(ic.field_infos.map_values(|f: FieldInfoView| call_source(f)) =~= Seq::new(
        ic.field_infos.len(),
        piece,
    ));
    assert(Seq::new((ic.field_infos.len() - k - 1) as nat, |i: int| piece(k + 1 + i)) =~= Seq::new(
        (ic.field_infos.len() - k - 1) as nat,
        |i: int| call_source(ic.field_infos[k + 1 + i]),
    ));
}

} // verus!
