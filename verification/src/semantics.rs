//! What generated validation code returns when it runs, told from what an
//! instance gives to its checks: for each field the text that its value
//! prints, and for each rule of the field whether the value compares as the
//! rule asks.

use crate::intermediate::{FieldInfo, FieldInfoView, IntermediateCode, IntermediateCodeView};
use crate::runtime::ValidationError;
use vstd::prelude::*;
use vstd::string::StringExecFns;

verus! {

/// What one field of an instance gives to the checks of the field: the
/// text that its value prints, and for each rule, in the order of the
/// rules, whether the value compares as the rule asks. A rule without an
/// entry counts as satisfied.
#[derive(Debug, Clone)]
pub struct FieldOutcome {
    pub shown: String,
    pub holds: Vec<bool>,
}

/// What a `FieldOutcome` holds.
pub struct FieldOutcomeView {
    pub shown: Seq<char>,
    pub holds: Seq<bool>,
}

impl DeepView for FieldOutcome {
    type V = FieldOutcomeView;

    open spec fn deep_view(&self) -> FieldOutcomeView {
        FieldOutcomeView { shown: self.shown@, holds: self.holds@ }
    }
}

/// What a validation error holds.
pub struct Failure {
    pub message: Seq<char>,
    pub source: Seq<char>,
}

/// The failure that a result of validation reports, if it reports one.
pub open spec fn failure_of(r: Result<(), ValidationError>) -> Option<Failure> {
    match r {
        Ok(_) => None,
        Err(e) => Some(Failure { message: e.spec_message(), source: e.spec_source() }),
    }
}

/// The first number below `n` for which `bad` holds, if there is one.
pub open spec fn first_index(bad: spec_fn(int) -> bool, n: nat) -> Option<int>
    decreases n,
{
    if n == 0 {
        None
    } else {
        match first_index(bad, (n - 1) as nat) {
            Some(k) => Some(k),
            None => if bad(n - 1) {
                Some(n - 1)
            } else {
                None
            },
        }
    }
}

/// `first_index` gives the least number below `n` for which `bad` holds,
/// and none only where there is none.
pub proof fn lemma_first_index(bad: spec_fn(int) -> bool, n: nat)
    ensures
        match first_index(bad, n) {
            Some(k) => 0 <= k < n && bad(k) && forall|j: int| 0 <= j < k ==> !(#[trigger] bad(j)),
            None => forall|j: int| 0 <= j < n ==> !(#[trigger] bad(j)),
        },
    decreases n,
{
    if n > 0 {
        lemma_first_index(bad, (n - 1) as nat);
    }
}

/// The least number below `n` for which `bad` holds is what `first_index`
/// gives.
pub proof fn lemma_first_index_is(bad: spec_fn(int) -> bool, n: nat, k: int)
    requires
        0 <= k < n,
        bad(k),
        forall|j: int| 0 <= j < k ==> !(#[trigger] bad(j)),
    ensures
        first_index(bad, n) == Some(k),
{
    lemma_first_index(bad, n);
}

/// The message of a failed check: the value, the name of the field, the
/// operator, and the right-hand side as it was written.
pub open spec fn failure_message(
    shown: Seq<char>,
    field: Seq<char>,
    op: Seq<char>,
    right: Seq<char>,
) -> Seq<char> {
    "value="@ + shown + ": '"@ + field + "' "@ + op + " '"@ + right + "'"@
}

/// Whether the value fails the `k`-th rule.
pub open spec fn fails(holds: Seq<bool>, k: int) -> bool {
    0 <= k < holds.len() && !holds[k]
}

/// The failure that the check of the `k`-th rule of a field reports.
pub open spec fn rule_failure(
    record: Seq<char>,
    field: FieldInfoView,
    shown: Seq<char>,
    k: int,
) -> Failure {
    Failure {
        message: failure_message(
            shown,
            field.field_name,
            field.rules[k].op_text(),
            field.rules[k].right.written(),
        ),
        source: record,
    }
}

/// What the contract function of a field returns: the failure of the
/// first rule, in the order of the rules, that the value fails.
pub open spec fn contract_outcome(
    record: Seq<char>,
    field: FieldInfoView,
    outcome: FieldOutcomeView,
) -> Option<Failure> {
    match first_index(|k: int| fails(outcome.holds, k), field.rules.len()) {
        Some(k) => Some(rule_failure(record, field, outcome.shown, k)),
        None => None,
    }
}

/// Whether the contract function of the `i`-th field reports a failure. A
/// field without an entry in the instance reports none.
pub open spec fn field_fails(
    ic: IntermediateCodeView,
    instance: Seq<FieldOutcomeView>,
    i: int,
) -> bool {
    0 <= i < instance.len() && 0 <= i < ic.field_infos.len() && contract_outcome(
        ic.self_type,
        ic.field_infos[i],
        instance[i],
    ) is Some
}

/// What `validate` returns: the failure of the first field, in the order
/// of declaration, whose contract function reports one.
pub open spec fn validate_outcome(
    ic: IntermediateCodeView,
    instance: Seq<FieldOutcomeView>,
) -> Option<Failure> {
    match first_index(|i: int| field_fails(ic, instance, i), ic.field_infos.len()) {
        Some(i) => contract_outcome(ic.self_type, ic.field_infos[i], instance[i]),
        None => None,
    }
}

/// Runs the contract function of a field on what an instance gives to it.
pub fn run_contract(record: &str, field: &FieldInfo, outcome: &FieldOutcome) -> (r: Result<
    (),
    ValidationError,
>)
    ensures
        failure_of(r) == contract_outcome(record@, field.deep_view(), outcome.deep_view()),
{
    let ghost bad = |k: int| fails(outcome.holds@, k);
    let mut k: usize = 0;
    while k < field.rules.len()
        invariant
            k <= field.rules.len(),
            bad == |k: int| fails(outcome.holds@, k),
            forall|j: int| 0 <= j < k ==> !(#[trigger] bad(j)),
        decreases field.rules.len() - k,
    {
        if k < outcome.holds.len() && !outcome.holds[k] {
            let rule = &field.rules[k];
            let mut message = "value=".to_owned();
            message.append(outcome.shown.as_str());
            message.append(": '");
            message.append(field.field_name.as_str());
            message.append("' ");
            message.append(rule.op_text());
            message.append(" '");
            message.append(rule.right.written().as_str());
            message.append("'");
            proof {
                lemma_first_index_is(bad, field.rules.len() as nat, k as int);
            }
            return Err(ValidationError::new(message, record.to_owned()));
        }
        k = k + 1;
    }
    proof {
        lemma_first_index(bad, field.rules.len() as nat);
    }
    Ok(())
}

/// Runs `validate` on what an instance gives to the checks of its fields.
pub fn run_validate(ic: &IntermediateCode, instance: &Vec<FieldOutcome>) -> (r: Result<
    (),
    ValidationError,
>)
    ensures
        failure_of(r) == validate_outcome(ic.deep_view(), instance.deep_view()),
{
    let ghost bad = |i: int| field_fails(ic.deep_view(), instance.deep_view(), i);
    let mut i: usize = 0;
    while i < ic.field_infos.len()
        invariant
            i <= ic.field_infos.len(),
            bad == |i: int| field_fails(ic.deep_view(), instance.deep_view(), i),
            forall|j: int| 0 <= j < i ==> !(#[trigger] bad(j)),
        decreases ic.field_infos.len() - i,
    {
        if i < instance.len() {
            let r = run_contract(ic.self_type.as_str(), &ic.field_infos[i], &instance[i]);
            if r.is_err() {
                proof {
                    lemma_first_index_is(bad, ic.field_infos.len() as nat, i as int);
                }
                return r;
            }
        }
        i = i + 1;
    }
    proof {
        lemma_first_index(bad, ic.field_infos.len() as nat);
    }
    Ok(())
}

/// The first rule that an instance fails decides what `validate` returns:
/// where every field before the field passes, and the value of the field
/// passes every rule before the `k`-th and fails the `k`-th, `validate`
/// returns the failure of that rule.
pub proof fn lemma_first_failing_rule_decides(
    ic: IntermediateCodeView,
    instance: Seq<FieldOutcomeView>,
    i: int,
    k: int,
)
    requires
        0 <= i < ic.field_infos.len(),
        i < instance.len(),
        forall|h: int| 0 <= h < i ==> !field_fails(ic, instance, h),
        0 <= k < ic.field_infos[i].rules.len(),
        fails(instance[i].holds, k),
        forall|j: int| 0 <= j < k ==> !fails(instance[i].holds, j),
    ensures
        validate_outcome(ic, instance) == Some(
            rule_failure(ic.self_type, ic.field_infos[i], instance[i].shown, k),
        ),
{
    lemma_first_index_is(
        |j: int| fails(instance[i].holds, j),
        ic.field_infos[i].rules.len(),
        k,
    );
    lemma_first_index_is(|h: int| field_fails(ic, instance, h), ic.field_infos.len(), i);
}

/// Nothing after the first failing rule is looked at: what `validate`
/// returns stays the same whatever the rules after that rule are, in its
/// field and in the fields after it, and whatever the instance gives to
/// them.
pub proof fn lemma_nothing_after_the_failing_rule_counts(
    ic: IntermediateCodeView,
    instance: Seq<FieldOutcomeView>,
    other_ic: IntermediateCodeView,
    other_instance: Seq<FieldOutcomeView>,
    i: int,
    k: int,
)
    requires
        0 <= i < ic.field_infos.len(),
        i < instance.len(),
        forall|h: int| 0 <= h < i ==> !field_fails(ic, instance, h),
        0 <= k < ic.field_infos[i].rules.len(),
        fails(instance[i].holds, k),
        forall|j: int| 0 <= j < k ==> !fails(instance[i].holds, j),
        // the other record and instance are the same up to that rule
        other_ic.self_type == ic.self_type,
        0 <= i < other_ic.field_infos.len(),
        i < other_instance.len(),
        other_ic.field_infos.take(i) == ic.field_infos.take(i),
        other_instance.take(i) == instance.take(i),
        other_ic.field_infos[i].field_name == ic.field_infos[i].field_name,
        k < other_ic.field_infos[i].rules.len(),
        other_ic.field_infos[i].rules.take(k + 1) == ic.field_infos[i].rules.take(k + 1),
        other_instance[i].shown == instance[i].shown,
        other_instance[i].holds.len() > k,
        other_instance[i].holds.take(k + 1) == instance[i].holds.take(k + 1),
    ensures
        validate_outcome(other_ic, other_instance) == validate_outcome(ic, instance),
{
    lemma_first_failing_rule_decides(ic, instance, i, k);
    assert forall|h: int| 0 <= h < i implies !field_fails(other_ic, other_instance, h) by {
        assert(other_ic.field_infos.take(i)[h] == other_ic.field_infos[h]);
        assert(ic.field_infos.take(i)[h] == ic.field_infos[h]);
        assert(other_instance.take(i)[h] == other_instance[h]);
        assert(instance.take(i)[h] == instance[h]);
        assert(!field_fails(ic, instance, h));
    }
    let holds = instance[i].holds;
    let other_holds = other_instance[i].holds;
    assert forall|j: int| 0 <= j <= k implies fails(other_holds, j) == fails(holds, j) by {
        assert(other_holds.take(k + 1)[j] == other_holds[j]);
        assert(holds.take(k + 1)[j] == holds[j]);
    }
    let rules = ic.field_infos[i].rules;
    let other_rules = other_ic.field_infos[i].rules;
    assert(other_rules.take(k + 1)[k] == other_rules[k]);
    assert(rules.take(k + 1)[k] == rules[k]);
    lemma_first_failing_rule_decides(other_ic, other_instance, i, k);
}

/// An instance that passes every rule of every field passes `validate`.
pub proof fn lemma_instance_without_failure_passes(
    ic: IntermediateCodeView,
    instance: Seq<FieldOutcomeView>,
)
    requires
        forall|i: int, k: int|
            0 <= i < instance.len() && 0 <= k < instance[i].holds.len() ==> #[trigger] instance[i].holds[k],
    ensures
        validate_outcome(ic, instance) is None,
{
    assert forall|i: int| 0 <= i < ic.field_infos.len() implies !field_fails(ic, instance, i) by {
        if i < instance.len() {
            lemma_first_index(
                |k: int| fails(instance[i].holds, k),
                ic.field_infos[i].rules.len(),
            );
        }
    }
    lemma_first_index(|i: int| field_fails(ic, instance, i), ic.field_infos.len());
}

/// Validating an instance twice gives the same result both times: what
/// `validate` returns depends on the record's rules and on the instance
/// alone.
pub proof fn lemma_validating_twice_gives_the_same(
    ic: IntermediateCodeView,
    instance: Seq<FieldOutcomeView>,
    first: Result<(), ValidationError>,
    second: Result<(), ValidationError>,
)
    requires
        failure_of(first) == validate_outcome(ic, instance),
        failure_of(second) == validate_outcome(ic, instance),
    ensures
        failure_of(first) == failure_of(second),
{
}

} // verus!
