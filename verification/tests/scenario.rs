use engcon::filter::filter_ast;
use engcon::intermediate::{intermediate_code, IntermediateCode};
use engcon::model::{Attribute, AttributeForm, Field, RecordDef, RecordKind};
use engcon::parser::parse_annotations;
use engcon::semantics::{run_contract, run_validate, FieldOutcome};
use engcon::validator::generate;
use engcon::{Validated, ValidationError, Validator};

#[derive(Debug, Clone, Default, Copy, PartialEq)]
pub struct DistillationColumn {
    pub trays: i32,
    pub feed_place: i32,
    pub reflux_ratio: f32,
    pub distiliate_to_feed_ratio: f32,
}

// The code that is generated for `DistillationColumn`, as it is written out
// in `EXPANSION` below, without the attributes on its items.
pub fn contract_trays(value: i32) -> Result<(), ValidationError> {
    if !(value >= 3) {
        let inject_msg = format!("value={}: '{}' {} '{}'", value, "trays", ">=", "3");
        return Err(ValidationError::new(inject_msg, "DistillationColumn".to_owned()));
    }
    Ok(())
}
pub fn contract_feed_place(value: i32, s1: i32) -> Result<(), ValidationError> {
    if !(value < s1) {
        let inject_msg = format!("value={}: '{}' {} '{}'", value, "feed_place", "<", "trays");
        return Err(ValidationError::new(inject_msg, "DistillationColumn".to_owned()));
    }
    if !(value >= 1) {
        let inject_msg = format!("value={}: '{}' {} '{}'", value, "feed_place", ">=", "1");
        return Err(ValidationError::new(inject_msg, "DistillationColumn".to_owned()));
    }
    Ok(())
}
pub fn contract_reflux_ratio(value: f32) -> Result<(), ValidationError> {
    if !(value > 0.0) {
        let inject_msg = format!("value={}: '{}' {} '{}'", value, "reflux_ratio", ">", "0.0");
        return Err(ValidationError::new(inject_msg, "DistillationColumn".to_owned()));
    }
    Ok(())
}
pub fn contract_distiliate_to_feed_ratio(value: f32) -> Result<(), ValidationError> {
    if !(value > 0.0) {
        let inject_msg = format!("value={}: '{}' {} '{}'", value, "distiliate_to_feed_ratio", ">", "0.0");
        return Err(ValidationError::new(inject_msg, "DistillationColumn".to_owned()));
    }
    if !(value < 1.0) {
        let inject_msg = format!("value={}: '{}' {} '{}'", value, "distiliate_to_feed_ratio", "<", "1.0");
        return Err(ValidationError::new(inject_msg, "DistillationColumn".to_owned()));
    }
    Ok(())
}
impl DistillationColumn {
    pub fn contract_trays(&self) -> Result<(), ValidationError> {
        if !(self.trays >= 3) {
            let inject_msg = format!("value={}: '{}' {} '{}'", self.trays, "trays", ">=", "3");
            return Err(ValidationError::new(inject_msg, "DistillationColumn".to_owned()));
        }
        Ok(())
    }
    pub fn contract_feed_place(&self) -> Result<(), ValidationError> {
        if !(self.feed_place < self.trays) {
            let inject_msg = format!("value={}: '{}' {} '{}'", self.feed_place, "feed_place", "<", "trays");
            return Err(ValidationError::new(inject_msg, "DistillationColumn".to_owned()));
        }
        if !(self.feed_place >= 1) {
            let inject_msg = format!("value={}: '{}' {} '{}'", self.feed_place, "feed_place", ">=", "1");
            return Err(ValidationError::new(inject_msg, "DistillationColumn".to_owned()));
        }
        Ok(())
    }
    pub fn contract_reflux_ratio(&self) -> Result<(), ValidationError> {
        if !(self.reflux_ratio > 0.0) {
            let inject_msg = format!("value={}: '{}' {} '{}'", self.reflux_ratio, "reflux_ratio", ">", "0.0");
            return Err(ValidationError::new(inject_msg, "DistillationColumn".to_owned()));
        }
        Ok(())
    }
    pub fn contract_distiliate_to_feed_ratio(&self) -> Result<(), ValidationError> {
        if !(self.distiliate_to_feed_ratio > 0.0) {
            let inject_msg = format!("value={}: '{}' {} '{}'", self.distiliate_to_feed_ratio, "distiliate_to_feed_ratio", ">", "0.0");
            return Err(ValidationError::new(inject_msg, "DistillationColumn".to_owned()));
        }
        if !(self.distiliate_to_feed_ratio < 1.0) {
            let inject_msg = format!("value={}: '{}' {} '{}'", self.distiliate_to_feed_ratio, "distiliate_to_feed_ratio", "<", "1.0");
            return Err(ValidationError::new(inject_msg, "DistillationColumn".to_owned()));
        }
        Ok(())
    }
}
impl Validator for DistillationColumn {
    fn validate(&self) -> Result<(), ValidationError> {
        self.contract_trays()?;
        self.contract_feed_place()?;
        self.contract_reflux_ratio()?;
        self.contract_distiliate_to_feed_ratio()?;
        Ok(())
    }
}
impl TryFrom<DistillationColumn> for Validated<DistillationColumn> {
    type Error = ValidationError;

    fn try_from(value: DistillationColumn) -> Result<Self, Self::Error> {
        match value.validate() {
            Ok(_) => Ok(Validated::new_unchecked(value)),
            Err(err) => Err(err),
        }
    }
}

const EXPANSION: &str = r##"pub fn contract_trays(value: i32) -> Result<(), ValidationError> {
    if !(value >= 3) {
        let inject_msg = format!("value={}: '{}' {} '{}'", value, "trays", ">=", "3");
        return Err(ValidationError::new(inject_msg, "DistillationColumn".to_owned()));
    }
    Ok(())
}
pub fn contract_feed_place(value: i32, s1: i32) -> Result<(), ValidationError> {
    if !(value < s1) {
        let inject_msg = format!("value={}: '{}' {} '{}'", value, "feed_place", "<", "trays");
        return Err(ValidationError::new(inject_msg, "DistillationColumn".to_owned()));
    }
    if !(value >= 1) {
        let inject_msg = format!("value={}: '{}' {} '{}'", value, "feed_place", ">=", "1");
        return Err(ValidationError::new(inject_msg, "DistillationColumn".to_owned()));
    }
    Ok(())
}
pub fn contract_reflux_ratio(value: f32) -> Result<(), ValidationError> {
    if !(value > 0.0) {
        let inject_msg = format!("value={}: '{}' {} '{}'", value, "reflux_ratio", ">", "0.0");
        return Err(ValidationError::new(inject_msg, "DistillationColumn".to_owned()));
    }
    Ok(())
}
pub fn contract_distiliate_to_feed_ratio(value: f32) -> Result<(), ValidationError> {
    if !(value > 0.0) {
        let inject_msg = format!("value={}: '{}' {} '{}'", value, "distiliate_to_feed_ratio", ">", "0.0");
        return Err(ValidationError::new(inject_msg, "DistillationColumn".to_owned()));
    }
    if !(value < 1.0) {
        let inject_msg = format!("value={}: '{}' {} '{}'", value, "distiliate_to_feed_ratio", "<", "1.0");
        return Err(ValidationError::new(inject_msg, "DistillationColumn".to_owned()));
    }
    Ok(())
}
impl DistillationColumn {
    pub fn contract_trays(&self) -> Result<(), ValidationError> {
        if !(self.trays >= 3) {
            let inject_msg = format!("value={}: '{}' {} '{}'", self.trays, "trays", ">=", "3");
            return Err(ValidationError::new(inject_msg, "DistillationColumn".to_owned()));
        }
        Ok(())
    }
    pub fn contract_feed_place(&self) -> Result<(), ValidationError> {
        if !(self.feed_place < self.trays) {
            let inject_msg = format!("value={}: '{}' {} '{}'", self.feed_place, "feed_place", "<", "trays");
            return Err(ValidationError::new(inject_msg, "DistillationColumn".to_owned()));
        }
        if !(self.feed_place >= 1) {
            let inject_msg = format!("value={}: '{}' {} '{}'", self.feed_place, "feed_place", ">=", "1");
            return Err(ValidationError::new(inject_msg, "DistillationColumn".to_owned()));
        }
        Ok(())
    }
    pub fn contract_reflux_ratio(&self) -> Result<(), ValidationError> {
        if !(self.reflux_ratio > 0.0) {
            let inject_msg = format!("value={}: '{}' {} '{}'", self.reflux_ratio, "reflux_ratio", ">", "0.0");
            return Err(ValidationError::new(inject_msg, "DistillationColumn".to_owned()));
        }
        Ok(())
    }
    pub fn contract_distiliate_to_feed_ratio(&self) -> Result<(), ValidationError> {
        if !(self.distiliate_to_feed_ratio > 0.0) {
            let inject_msg = format!("value={}: '{}' {} '{}'", self.distiliate_to_feed_ratio, "distiliate_to_feed_ratio", ">", "0.0");
            return Err(ValidationError::new(inject_msg, "DistillationColumn".to_owned()));
        }
        if !(self.distiliate_to_feed_ratio < 1.0) {
            let inject_msg = format!("value={}: '{}' {} '{}'", self.distiliate_to_feed_ratio, "distiliate_to_feed_ratio", "<", "1.0");
            return Err(ValidationError::new(inject_msg, "DistillationColumn".to_owned()));
        }
        Ok(())
    }
}
impl Validator for DistillationColumn {
    fn validate(&self) -> Result<(), ValidationError> {
        self.contract_trays()?;
        self.contract_feed_place()?;
        self.contract_reflux_ratio()?;
        self.contract_distiliate_to_feed_ratio()?;
        Ok(())
    }
}
impl TryFrom<DistillationColumn> for Validated<DistillationColumn> {
    type Error = ValidationError;

    fn try_from(value: DistillationColumn) -> Result<Self, Self::Error> {
        match value.validate() {
            Ok(_) => Ok(Validated::new_unchecked(value)),
            Err(err) => Err(err),
        }
    }
}
"##;

fn list(args: &str) -> Attribute {
    Attribute { name: "validate_value".to_owned(), form: AttributeForm::List, args: args.to_owned() }
}

fn field(name: &str, ty: &str, args: &str) -> Field {
    Field { name: name.to_owned(), ty: ty.to_owned(), attributes: vec![list(args)] }
}

fn distillation_column() -> RecordDef {
    RecordDef {
        name: "DistillationColumn".to_owned(),
        kind: RecordKind::Struct,
        fields: vec![
            field("trays", "i32", "x >= 3"),
            field("feed_place", "i32", "x < trays, x >= 1"),
            field("reflux_ratio", "f32", "x > 0.0"),
            field("distiliate_to_feed_ratio", "f32", "x > 0.0, x < 1.0"),
        ],
    }
}

fn without_attributes(code: &str) -> String {
    code.lines()
        .filter(|line| !line.trim_start().starts_with('#'))
        .map(|line| format!("{}\n", line))
        .collect()
}

fn column(trays: i32, feed_place: i32, reflux_ratio: f32, ratio: f32) -> DistillationColumn {
    DistillationColumn { trays, feed_place, reflux_ratio, distiliate_to_feed_ratio: ratio }
}

#[test]
fn generated_code_is_the_code_under_test() {
    let code = generate(distillation_column()).unwrap();
    assert_eq!(without_attributes(&code), EXPANSION);
}

#[test]
fn default_column_fails_on_trays_first() {
    let err = DistillationColumn::default().validate().unwrap_err();
    assert_eq!(err.message(), "value=0: 'trays' >= '3'");
    assert_eq!(err.source(), "DistillationColumn");
    assert_eq!(
        err.to_string(),
        "Error validating 'DistillationColumn': value=0: 'trays' >= '3'"
    );
}

#[test]
fn feed_place_above_trays_fails_on_the_sibling_rule() {
    let err = column(20, 25, 0.0, 0.0).validate().unwrap_err();
    assert_eq!(err.message(), "value=25: 'feed_place' < 'trays'");
    assert_eq!(err.source(), "DistillationColumn");
}

#[test]
fn valid_column_passes_and_converts() {
    let dc = column(20, 10, 1.5, 0.9);
    assert!(dc.validate().is_ok());
    let validated = Validated::try_from(dc).unwrap();
    assert_eq!(validated.into_inner(), dc);
    let validated = dc.try_into_validated().unwrap();
    assert_eq!(validated.into_inner(), dc);
}

#[test]
fn ratio_of_one_fails_on_the_upper_bound() {
    let err = column(40, 20, 0.75, 1.0).validate().unwrap_err();
    assert_eq!(err.message(), "value=1: 'distiliate_to_feed_ratio' < '1.0'");
}

#[test]
fn first_failing_rule_of_a_field_decides() {
    // both rules of `feed_place` fail: the one that was written first is reported
    let err = column(-5, -4, 1.0, 0.5).contract_feed_place().unwrap_err();
    assert_eq!(err.message(), "value=-4: 'feed_place' < 'trays'");
    // only the second rule fails
    let err = column(3, 0, 1.0, 0.5).contract_feed_place().unwrap_err();
    assert_eq!(err.message(), "value=0: 'feed_place' >= '1'");
    assert!(column(3, 2, 1.0, 0.5).contract_feed_place().is_ok());
}

#[test]
fn first_failing_field_decides() {
    // `feed_place` and the ratio both fail: the field that was declared first is reported
    let err = column(3, 0, 1.0, 2.0).validate().unwrap_err();
    assert_eq!(err.message(), "value=0: 'feed_place' >= '1'");
    let err = column(3, 2, 1.0, 2.0).validate().unwrap_err();
    assert_eq!(err.message(), "value=2: 'distiliate_to_feed_ratio' < '1.0'");
}

#[test]
fn free_functions_take_the_siblings_as_arguments() {
    assert!(contract_trays(3).is_ok());
    assert_eq!(contract_trays(2).unwrap_err().message(), "value=2: 'trays' >= '3'");
    assert!(contract_feed_place(10, 20).is_ok());
    assert_eq!(
        contract_feed_place(20, 20).unwrap_err().message(),
        "value=20: 'feed_place' < 'trays'"
    );
    assert_eq!(contract_feed_place(0, 20).unwrap_err().message(), "value=0: 'feed_place' >= '1'");
    assert!(contract_reflux_ratio(0.5).is_ok());
    assert!(contract_reflux_ratio(0.0).is_err());
    assert!(contract_distiliate_to_feed_ratio(0.5).is_ok());
    assert!(contract_distiliate_to_feed_ratio(1.0).is_err());
}

#[test]
fn validating_twice_gives_the_same_result() {
    let bad = column(20, 25, 0.0, 0.0);
    assert_eq!(bad.validate(), bad.validate());
    let good = column(20, 10, 1.5, 0.9);
    assert_eq!(good.validate(), good.validate());
    assert_eq!(good.validate(), Ok(()));
}

#[test]
fn failed_conversion_hands_on_the_error_of_validate() {
    let bad = column(20, 25, 0.0, 0.0);
    let expected = bad.validate().unwrap_err();
    match Validated::try_from(bad) {
        Err(err) => assert_eq!(err, expected),
        Ok(_) => panic!("an invalid column was wrapped"),
    }
    match bad.try_into_validated() {
        Err(err) => assert_eq!(err, expected),
        Ok(_) => panic!("an invalid column was wrapped"),
    }
}

#[test]
fn wrapper_gives_access_to_the_record() {
    let mut validated = column(20, 10, 1.5, 0.9).try_into_validated().unwrap();
    assert_eq!(validated.trays, 20);
    validated.feed_place = 12;
    assert_eq!(validated.into_inner(), column(20, 12, 1.5, 0.9));
}

fn rules_of_the_column() -> IntermediateCode {
    let ast = filter_ast(distillation_column()).unwrap();
    intermediate_code(parse_annotations(ast)).unwrap()
}

fn outcomes(dc: &DistillationColumn) -> Vec<FieldOutcome> {
    let ratio = dc.distiliate_to_feed_ratio;
    vec![
        FieldOutcome { shown: dc.trays.to_string(), holds: vec![dc.trays >= 3] },
        FieldOutcome {
            shown: dc.feed_place.to_string(),
            holds: vec![dc.feed_place < dc.trays, dc.feed_place >= 1],
        },
        FieldOutcome { shown: dc.reflux_ratio.to_string(), holds: vec![dc.reflux_ratio > 0.0] },
        FieldOutcome { shown: ratio.to_string(), holds: vec![ratio > 0.0, ratio < 1.0] },
    ]
}

#[test]
fn generated_code_returns_what_its_meaning_says() {
    let ic = rules_of_the_column();
    let columns = [
        DistillationColumn::default(),
        column(20, 25, 0.0, 0.0),
        column(20, 10, 1.5, 0.9),
        column(40, 20, 0.75, 1.0),
        column(-5, -4, 1.0, 0.5),
        column(3, 0, 1.0, 2.0),
        column(3, 2, -1.0, 2.0),
        column(3, 2, 1.0, -2.0),
        column(3, 2, f32::NAN, 0.5),
    ];
    for dc in columns {
        let given = outcomes(&dc);
        assert_eq!(run_validate(&ic, &given), dc.validate());
        assert_eq!(run_contract("DistillationColumn", &ic.field_infos[0], &given[0]), dc.contract_trays());
        assert_eq!(
            run_contract("DistillationColumn", &ic.field_infos[1], &given[1]),
            dc.contract_feed_place()
        );
        assert_eq!(
            run_contract("DistillationColumn", &ic.field_infos[2], &given[2]),
            dc.contract_reflux_ratio()
        );
        assert_eq!(
            run_contract("DistillationColumn", &ic.field_infos[3], &given[3]),
            dc.contract_distiliate_to_feed_ratio()
        );
    }
}

#[test]
fn nothing_after_the_first_failing_rule_counts() {
    let ic = rules_of_the_column();
    let mut given = outcomes(&column(20, 25, 1.0, 0.5));
    let expected = run_validate(&ic, &given);
    assert_eq!(expected.clone().unwrap_err().message(), "value=25: 'feed_place' < 'trays'");
    // what comes after the failing rule does not change the result
    given[1].holds[1] = false;
    given[2].holds[0] = false;
    given[3] = FieldOutcome { shown: "9".to_owned(), holds: vec![false, false] };
    assert_eq!(run_validate(&ic, &given), expected);
    given.truncate(2);
    assert_eq!(run_validate(&ic, &given), expected);
}

#[test]
fn a_rule_without_an_entry_counts_as_satisfied() {
    let ic = rules_of_the_column();
    assert_eq!(run_validate(&ic, &vec![]), Ok(()));
    let only_first = FieldOutcome { shown: "0".to_owned(), holds: vec![true] };
    assert_eq!(run_contract("Column", &ic.field_infos[1], &only_first), Ok(()));
    let second_fails = FieldOutcome { shown: "0".to_owned(), holds: vec![true, false, false] };
    let err = run_contract("Column", &ic.field_infos[1], &second_fails).unwrap_err();
    assert_eq!(err.message(), "value=0: 'feed_place' >= '1'");
    assert_eq!(err.source(), "Column");
}
