use staging::convert::{
    singleton_or_wrap, try_convert, try_convert_aggregated, Aggregated, FieldOutcome, StagingValue,
};

#[derive(Debug, PartialEq, Clone)]
enum Value {
    Text(String),
    Number(u64),
}

#[derive(Debug, PartialEq, Clone, Copy)]
enum PersonError {
    InvalidName,
    AgeTooHigh,
    ParseFailure,
    NameAgeMismatch,
}

fn validate_name(input: &str) -> Result<String, PersonError> {
    match input.chars().next() {
        Some(first) if first.is_ascii_uppercase() => Ok(input.to_string()),
        _ => Err(PersonError::InvalidName),
    }
}

fn validate_age(input: u64) -> Result<u64, PersonError> {
    if input <= 150 {
        Ok(input)
    } else {
        Err(PersonError::AgeTooHigh)
    }
}

fn parse_age(input: &str) -> Result<u64, PersonError> {
    input.parse().map_err(|_| PersonError::ParseFailure)
}

/// The cross-field check of the examples: an old-fashioned name is expected
/// to come with an age of at least eighty.
fn name_age_mismatch(name: &str, age: u64) -> bool {
    name == "Mildred" && age < 80
}

fn outcome(r: Result<Value, PersonError>) -> FieldOutcome<Value, PersonError> {
    match r {
        Ok(v) => FieldOutcome::Success(v),
        Err(e) => FieldOutcome::Failure(e),
    }
}

fn stage_person(name_input: &str, age_input: u64) -> StagingValue<Value, PersonError> {
    let name = validate_name(name_input).map(Value::Text);
    let age = validate_age(age_input).map(Value::Number);
    let mut additional_errors = Vec::new();
    if name_age_mismatch(name_input, age_input) {
        additional_errors.push(PersonError::NameAgeMismatch);
    }
    StagingValue { fields: vec![outcome(name), outcome(age)], additional_errors }
}

#[test]
fn alice_25_succeeds() {
    let r = try_convert_aggregated(stage_person("Alice", 25));
    assert_eq!(r, Ok(vec![Value::Text("Alice".to_string()), Value::Number(25)]));
}

#[test]
fn empty_name_fails_with_single_error() {
    let r = try_convert_aggregated(stage_person("", 30));
    assert_eq!(r, Err(Aggregated::Single(PersonError::InvalidName)));
}

#[test]
fn bob_200_fails_with_single_error() {
    let r = try_convert_aggregated(stage_person("Bob", 200));
    assert_eq!(r, Err(Aggregated::Single(PersonError::AgeTooHigh)));
}

#[test]
fn lowercase_bob_200_fails_with_both_errors_in_order() {
    let r = try_convert_aggregated(stage_person("bob", 200));
    assert_eq!(
        r,
        Err(Aggregated::Multiple(vec![PersonError::InvalidName, PersonError::AgeTooHigh]))
    );
}

#[test]
fn mildred_70_fails_with_unassociated_error() {
    let r = try_convert_aggregated(stage_person("Mildred", 70));
    assert_eq!(r, Err(Aggregated::Single(PersonError::NameAgeMismatch)));
}

#[test]
fn mildred_85_succeeds() {
    let r = try_convert_aggregated(stage_person("Mildred", 85));
    assert_eq!(r, Ok(vec![Value::Text("Mildred".to_string()), Value::Number(85)]));
}

#[test]
fn unparsable_age_fails_with_parse_failure() {
    let age = parse_age("twenty").map(Value::Number);
    let name = validate_name("Ada").map(Value::Text);
    let staging = StagingValue { fields: vec![outcome(name), outcome(age)], additional_errors: Vec::new() };
    let r = try_convert_aggregated(staging);
    assert_eq!(r, Err(Aggregated::Single(PersonError::ParseFailure)));
}

#[test]
fn zero_errors_never_invoke_the_reduction() {
    let r: Result<Vec<Value>, PersonError> = try_convert(stage_person("Alice", 25), |_errs| {
        panic!("the reduction must not be invoked when nothing failed")
    });
    assert_eq!(r, Ok(vec![Value::Text("Alice".to_string()), Value::Number(25)]));
}

#[test]
fn single_field_record_converts() {
    let staging: StagingValue<u64, u64> =
        StagingValue { fields: vec![FieldOutcome::Success(9)], additional_errors: Vec::new() };
    assert_eq!(try_convert_aggregated(staging), Ok(vec![9]));
}

#[test]
fn reduction_observes_unassociated_then_field_errors() {
    let staging: StagingValue<Value, PersonError> = StagingValue {
        fields: vec![
            FieldOutcome::Failure(PersonError::InvalidName),
            FieldOutcome::Failure(PersonError::AgeTooHigh),
        ],
        additional_errors: vec![PersonError::NameAgeMismatch, PersonError::ParseFailure],
    };
    let r: Result<Vec<Value>, Vec<PersonError>> = try_convert(staging, |errs| errs);
    assert_eq!(
        r,
        Err(vec![
            PersonError::NameAgeMismatch,
            PersonError::ParseFailure,
            PersonError::InvalidName,
            PersonError::AgeTooHigh,
        ])
    );
}

#[test]
fn reduction_observes_errors_interleaved_with_successes() {
    let staging: StagingValue<u64, &str> = StagingValue {
        fields: vec![
            FieldOutcome::Failure("first"),
            FieldOutcome::Success(1),
            FieldOutcome::Failure("second"),
            FieldOutcome::Success(2),
        ],
        additional_errors: vec!["early"],
    };
    let r: Result<Vec<u64>, Vec<&str>> = try_convert(staging, |errs| errs);
    assert_eq!(r, Err(vec!["early", "first", "second"]));
}

#[test]
fn singleton_reduction_is_transparent() {
    assert_eq!(
        singleton_or_wrap(vec![PersonError::InvalidName]),
        Aggregated::Single(PersonError::InvalidName)
    );
}

#[test]
fn wider_reduction_wraps_in_order() {
    assert_eq!(
        singleton_or_wrap(vec![PersonError::AgeTooHigh, PersonError::InvalidName]),
        Aggregated::Multiple(vec![PersonError::AgeTooHigh, PersonError::InvalidName])
    );
}
