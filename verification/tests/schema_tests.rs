use staging::generate::generate;
use staging::schema::{
    build, FieldDescription, RecordDescription, RecordShape, SchemaError, StructSpec,
};

fn named(name: &str, ty: &str) -> FieldDescription {
    FieldDescription { name: Some(name.to_string()), declared_type: ty.to_string() }
}

fn person_description() -> RecordDescription {
    RecordDescription {
        name: "Person".to_string(),
        shape: RecordShape::Record(vec![named("name", "Text"), named("age", "Number")]),
        error_type: Some("PersonError".to_string()),
        final_error_type: None,
        staging_name: None,
        crate_root: None,
        collect_unassociated_errors: false,
    }
}

fn person_spec() -> StructSpec {
    build(person_description()).expect("the person description is valid")
}

#[test]
fn build_fills_in_the_defaults() {
    let spec = person_spec();
    assert_eq!(spec.name, "Person");
    assert_eq!(spec.staging_name, "PersonStaging");
    assert_eq!(spec.error_type, "PersonError");
    assert_eq!(spec.final_error_type, "PersonError");
    assert_eq!(spec.crate_root, "::staging_core");
    assert!(!spec.collect_unassociated_errors);
    assert_eq!(spec.fields.len(), 2);
    assert_eq!(spec.fields[0].name, "name");
    assert_eq!(spec.fields[0].declared_type, "Text");
    assert_eq!(spec.fields[1].name, "age");
    assert_eq!(spec.fields[1].declared_type, "Number");
}

#[test]
fn build_keeps_the_overrides() {
    let mut description = person_description();
    description.staging_name = Some("PersonChecker".to_string());
    description.final_error_type = Some("ManyPersonErrors".to_string());
    description.crate_root = Some("::support".to_string());
    description.collect_unassociated_errors = true;
    let spec = build(description).expect("the overridden description is valid");
    assert_eq!(spec.staging_name, "PersonChecker");
    assert_eq!(spec.error_type, "PersonError");
    assert_eq!(spec.final_error_type, "ManyPersonErrors");
    assert_eq!(spec.crate_root, "::support");
    assert!(spec.collect_unassociated_errors);
}

#[test]
fn duplicate_field_name_is_rejected() {
    let mut description = person_description();
    description.shape = RecordShape::Record(vec![
        named("name", "Text"),
        named("age", "Number"),
        named("name", "Number"),
    ]);
    assert_eq!(build(description), Err(SchemaError::DuplicateField));
}

#[test]
fn duplicate_field_is_reported_even_without_an_error_type() {
    let mut description = person_description();
    description.shape = RecordShape::Record(vec![named("name", "Text"), named("name", "Number")]);
    description.error_type = None;
    assert_eq!(build(description), Err(SchemaError::DuplicateField));
}

#[test]
fn variant_shape_is_rejected() {
    let mut description = person_description();
    description.shape = RecordShape::Variant;
    assert_eq!(build(description), Err(SchemaError::UnsupportedShape));
}

#[test]
fn positional_field_is_rejected() {
    let mut description = person_description();
    description.shape = RecordShape::Record(vec![
        named("name", "Text"),
        FieldDescription { name: None, declared_type: "Number".to_string() },
    ]);
    assert_eq!(build(description), Err(SchemaError::UnsupportedShape));
}

#[test]
fn empty_record_is_rejected() {
    let mut description = person_description();
    description.shape = RecordShape::Record(Vec::new());
    assert_eq!(build(description), Err(SchemaError::UnsupportedShape));
}

#[test]
fn missing_error_type_is_rejected() {
    let mut description = person_description();
    description.error_type = None;
    assert_eq!(build(description), Err(SchemaError::MissingErrorType));
}

#[test]
fn generated_shape_pairs_each_field_with_the_error_type() {
    let artifacts = generate(&person_spec());
    let shape = &artifacts.shape;
    assert_eq!(shape.name, "PersonStaging");
    assert_eq!(shape.additional_errors, None);
    assert_eq!(shape.fields.len(), 2);
    assert_eq!(shape.fields[0].name, "name");
    assert_eq!(shape.fields[0].value_type, "Text");
    assert_eq!(shape.fields[0].error_type, "PersonError");
    assert_eq!(shape.fields[1].name, "age");
    assert_eq!(shape.fields[1].value_type, "Number");
    assert_eq!(shape.fields[1].error_type, "PersonError");
}

#[test]
fn generated_conversion_walks_the_fields_in_declaration_order() {
    let artifacts = generate(&person_spec());
    let conversion = &artifacts.conversion;
    assert_eq!(conversion.record_name, "Person");
    assert_eq!(conversion.staging_name, "PersonStaging");
    assert_eq!(conversion.final_error_type, "PersonError");
    assert_eq!(conversion.crate_root, "::staging_core");
    assert_eq!(conversion.field_names, vec!["name".to_string(), "age".to_string()]);
    assert!(!conversion.seed_unassociated);
}

#[test]
fn collecting_unassociated_errors_adds_the_sequence() {
    let mut description = person_description();
    description.collect_unassociated_errors = true;
    let spec = build(description).expect("the collecting description is valid");
    let artifacts = generate(&spec);
    assert_eq!(artifacts.shape.additional_errors, Some("PersonError".to_string()));
    assert!(artifacts.conversion.seed_unassociated);
}

#[test]
fn generation_is_idempotent() {
    let first_spec = build(person_description()).expect("valid");
    let second_spec = build(person_description()).expect("valid");
    assert_eq!(first_spec, second_spec);
    assert_eq!(generate(&first_spec), generate(&second_spec));
    assert_eq!(generate(&first_spec), generate(&first_spec));
}
