use form_schema::annotations::Annotations;
use form_schema::enums::{EnumerationValue, EnumerationValues};
use form_schema::error::CompilationError;
use form_schema::object_types::{ObjectType, RawObjectType, StringBounds};
use form_schema::source::{PropertyEntry, PropertyList, SourceKeysValues, SourceSchema};
use form_schema::validation::validate;

fn blank() -> SourceSchema {
    SourceSchema {
        types: None,
        property_list: None,
        dynamic: None,
        enumeration: None,
        annotations: Annotations { title: None, help: None, warning: None, description: None, widget: None },
        formula: None,
    }
}

fn typed(types: Vec<ObjectType>) -> SourceSchema {
    SourceSchema { types: Some(types), ..blank() }
}

fn with_properties(schema: SourceSchema, properties: Vec<(&str, SourceSchema)>) -> SourceSchema {
    SourceSchema {
        property_list: Some(PropertyList {
            entries: properties
                .into_iter()
                .map(|(name, property)| PropertyEntry { name: name.to_string(), property })
                .collect(),
        }),
        ..schema
    }
}

fn enumeration(values: &[&str]) -> Option<EnumerationValues> {
    Some(EnumerationValues {
        possible_values: values.iter().map(|value| EnumerationValue::from(*value)).collect(),
    })
}

fn limited(low: Option<u64>, high: Option<u64>) -> ObjectType {
    ObjectType::Required(RawObjectType::String(Some(StringBounds { min_length: low, max_length: high })))
}

#[test]
fn plain_document_is_valid() {
    assert_eq!(validate(&blank()), Ok(()));
    let document = with_properties(blank(), vec![("a", typed(vec![limited(Some(1), Some(1))]))]);
    assert_eq!(validate(&document), Ok(()));
}

#[test]
fn enumeration_with_distinct_values_is_valid() {
    let mut document = blank();
    document.enumeration = enumeration(&["a", "b", "c"]);
    assert_eq!(validate(&document), Ok(()));
}

#[test]
fn empty_enumeration_is_a_validation_error() {
    let mut document = blank();
    document.enumeration = enumeration(&[]);
    assert_eq!(validate(&document), Err(CompilationError::ValidationError));
}

#[test]
fn enumeration_with_a_repeated_value_is_a_validation_error() {
    let mut document = blank();
    document.enumeration = enumeration(&["a", "b", "a"]);
    assert_eq!(validate(&document), Err(CompilationError::ValidationError));
}

#[test]
fn enumeration_value_without_a_value_is_a_validation_error() {
    let mut values = enumeration(&["a", "b"]).unwrap();
    values.possible_values[1].value = None;
    let mut document = blank();
    document.enumeration = Some(values);
    assert_eq!(validate(&document), Err(CompilationError::ValidationError));
}

#[test]
fn limits_in_the_wrong_order_are_a_validation_error() {
    assert_eq!(
        validate(&typed(vec![limited(Some(3), Some(2))])),
        Err(CompilationError::ValidationError)
    );
    assert_eq!(
        validate(&typed(vec![ObjectType::Required(RawObjectType::Object), limited(Some(3), Some(2))])),
        Err(CompilationError::ValidationError)
    );
    assert_eq!(validate(&typed(vec![limited(Some(3), None)])), Ok(()));
    assert_eq!(validate(&typed(vec![limited(None, Some(0))])), Ok(()));
}

#[test]
fn fault_below_a_property_is_a_fault_of_the_document() {
    let mut faulty = blank();
    faulty.enumeration = enumeration(&[]);
    let document = with_properties(
        blank(),
        vec![("a", blank()), ("b", with_properties(blank(), vec![("c", faulty)]))],
    );
    assert_eq!(validate(&document), Err(CompilationError::ValidationError));
}

#[test]
fn fault_in_keys_or_values_is_a_fault_of_the_document() {
    let mut faulty = blank();
    faulty.enumeration = enumeration(&["x", "x"]);
    let mut in_keys = blank();
    in_keys.dynamic = Some(Box::new(SourceKeysValues { keys: faulty, values: blank() }));
    assert_eq!(validate(&in_keys), Err(CompilationError::ValidationError));
    let mut faulty = blank();
    faulty.enumeration = enumeration(&["x", "x"]);
    let mut in_values = blank();
    in_values.dynamic = Some(Box::new(SourceKeysValues { keys: blank(), values: faulty }));
    assert_eq!(validate(&in_values), Err(CompilationError::ValidationError));
    let mut fine = blank();
    fine.dynamic = Some(Box::new(SourceKeysValues { keys: blank(), values: blank() }));
    assert_eq!(validate(&fine), Ok(()));
}

#[test]
fn validation_reads_and_changes_nothing() {
    let mut document = with_properties(blank(), vec![("a", blank())]);
    document.enumeration = enumeration(&["a"]);
    let mut same = with_properties(blank(), vec![("a", blank())]);
    same.enumeration = enumeration(&["a"]);
    let _ = validate(&document);
    assert_eq!(document, same);
}
