use form_schema::annotations::Annotations;
use form_schema::object_types::{ObjectType, RawObjectType};
use form_schema::source::{PropertyEntry, PropertyList, SourceSchema};

fn blank() -> SourceSchema {
    SourceSchema {
        types: None,
        property_list: None,
        dynamic: None,
        enumeration: None,
        annotations: Annotations { title: None, help: None, warning: None, description: None, widget: None },
        formula: None,
    }
}

fn typed(types: Vec<ObjectType>) -> SourceSchema {
    SourceSchema { types: Some(types), ..blank() }
}

fn with_properties(schema: SourceSchema, properties: Vec<(&str, SourceSchema)>) -> SourceSchema {
    SourceSchema {
        property_list: Some(PropertyList {
            entries: properties
                .into_iter()
                .map(|(name, property)| PropertyEntry { name: name.to_string(), property })
                .collect(),
        }),
        ..schema
    }
}

fn object() -> Vec<ObjectType> {
    vec![ObjectType::Required(RawObjectType::Object)]
}

#[test]
fn untyped_property_gets_a_required_object() {
    let mut entry = PropertyEntry { name: "a".to_string(), property: blank() };
    entry.normalize();
    assert_eq!(entry.name, "a");
    assert_eq!(entry.property.types, Some(object()));
}

#[test]
fn property_with_an_empty_list_of_types_gets_a_required_object() {
    let mut entry = PropertyEntry { name: "a".to_string(), property: typed(vec![]) };
    entry.normalize();
    assert_eq!(entry.property.types, Some(object()));
}

#[test]
fn typed_property_keeps_its_types_in_order() {
    let types = vec![
        ObjectType::Optional(RawObjectType::Integer),
        ObjectType::Required(RawObjectType::String(None)),
    ];
    let mut entry = PropertyEntry { name: "a".to_string(), property: typed(types.clone()) };
    entry.normalize();
    assert_eq!(entry.property.types, Some(types));
}

#[test]
fn every_property_is_normalized_at_every_depth() {
    let mut document = with_properties(
        blank(),
        vec![
            ("a", blank()),
            ("b", with_properties(typed(vec![ObjectType::Optional(RawObjectType::Object)]), vec![("c", with_properties(blank(), vec![("d", blank())]))])),
        ],
    );
    document.normalize();
    let expected = with_properties(
        blank(),
        vec![
            ("a", typed(object())),
            (
                "b",
                with_properties(
                    typed(vec![ObjectType::Optional(RawObjectType::Object)]),
                    vec![("c", with_properties(typed(object()), vec![("d", typed(object()))]))],
                ),
            ),
        ],
    );
    assert_eq!(document, expected);
}

#[test]
fn root_keeps_its_own_types() {
    let mut untyped = blank();
    untyped.normalize();
    assert_eq!(untyped, blank());
    let mut document = typed(vec![ObjectType::Required(RawObjectType::Array)]);
    document.normalize();
    assert_eq!(document, typed(vec![ObjectType::Required(RawObjectType::Array)]));
}

#[test]
fn normalizing_twice_is_normalizing_once() {
    let mut once = with_properties(
        blank(),
        vec![("a", blank()), ("b", with_properties(typed(vec![]), vec![("c", blank())]))],
    );
    once.normalize();
    let mut twice = with_properties(
        blank(),
        vec![("a", blank()), ("b", with_properties(typed(vec![]), vec![("c", blank())]))],
    );
    twice.normalize();
    twice.normalize();
    assert_eq!(once, twice);
}

#[test]
fn normalizing_keeps_everything_but_the_types() {
    let mut property = blank();
    property.formula = Some("x".to_string());
    property.annotations.title = Some("T".to_string());
    let mut document = with_properties(blank(), vec![("z", property), ("a", blank())]);
    document.normalize();
    let list = document.property_list.unwrap();
    assert_eq!(list.entries[0].name, "z");
    assert_eq!(list.entries[0].property.formula.as_deref(), Some("x"));
    assert_eq!(list.entries[0].property.annotations.title.as_deref(), Some("T"));
    assert_eq!(list.entries[1].name, "a");
}
