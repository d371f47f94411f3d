use form_schema::annotations::Widget;
use form_schema::deserialization::{deserialize_root, deserialize_schema};
use form_schema::error::CompilationError;
use form_schema::object_types::{ObjectType, RawObjectType, StringBounds};
use form_schema::schema::DocumentRoot;
use form_schema::tree::{Entry, Node};

fn node_of(value: &serde_yaml::Value) -> Node {
    match value {
        serde_yaml::Value::Null => Node::Null,
        serde_yaml::Value::Bool(b) => Node::Bool(*b),
        serde_yaml::Value::Number(n) => {
            if let Some(u) = n.as_u64() {
                Node::Unsigned(u)
            } else if let Some(i) = n.as_i64() {
                Node::Negative(i)
            } else {
                match n.as_f64() {
                    Some(f) if f.is_finite() => Node::Real(serde_json::to_string(&f).unwrap()),
                    _ => Node::Null,
                }
            }
        }
        serde_yaml::Value::String(s) => Node::Text(s.clone()),
        serde_yaml::Value::Sequence(items) => Node::Sequence(items.iter().map(node_of).collect()),
        serde_yaml::Value::Mapping(entries) => Node::Mapping(
            entries
                .iter()
                .map(|(key, value)| Entry { key: node_of(key), value: node_of(value) })
                .collect(),
        ),
    }
}

fn parse(text: &str) -> Node {
    let value: serde_yaml::Value = serde_yaml::from_str(text).unwrap();
    node_of(&value)
}

#[test]
fn fails_on_unknown_version_number() {
    let schema = parse(
        r#"
        version: 2
        "#,
    );

    let deserialized: Result<DocumentRoot, CompilationError> = deserialize_root(&schema);

    assert!(deserialized.err().is_some());
}

#[test]
fn passes_on_known_version_number() {
    let schema = parse(
        r#"
        version: 1
        "#,
    );

    let deserialized: Result<DocumentRoot, CompilationError> = deserialize_root(&schema);
    assert!(deserialized.ok().is_some());
}

#[test]
fn unknown_version_number_is_unsupported_version() {
    let schema = parse("version: 2");
    assert_eq!(deserialize_root(&schema).err(), Some(CompilationError::UnsupportedVersion));
}

#[test]
fn any_other_version_value_is_unsupported_version() {
    for text in ["version: 0", "version: -1", "version: '1'", "version: 1.5", "version: ~", "version: [1]"] {
        let schema = parse(text);
        assert_eq!(
            deserialize_root(&schema).err(),
            Some(CompilationError::UnsupportedVersion),
            "{}",
            text
        );
    }
}

#[test]
fn missing_version_reads_like_version_one() {
    let without = parse("title: Form\nproperties:\n  - name: {type: string}\n");
    let first = parse("version: 1\ntitle: Form\nproperties:\n  - name: {type: string}\n");
    let last = parse("title: Form\nproperties:\n  - name: {type: string}\nversion: 1\n");
    let expected = deserialize_root(&without).unwrap();
    assert_eq!(expected.version, 1);
    assert_eq!(deserialize_root(&first).unwrap(), expected);
    assert_eq!(deserialize_root(&last).unwrap(), expected);
}

#[test]
fn version_only_document_is_an_object_without_properties() {
    let root = deserialize_root(&parse("version: 1")).unwrap();
    assert_eq!(root.version, 1);
    assert_eq!(root.schema.object_type, ObjectType::Required(RawObjectType::Object));
    assert!(root.schema.children.is_none());
    assert!(root.schema.dynamic.is_none());
    assert!(root.schema.enumeration.is_none());
    assert!(root.schema.formula.is_none());
}

#[test]
fn root_that_is_no_mapping_is_a_type_mismatch() {
    for text in ["[1, 2]", "plain", "3", "~"] {
        assert_eq!(
            deserialize_root(&parse(text)).err(),
            Some(CompilationError::TypeMismatch),
            "{}",
            text
        );
    }
}

#[test]
fn properties_that_are_no_sequence_are_a_type_mismatch() {
    let schema = parse("properties: {name: {}}");
    assert_eq!(deserialize_root(&schema).err(), Some(CompilationError::TypeMismatch));
}

#[test]
fn property_that_is_no_mapping_is_a_type_mismatch() {
    let schema = parse("properties: [name]");
    assert_eq!(deserialize_root(&schema).err(), Some(CompilationError::TypeMismatch));
}

#[test]
fn property_with_two_entries_is_a_type_mismatch() {
    let schema = parse("properties: [{a: {}, b: {}}]");
    assert_eq!(deserialize_root(&schema).err(), Some(CompilationError::TypeMismatch));
}

#[test]
fn property_without_entries_is_a_type_mismatch() {
    let schema = parse("properties: [{}]");
    assert_eq!(deserialize_root(&schema).err(), Some(CompilationError::TypeMismatch));
}

#[test]
fn property_with_a_key_that_is_no_string_is_a_type_mismatch() {
    let schema = parse("properties: [{1: {}}]");
    assert_eq!(deserialize_root(&schema).err(), Some(CompilationError::TypeMismatch));
}

#[test]
fn property_whose_schema_is_no_mapping_is_a_type_mismatch() {
    let schema = parse("properties: [{name: 3}]");
    assert_eq!(deserialize_root(&schema).err(), Some(CompilationError::TypeMismatch));
}

#[test]
fn properties_keep_their_written_order() {
    let schema = parse("properties: [{b: {}}, {a: {}}, {c: {}}]");
    let root = deserialize_root(&schema).unwrap();
    let names: Vec<String> =
        root.schema.children.unwrap().entries.into_iter().map(|entry| entry.name).collect();
    assert_eq!(names, vec!["b".to_string(), "a".to_string(), "c".to_string()]);
}

#[test]
fn untyped_property_is_a_required_object() {
    let schema = parse("properties: [{name: {}}]");
    let root = deserialize_root(&schema).unwrap();
    let children = root.schema.children.unwrap();
    assert_eq!(children.entries.len(), 1);
    assert_eq!(children.entries[0].name, "name");
    assert_eq!(children.entries[0].schema.object_type, ObjectType::Required(RawObjectType::Object));
}

#[test]
fn type_names_are_read_with_their_mark() {
    let cases = [
        ("object", ObjectType::Required(RawObjectType::Object)),
        ("object?", ObjectType::Optional(RawObjectType::Object)),
        ("array", ObjectType::Required(RawObjectType::Array)),
        ("boolean?", ObjectType::Optional(RawObjectType::Boolean)),
        ("integer", ObjectType::Required(RawObjectType::Integer)),
        ("number?", ObjectType::Optional(RawObjectType::Number)),
        ("string", ObjectType::Required(RawObjectType::String(None))),
        ("text?", ObjectType::Optional(RawObjectType::Text(None))),
        ("password", ObjectType::Required(RawObjectType::Password(None))),
    ];
    for (name, expected) in cases {
        let schema = parse(&format!("type: '{}'", name));
        assert_eq!(deserialize_schema(&schema).unwrap().object_type, expected, "{}", name);
    }
}

#[test]
fn unknown_type_name_is_a_deserialization_error() {
    assert_eq!(
        deserialize_schema(&parse("type: colour")).err(),
        Some(CompilationError::DeserializationError)
    );
    assert_eq!(
        deserialize_schema(&parse("type: 3")).err(),
        Some(CompilationError::DeserializationError)
    );
}

#[test]
fn string_limits_are_read_for_string_like_kinds_only() {
    let limited = deserialize_schema(&parse("type: string\nminLength: 2\nmaxLength: 8")).unwrap();
    assert_eq!(
        limited.object_type,
        ObjectType::Required(RawObjectType::String(Some(StringBounds {
            min_length: Some(2),
            max_length: Some(8)
        })))
    );
    let half = deserialize_schema(&parse("type: text?\nmaxLength: 8")).unwrap();
    assert_eq!(
        half.object_type,
        ObjectType::Optional(RawObjectType::Text(Some(StringBounds {
            min_length: None,
            max_length: Some(8)
        })))
    );
    let other = deserialize_schema(&parse("type: integer\nminLength: nothing")).unwrap();
    assert_eq!(other.object_type, ObjectType::Required(RawObjectType::Integer));
    assert_eq!(
        deserialize_schema(&parse("type: string\nminLength: short")).err(),
        Some(CompilationError::DeserializationError)
    );
}

#[test]
fn annotations_are_read_from_the_node() {
    let schema = parse("title: T\nhelp: H\nwarning: W\ndescription: D\nwidget: dropdown\n");
    let node = deserialize_schema(&schema).unwrap();
    assert_eq!(node.annotations.title.as_deref(), Some("T"));
    assert_eq!(node.annotations.help.as_deref(), Some("H"));
    assert_eq!(node.annotations.warning.as_deref(), Some("W"));
    assert_eq!(node.annotations.description.as_deref(), Some("D"));
    assert_eq!(node.annotations.widget, Some(Widget::Dropdown));
}

#[test]
fn null_annotation_is_no_annotation() {
    let node = deserialize_schema(&parse("title: ~\nwidget: ~")).unwrap();
    assert_eq!(node.annotations.title, None);
    assert_eq!(node.annotations.widget, None);
}

#[test]
fn misshapen_annotation_is_a_deserialization_error() {
    for text in ["title: [a]", "help: 3", "warning: {a: b}", "description: true", "widget: slider", "widget: 1"] {
        assert_eq!(
            deserialize_schema(&parse(text)).err(),
            Some(CompilationError::DeserializationError),
            "{}",
            text
        );
    }
}

#[test]
fn text_node_gets_the_text_area_whatever_was_asked() {
    let asked = deserialize_schema(&parse("type: text\nwidget: dropdown")).unwrap();
    assert_eq!(asked.annotations.widget, Some(Widget::Textarea));
    let silent = deserialize_schema(&parse("type: text?")).unwrap();
    assert_eq!(silent.annotations.widget, Some(Widget::Textarea));
    let string = deserialize_schema(&parse("type: string\nwidget: dropdown")).unwrap();
    assert_eq!(string.annotations.widget, Some(Widget::Dropdown));
}

#[test]
fn string_formula_is_kept_as_it_is() {
    let node = deserialize_schema(&parse("formula: \"a + 'b' * 2\"")).unwrap();
    assert_eq!(node.formula.as_deref(), Some("a + 'b' * 2"));
}

#[test]
fn formula_that_is_no_string_becomes_its_json_text() {
    let node = deserialize_schema(&parse("formula: {op: \"sum\"}")).unwrap();
    assert_eq!(node.formula.as_deref(), Some("{\"op\":\"sum\"}"));
    let list = deserialize_schema(&parse("formula: [1, -2, true, ~, 'x']")).unwrap();
    assert_eq!(list.formula.as_deref(), Some("[1,-2,true,null,\"x\"]"));
}

#[test]
fn formula_without_json_text_is_a_serialization_error() {
    assert_eq!(
        deserialize_schema(&parse("formula: {[1, 2]: 3}")).err(),
        Some(CompilationError::SerializationError)
    );
    assert_eq!(
        deserialize_schema(&parse("formula: [{~: 1}]")).err(),
        Some(CompilationError::SerializationError)
    );
}

#[test]
fn absent_formula_is_no_formula() {
    assert_eq!(deserialize_schema(&parse("title: T")).unwrap().formula, None);
}

#[test]
fn keys_and_values_are_read_together() {
    let node = deserialize_schema(&parse("keys: {type: string}\nvalues: {type: integer?}")).unwrap();
    let pair = node.dynamic.unwrap();
    assert_eq!(pair.keys.object_type, ObjectType::Required(RawObjectType::String(None)));
    assert_eq!(pair.values.object_type, ObjectType::Optional(RawObjectType::Integer));
    assert!(deserialize_schema(&parse("title: T")).unwrap().dynamic.is_none());
}

#[test]
fn keys_without_values_are_a_deserialization_error() {
    assert_eq!(
        deserialize_schema(&parse("keys: {type: string}")).err(),
        Some(CompilationError::DeserializationError)
    );
    assert_eq!(
        deserialize_schema(&parse("values: {type: string}")).err(),
        Some(CompilationError::DeserializationError)
    );
}

#[test]
fn failure_in_keys_is_the_failure_of_the_node() {
    assert_eq!(
        deserialize_schema(&parse("keys: 3\nvalues: {}")).err(),
        Some(CompilationError::TypeMismatch)
    );
}

#[test]
fn enumeration_is_read_in_order() {
    let node = deserialize_schema(&parse(
        "type: string?\nenum:\n  - red\n  - {value: green, title: Green, help: go}\n  - {value: blue, type: text}\n",
    ))
    .unwrap();
    let values = node.enumeration.unwrap().possible_values;
    assert_eq!(values.len(), 3);
    assert_eq!(values[0].value.as_deref(), Some("red"));
    assert_eq!(values[0].display_information.title.as_deref(), Some("red"));
    assert_eq!(values[0].type_spec, ObjectType::Required(RawObjectType::String(None)));
    assert_eq!(values[1].value.as_deref(), Some("green"));
    assert_eq!(values[1].display_information.title.as_deref(), Some("Green"));
    assert_eq!(values[1].display_information.help.as_deref(), Some("go"));
    assert_eq!(values[1].type_spec, ObjectType::Optional(RawObjectType::String(None)));
    assert_eq!(values[2].value.as_deref(), Some("blue"));
    assert_eq!(values[2].display_information.title, None);
    assert_eq!(values[2].type_spec, ObjectType::Required(RawObjectType::Text(None)));
}

#[test]
fn misshapen_enumeration_is_a_deserialization_error() {
    for text in ["enum: red", "enum: [3]", "enum: [[a]]", "enum: [{value: 3}]", "enum: [{value: a, title: [x]}]", "enum: [{value: a, type: colour}]"] {
        assert_eq!(
            deserialize_schema(&parse(text)).err(),
            Some(CompilationError::DeserializationError),
            "{}",
            text
        );
    }
}

#[test]
fn nested_failure_is_the_failure_of_the_document() {
    let schema = parse("properties:\n  - a: {}\n  - b:\n      properties:\n        - c: {version: 2}\n");
    assert_eq!(deserialize_root(&schema).err(), Some(CompilationError::UnsupportedVersion));
}

#[test]
fn first_failure_in_reading_order_wins() {
    let schema = parse("version: 2\ntype: colour\nproperties: 3\n");
    assert_eq!(deserialize_root(&schema).err(), Some(CompilationError::UnsupportedVersion));
    let schema = parse("type: colour\nproperties: 3\n");
    assert_eq!(deserialize_root(&schema).err(), Some(CompilationError::DeserializationError));
    let schema = parse("properties: 3\nformula: {~: 1}\n");
    assert_eq!(deserialize_root(&schema).err(), Some(CompilationError::TypeMismatch));
}

#[test]
fn first_entry_under_a_key_is_the_one_read() {
    let schema = Node::Mapping(vec![
        Entry { key: Node::Text("title".to_string()), value: Node::Text("first".to_string()) },
        Entry { key: Node::Text("title".to_string()), value: Node::Text("second".to_string()) },
    ]);
    assert_eq!(deserialize_schema(&schema).unwrap().annotations.title.as_deref(), Some("first"));
}
