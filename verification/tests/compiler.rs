use form_schema::annotations::Widget;
use form_schema::compiler::{compile, compile_to_json};
use form_schema::deserialization::deserialize_root;
use form_schema::error::CompilationError;
use form_schema::object_types::{ObjectType, RawObjectType};
use form_schema::source::SourceSchema;
use form_schema::tree::{Entry, Node};

fn node_of(value: &serde_yaml::Value) -> Node {
    match value {
        serde_yaml::Value::Null => Node::Null,
        serde_yaml::Value::Bool(b) => Node::Bool(*b),
        serde_yaml::Value::Number(n) => {
            if let Some(u) = n.as_u64() {
                Node::Unsigned(u)
            } else if let Some(i) = n.as_i64() {
                Node::Negative(i)
            } else {
                match n.as_f64() {
                    Some(f) if f.is_finite() => Node::Real(serde_json::to_string(&f).unwrap()),
                    _ => Node::Null,
                }
            }
        }
        serde_yaml::Value::String(s) => Node::Text(s.clone()),
        serde_yaml::Value::Sequence(items) => Node::Sequence(items.iter().map(node_of).collect()),
        serde_yaml::Value::Mapping(entries) => Node::Mapping(
            entries
                .iter()
                .map(|(key, value)| Entry { key: node_of(key), value: node_of(value) })
                .collect(),
        ),
    }
}

fn parse(text: &str) -> Node {
    let value: serde_yaml::Value = serde_yaml::from_str(text).unwrap();
    node_of(&value)
}

const HEAD: &str = "{\"$schema\":\"http://json-schema.org/draft-04/schema#\"";

#[test]
fn version_alone_compiles_to_an_object_without_properties() {
    let text = compile_to_json(&parse("version: 1")).unwrap();
    assert_eq!(text, format!("{},\"type\":\"object\"}}", HEAD));
}

#[test]
fn missing_version_compiles_like_version_one() {
    let with = compile_to_json(&parse("version: 1\nproperties: [{a: {type: text}}]")).unwrap();
    let without = compile_to_json(&parse("properties: [{a: {type: text}}]")).unwrap();
    assert_eq!(with, without);
}

#[test]
fn version_two_does_not_compile() {
    assert_eq!(compile(&parse("version: 2")).err(), Some(CompilationError::UnsupportedVersion));
    assert_eq!(
        compile_to_json(&parse("version: 2")).err(),
        Some(CompilationError::UnsupportedVersion)
    );
}

#[test]
fn untyped_property_compiles_to_a_required_object() {
    let document = parse("properties: [{name: {}}]");
    let root = deserialize_root(&document).unwrap();
    let mut compiled = SourceSchema::from_schema(root.schema());
    compiled.normalize();
    let list = compiled.property_list.as_ref().unwrap();
    assert_eq!(list.entries.len(), 1);
    assert_eq!(list.entries[0].name, "name");
    assert_eq!(
        list.entries[0].property.types,
        Some(vec![ObjectType::Required(RawObjectType::Object)])
    );
    assert_eq!(compiled.types, Some(vec![ObjectType::Required(RawObjectType::Object)]));
    let text = compile_to_json(&document).unwrap();
    assert_eq!(
        text,
        format!(
            "{},\"type\":\"object\",\"properties\":{{\"name\":{{\"type\":\"object\"}}}},\"required\":[\"name\"]}}",
            HEAD
        )
    );
}

#[test]
fn compiled_node_has_the_written_type_as_its_only_candidate() {
    let root = deserialize_root(&parse("type: string?\nwidget: dropdown\nformula: f")).unwrap();
    let compiled = SourceSchema::from_schema(root.schema());
    assert_eq!(compiled.types, Some(vec![ObjectType::Optional(RawObjectType::String(None))]));
    assert_eq!(compiled.annotations.widget, Some(Widget::Dropdown));
    assert_eq!(compiled.formula.as_deref(), Some("f"));
    assert!(compiled.property_list.is_none());
}

#[test]
fn property_order_is_kept_to_the_output() {
    let text = compile_to_json(&parse("properties: [{b: {type: integer}}, {a: {type: string?}}]")).unwrap();
    assert_eq!(
        text,
        format!(
            "{},\"type\":\"object\",\"properties\":{{\"b\":{{\"type\":\"integer\"}},\"a\":{{\"type\":\"string\"}}}},\"required\":[\"b\"]}}",
            HEAD
        )
    );
}

#[test]
fn text_property_with_a_dropdown_compiles_to_a_text_area() {
    let text = compile_to_json(&parse("properties: [{notes: {type: text, widget: dropdown}}]")).unwrap();
    assert_eq!(
        text,
        format!(
            "{},\"type\":\"object\",\"properties\":{{\"notes\":{{\"type\":\"string\",\"widget\":\"textarea\"}}}},\"required\":[\"notes\"]}}",
            HEAD
        )
    );
}

#[test]
fn formula_mapping_compiles_to_its_json_text() {
    let output = compile(&parse("formula: {op: \"sum\"}")).unwrap();
    let entries = match output {
        Node::Mapping(entries) => entries,
        other => panic!("not a mapping: {:?}", other),
    };
    assert_eq!(
        entries.last(),
        Some(&Entry {
            key: Node::Text("formula".to_string()),
            value: Node::Text("{\"op\":\"sum\"}".to_string())
        })
    );
    let text = compile_to_json(&parse("formula: {op: \"sum\"}")).unwrap();
    assert_eq!(
        text,
        format!("{},\"type\":\"object\",\"formula\":\"{{\\\"op\\\":\\\"sum\\\"}}\"}}", HEAD)
    );
}

#[test]
fn string_formula_compiles_unchanged() {
    let text = compile_to_json(&parse("formula: a + b")).unwrap();
    assert_eq!(text, format!("{},\"type\":\"object\",\"formula\":\"a + b\"}}", HEAD));
}

#[test]
fn output_begins_with_the_dialect() {
    for document in ["{}", "type: string", "properties: [{a: {}}]", "title: T"] {
        let output = compile(&parse(document)).unwrap();
        match output {
            Node::Mapping(entries) => {
                assert_eq!(entries[0].key, Node::Text("$schema".to_string()));
                assert_eq!(
                    entries[0].value,
                    Node::Text("http://json-schema.org/draft-04/schema#".to_string())
                );
                assert_eq!(entries[1].key, Node::Text("type".to_string()));
            }
            other => panic!("not a mapping: {:?}", other),
        }
        assert!(compile_to_json(&parse(document)).unwrap().starts_with(HEAD));
    }
}

#[test]
fn inconsistent_enumeration_does_not_compile() {
    assert_eq!(
        compile(&parse("type: string\nenum: []")).err(),
        Some(CompilationError::ValidationError)
    );
    assert_eq!(
        compile(&parse("properties: [{colour: {type: string, enum: [red, red]}}]")).err(),
        Some(CompilationError::ValidationError)
    );
    assert_eq!(
        compile(&parse("type: string\nminLength: 5\nmaxLength: 4")).err(),
        Some(CompilationError::ValidationError)
    );
}

#[test]
fn each_stage_fails_with_its_own_error() {
    assert_eq!(compile(&parse("[a]")).err(), Some(CompilationError::TypeMismatch));
    assert_eq!(compile(&parse("version: 3")).err(), Some(CompilationError::UnsupportedVersion));
    assert_eq!(compile(&parse("title: [a]")).err(), Some(CompilationError::DeserializationError));
    assert_eq!(compile(&parse("formula: {~: 1}")).err(), Some(CompilationError::SerializationError));
    assert_eq!(compile(&parse("enum: []")).err(), Some(CompilationError::ValidationError));
}

#[test]
fn whole_document_compiles_to_one_flat_object() {
    let document = parse(
        r#"
version: 1
title: Network
properties:
  - ssid:
      title: Name
      type: string
      minLength: 1
      maxLength: 32
  - security:
      type: string?
      enum:
        - none
        - value: wpa
          title: WPA
  - notes:
      type: text?
      help: Anything
      widget: default
  - hosts:
      keys: {type: string}
      values: {type: integer}
formula: [1, two]
"#,
    );
    let text = compile_to_json(&document).unwrap();
    let expected = [
        "{\"$schema\":\"http://json-schema.org/draft-04/schema#\",",
        "\"type\":\"object\",",
        "\"properties\":{",
        "\"ssid\":{\"type\":\"string\",\"minLength\":1,\"maxLength\":32,\"title\":\"Name\"},",
        "\"security\":{\"type\":\"string\",\"oneOf\":[",
        "{\"type\":\"string\",\"enum\":[\"none\"],\"title\":\"none\"},",
        "{\"type\":\"string\",\"enum\":[\"wpa\"],\"title\":\"WPA\"}]},",
        "\"notes\":{\"type\":\"string\",\"help\":\"Anything\",\"widget\":\"textarea\"},",
        "\"hosts\":{\"type\":\"object\",",
        "\"keys\":{\"type\":\"string\"},\"values\":{\"type\":\"integer\"}}},",
        "\"required\":[\"ssid\",\"hosts\"],",
        "\"title\":\"Network\",",
        "\"formula\":\"[1,\\\"two\\\"]\"}",
    ]
    .join("");
    assert_eq!(text, expected);
    let reread: serde_json::Value = serde_json::from_str(&text).unwrap();
    assert_eq!(reread["properties"]["notes"]["widget"], "textarea");
}
