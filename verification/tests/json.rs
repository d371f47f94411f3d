use form_schema::json::{encode, encode_key};
use form_schema::tree::{Entry, Node};

fn node_of(value: &serde_yaml::Value) -> Node {
    match value {
        serde_yaml::Value::Null => Node::Null,
        serde_yaml::Value::Bool(b) => Node::Bool(*b),
        serde_yaml::Value::Number(n) => {
            if let Some(u) = n.as_u64() {
                Node::Unsigned(u)
            } else if let Some(i) = n.as_i64() {
                Node::Negative(i)
            } else {
                match n.as_f64() {
                    Some(f) if f.is_finite() => Node::Real(serde_json::to_string(&f).unwrap()),
                    _ => Node::Null,
                }
            }
        }
        serde_yaml::Value::String(s) => Node::Text(s.clone()),
        serde_yaml::Value::Sequence(items) => Node::Sequence(items.iter().map(node_of).collect()),
        serde_yaml::Value::Mapping(entries) => Node::Mapping(
            entries
                .iter()
                .map(|(key, value)| Entry { key: node_of(key), value: node_of(value) })
                .collect(),
        ),
    }
}

fn parse(text: &str) -> Node {
    let value: serde_yaml::Value = serde_yaml::from_str(text).unwrap();
    node_of(&value)
}

fn text(s: &str) -> Node {
    Node::Text(s.to_string())
}

#[test]
fn scalars_have_their_json_text() {
    assert_eq!(encode(&Node::Null).as_deref(), Some("null"));
    assert_eq!(encode(&Node::Bool(true)).as_deref(), Some("true"));
    assert_eq!(encode(&Node::Bool(false)).as_deref(), Some("false"));
    assert_eq!(encode(&Node::Unsigned(0)).as_deref(), Some("0"));
    assert_eq!(encode(&Node::Unsigned(1205)).as_deref(), Some("1205"));
    assert_eq!(encode(&Node::Unsigned(u64::MAX)).as_deref(), Some("18446744073709551615"));
    assert_eq!(encode(&Node::Negative(-7)).as_deref(), Some("-7"));
    assert_eq!(encode(&Node::Negative(i64::MIN)).as_deref(), Some("-9223372036854775808"));
    assert_eq!(encode(&Node::Real("1.5".to_string())).as_deref(), Some("1.5"));
    assert_eq!(encode(&text("plain")).as_deref(), Some("\"plain\""));
}

#[test]
fn strings_are_written_with_their_escapes() {
    assert_eq!(encode(&text("a\"b")).as_deref(), Some("\"a\\\"b\""));
    assert_eq!(encode(&text("line\nbreak")).as_deref(), Some("\"line\\nbreak\""));
    assert_eq!(encode(&text("back\\slash")).as_deref(), Some("\"back\\\\slash\""));
    assert_eq!(encode(&text("")).as_deref(), Some("\"\""));
    assert_eq!(encode(&text("\u{e9}\u{1F600}")).as_deref(), Some("\"\u{e9}\u{1F600}\""));
}

#[test]
fn sequences_are_written_between_brackets() {
    assert_eq!(encode(&Node::Sequence(vec![])).as_deref(), Some("[]"));
    assert_eq!(encode(&Node::Sequence(vec![Node::Unsigned(1)])).as_deref(), Some("[1]"));
    assert_eq!(
        encode(&Node::Sequence(vec![Node::Unsigned(1), text("a"), Node::Sequence(vec![Node::Null])]))
            .as_deref(),
        Some("[1,\"a\",[null]]")
    );
}

#[test]
fn mappings_are_written_between_braces_in_their_order() {
    assert_eq!(encode(&Node::Mapping(vec![])).as_deref(), Some("{}"));
    let mapping = Node::Mapping(vec![
        Entry { key: text("b"), value: Node::Unsigned(1) },
        Entry { key: text("a"), value: Node::Mapping(vec![Entry { key: text("c"), value: Node::Null }]) },
    ]);
    assert_eq!(encode(&mapping).as_deref(), Some("{\"b\":1,\"a\":{\"c\":null}}"));
}

#[test]
fn scalar_keys_are_written_as_strings() {
    assert_eq!(encode_key(&text("k\"")).as_deref(), Some("\"k\\\"\""));
    assert_eq!(encode_key(&Node::Bool(true)).as_deref(), Some("\"true\""));
    assert_eq!(encode_key(&Node::Unsigned(12)).as_deref(), Some("\"12\""));
    assert_eq!(encode_key(&Node::Negative(-3)).as_deref(), Some("\"-3\""));
    assert_eq!(encode_key(&Node::Real("2.5".to_string())).as_deref(), Some("\"2.5\""));
}

#[test]
fn null_and_containers_are_no_keys() {
    assert_eq!(encode_key(&Node::Null), None);
    assert_eq!(encode_key(&Node::Sequence(vec![])), None);
    assert_eq!(encode_key(&Node::Mapping(vec![])), None);
}

#[test]
fn tree_with_a_key_that_is_none_has_no_json_text() {
    let inner = Node::Mapping(vec![Entry { key: Node::Null, value: Node::Unsigned(1) }]);
    assert_eq!(encode(&inner), None);
    assert_eq!(encode(&Node::Sequence(vec![Node::Unsigned(1), inner])), None);
    let deep = Node::Mapping(vec![Entry {
        key: text("a"),
        value: Node::Mapping(vec![Entry { key: Node::Sequence(vec![]), value: Node::Null }]),
    }]);
    assert_eq!(encode(&deep), None);
}

#[test]
fn json_text_is_the_one_that_the_encoder_of_the_tree_gives() {
    let documents = [
        "a: 1",
        "[1, 2.5, -3, true, ~, 'x\"y']",
        "{a: {b: [1, {c: d}]}, 1: one, true: yes, 2.5: real, -4: minus}",
        "text: \"tab\\there \\u00e9 \\\\ /\"",
        "[]",
        "{}",
        "big: 18446744073709551615",
        "small: -9223372036854775808",
        "real: 1.0e+30",
    ];
    for document in documents {
        let value: serde_yaml::Value = serde_yaml::from_str(document).unwrap();
        let expected = serde_json::to_string(&value).unwrap();
        assert_eq!(encode(&node_of(&value)), Some(expected), "{}", document);
    }
}

#[test]
fn trees_that_the_encoder_refuses_are_refused() {
    for document in ["{~: 1}", "{[1]: 1}", "{{a: b}: 1}", "[{~: 1}]"] {
        let value: serde_yaml::Value = serde_yaml::from_str(document).unwrap();
        assert!(serde_json::to_string(&value).is_err(), "{}", document);
        assert_eq!(encode(&node_of(&value)), None, "{}", document);
    }
}
