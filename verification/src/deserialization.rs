//! Reading a written schema from a document tree.

use crate::annotations::{
    annotations_from_type, text_view, Annotations, AnnotationsModel, DisplayInformation,
    DisplayInformationModel, Widget,
};
use crate::enums::{EnumerationValue, EnumerationValueModel, EnumerationValues};
use crate::error::CompilationError;
use crate::json::{encodable, encode, json_text};
use crate::object_types::{ObjectType, RawObjectType, StringBounds};
use crate::schema::{
    children_view, dynamic_view, enumeration_view, lemma_children_view, view_result,
    DEFAULT_VERSION, DocumentRoot, DocumentRootModel, KeysValues, KeysValuesModel, NamedSchema,
    NamedSchemaModel, Schema, SchemaList, SchemaModel,
};
use crate::tree::{
    find, get, lemma_lookup_insert, lemma_position_from, lemma_position_insert_absent, lookup,
    position, same_text, shifted, Entry, Node, Tree,
};
use vstd::prelude::*;

verus! {

/// What the `version` entry of a node says: nothing where it is absent, the
/// supported version where it names that one, and a failure for any other
/// value.
pub open spec fn parse_version(entries: Seq<(Tree, Tree)>) -> Result<
    Option<u64>,
    CompilationError,
> {
    match lookup(entries, "version"@) {
        None => Ok(None),
        Some(Tree::Unsigned(v)) => if v == DEFAULT_VERSION {
            Ok(Some(v))
        } else {
            Err(CompilationError::UnsupportedVersion)
        },
        Some(_) => Err(CompilationError::UnsupportedVersion),
    }
}

/// The type that a name stands for: the name of a kind, with a question mark
/// behind it where a value need not be given.
pub open spec fn parse_kind_name(name: Seq<char>) -> Option<ObjectType> {
    if name == "object"@ {
        Some(ObjectType::Required(RawObjectType::Object))
    } else if name == "object?"@ {
        Some(ObjectType::Optional(RawObjectType::Object))
    } else if name == "array"@ {
        Some(ObjectType::Required(RawObjectType::Array))
    } else if name == "array?"@ {
        Some(ObjectType::Optional(RawObjectType::Array))
    } else if name == "boolean"@ {
        Some(ObjectType::Required(RawObjectType::Boolean))
    } else if name == "boolean?"@ {
        Some(ObjectType::Optional(RawObjectType::Boolean))
    } else if name == "integer"@ {
        Some(ObjectType::Required(RawObjectType::Integer))
    } else if name == "integer?"@ {
        Some(ObjectType::Optional(RawObjectType::Integer))
    } else if name == "number"@ {
        Some(ObjectType::Required(RawObjectType::Number))
    } else if name == "number?"@ {
        Some(ObjectType::Optional(RawObjectType::Number))
    } else if name == "string"@ {
        Some(ObjectType::Required(RawObjectType::String(None)))
    } else if name == "string?"@ {
        Some(ObjectType::Optional(RawObjectType::String(None)))
    } else if name == "text"@ {
        Some(ObjectType::Required(RawObjectType::Text(None)))
    } else if name == "text?"@ {
        Some(ObjectType::Optional(RawObjectType::Text(None)))
    } else if name == "password"@ {
        Some(ObjectType::Required(RawObjectType::Password(None)))
    } else if name == "password?"@ {
        Some(ObjectType::Optional(RawObjectType::Password(None)))
    } else {
        None
    }
}

/// What a length entry says: nothing where it is absent, the number where it
/// is a non-negative whole number, and a failure otherwise.
pub open spec fn parse_length(entries: Seq<(Tree, Tree)>, key: Seq<char>) -> Result<
    Option<u64>,
    CompilationError,
> {
    match lookup(entries, key) {
        None => Ok(None),
        Some(Tree::Unsigned(n)) => Ok(Some(n)),
        Some(_) => Err(CompilationError::DeserializationError),
    }
}

/// The limits that the entries `minLength` and `maxLength` give.
pub open spec fn parse_bounds(entries: Seq<(Tree, Tree)>) -> Result<
    Option<StringBounds>,
    CompilationError,
> {
    match parse_length(entries, "minLength"@) {
        Err(e) => Err(e),
        Ok(min_length) => match parse_length(entries, "maxLength"@) {
            Err(e) => Err(e),
            Ok(max_length) => if min_length is None && max_length is None {
                Ok(None)
            } else {
                Ok(Some(StringBounds { min_length, max_length }))
            },
        },
    }
}

/// The type of a node: a required object where no `type` entry is written;
/// else the type that the entry names, with the limits of the node where the
/// kind is string-like.
pub open spec fn parse_type(entries: Seq<(Tree, Tree)>) -> Result<ObjectType, CompilationError> {
    match lookup(entries, "type"@) {
        None => Ok(ObjectType::Required(RawObjectType::Object)),
        Some(Tree::Text(name)) => match parse_kind_name(name) {
            None => Err(CompilationError::DeserializationError),
            Some(named) => if named.inner_raw().is_string_like() {
                match parse_bounds(entries) {
                    Err(e) => Err(e),
                    Ok(bounds) => Ok(named.with_raw(named.inner_raw().with_bounds(bounds))),
                }
            } else {
                Ok(named)
            },
        },
        Some(_) => Err(CompilationError::DeserializationError),
    }
}

/// What an optional text entry says: nothing where it is absent or null, the
/// string where it is one, and a failure otherwise.
pub open spec fn parse_text(entries: Seq<(Tree, Tree)>, key: Seq<char>) -> Result<
    Option<Seq<char>>,
    CompilationError,
> {
    match lookup(entries, key) {
        None => Ok(None),
        Some(Tree::Null) => Ok(None),
        Some(Tree::Text(s)) => Ok(Some(s)),
        Some(_) => Err(CompilationError::DeserializationError),
    }
}

/// The widget that a name stands for.
pub open spec fn parse_widget_name(name: Seq<char>) -> Option<Widget> {
    if name == "default"@ {
        Some(Widget::Default)
    } else if name == "textarea"@ {
        Some(Widget::Textarea)
    } else if name == "dropdown"@ {
        Some(Widget::Dropdown)
    } else {
        None
    }
}

/// What the `widget` entry says: nothing where it is absent or null, the
/// widget where it names one, and a failure otherwise.
pub open spec fn parse_widget(entries: Seq<(Tree, Tree)>) -> Result<
    Option<Widget>,
    CompilationError,
> {
    match lookup(entries, "widget"@) {
        None => Ok(None),
        Some(Tree::Null) => Ok(None),
        Some(Tree::Text(name)) => match parse_widget_name(name) {
            Some(widget) => Ok(Some(widget)),
            None => Err(CompilationError::DeserializationError),
        },
        Some(_) => Err(CompilationError::DeserializationError),
    }
}

/// The display metadata that a node's value holds. The value must be a
/// mapping, and each of the five entries must have the shape of its kind.
pub open spec fn parse_annotations(value: Tree) -> Result<AnnotationsModel, CompilationError> {
    match value {
        Tree::Mapping(entries) => {
            let title = parse_text(entries, "title"@);
            let help = parse_text(entries, "help"@);
            let warning = parse_text(entries, "warning"@);
            let description = parse_text(entries, "description"@);
            let widget = parse_widget(entries);
            if title is Ok && help is Ok && warning is Ok && description is Ok && widget is Ok {
                Ok(
                    AnnotationsModel {
                        title: title->Ok_0,
                        help: help->Ok_0,
                        warning: warning->Ok_0,
                        description: description->Ok_0,
                        widget: widget->Ok_0,
                    },
                )
            } else {
                Err(CompilationError::DeserializationError)
            }
        },
        _ => Err(CompilationError::DeserializationError),
    }
}

/// The formula of a node: none where the entry is absent; a string as it is;
/// any other value as its JSON text, and a failure where it has none.
pub open spec fn parse_formula(entries: Seq<(Tree, Tree)>) -> Result<
    Option<Seq<char>>,
    CompilationError,
> {
    match lookup(entries, "formula"@) {
        None => Ok(None),
        Some(Tree::Text(s)) => Ok(Some(s)),
        Some(other) => if encodable(other) {
            Ok(Some(json_text(other)))
        } else {
            Err(CompilationError::SerializationError)
        },
    }
}

/// Reads the `version` entry of a node.
pub fn version(mapping: &Vec<Entry>) -> (r: Result<Option<u64>, CompilationError>)
    ensures
        r == parse_version(Node::view_entries(mapping@)),
{
    match get(mapping, "version") {
        None => Ok(None),
        Some(Node::Unsigned(v)) => {
            if *v != DEFAULT_VERSION {
                return Err(CompilationError::UnsupportedVersion);
            }
            Ok(Some(*v))
        },
        Some(_) => Err(CompilationError::UnsupportedVersion),
    }
}

/// Reads the name of a type.
pub fn kind_from_name(name: &str) -> (r: Option<ObjectType>)
    ensures
        r == parse_kind_name(name@),
{
    if same_text(name, "object") {
        Some(ObjectType::Required(RawObjectType::Object))
    } else if same_text(name, "object?") {
        Some(ObjectType::Optional(RawObjectType::Object))
    } else if same_text(name, "array") {
        Some(ObjectType::Required(RawObjectType::Array))
    } else if same_text(name, "array?") {
        Some(ObjectType::Optional(RawObjectType::Array))
    } else if same_text(name, "boolean") {
        Some(ObjectType::Required(RawObjectType::Boolean))
    } else if same_text(name, "boolean?") {
        Some(ObjectType::Optional(RawObjectType::Boolean))
    } else if same_text(name, "integer") {
        Some(ObjectType::Required(RawObjectType::Integer))
    } else if same_text(name, "integer?") {
        Some(ObjectType::Optional(RawObjectType::Integer))
    } else if same_text(name, "number") {
        Some(ObjectType::Required(RawObjectType::Number))
    } else if same_text(name, "number?") {
        Some(ObjectType::Optional(RawObjectType::Number))
    } else if same_text(name, "string") {
        Some(ObjectType::Required(RawObjectType::String(None)))
    } else if same_text(name, "string?") {
        Some(ObjectType::Optional(RawObjectType::String(None)))
    } else if same_text(name, "text") {
        Some(ObjectType::Required(RawObjectType::Text(None)))
    } else if same_text(name, "text?") {
        Some(ObjectType::Optional(RawObjectType::Text(None)))
    } else if same_text(name, "password") {
        Some(ObjectType::Required(RawObjectType::Password(None)))
    } else if same_text(name, "password?") {
        Some(ObjectType::Optional(RawObjectType::Password(None)))
    } else {
        None
    }
}

/// Reads one length entry of a node.
pub fn length(mapping: &Vec<Entry>, key: &str) -> (r: Result<Option<u64>, CompilationError>)
    ensures
        r == parse_length(Node::view_entries(mapping@), key@),
{
    match get(mapping, key) {
        None => Ok(None),
        Some(Node::Unsigned(n)) => Ok(Some(*n)),
        Some(_) => Err(CompilationError::DeserializationError),
    }
}

/// Reads the limits on the length of a string-like node.
pub fn bounds(mapping: &Vec<Entry>) -> (r: Result<Option<StringBounds>, CompilationError>)
    ensures
        r == parse_bounds(Node::view_entries(mapping@)),
{
    let min_length = match length(mapping, "minLength") {
        Ok(n) => n,
        Err(e) => { return Err(e); },
    };
    let max_length = match length(mapping, "maxLength") {
        Ok(n) => n,
        Err(e) => { return Err(e); },
    };
    if min_length.is_none() && max_length.is_none() {
        Ok(None)
    } else {
        Ok(Some(StringBounds { min_length, max_length }))
    }
}

/// Reads the type of a node. A node without a `type` entry is a required
/// object.
pub fn type_information(mapping: &Vec<Entry>) -> (r: Result<ObjectType, CompilationError>)
    ensures
        r == parse_type(Node::view_entries(mapping@)),
{
    match get(mapping, "type") {
        None => Ok(ObjectType::Required(RawObjectType::Object)),
        Some(Node::Text(name)) => {
            match kind_from_name(name.as_str()) {
                None => Err(CompilationError::DeserializationError),
                Some(named) => {
                    if named.inner_raw().is_string_like() {
                        match bounds(mapping) {
                            Err(e) => Err(e),
                            Ok(limits) => Ok(
                                named.with_raw(named.inner_raw().with_bounds(limits)),
                            ),
                        }
                    } else {
                        Ok(named)
                    }
                },
            }
        },
        Some(_) => Err(CompilationError::DeserializationError),
    }
}

/// Reads one optional text entry of a node.
pub fn optional_text(mapping: &Vec<Entry>, key: &str) -> (r: Result<
    Option<String>,
    CompilationError,
>)
    ensures
        match r {
            Ok(text) => parse_text(Node::view_entries(mapping@), key@) == Ok::<
                Option<Seq<char>>,
                CompilationError,
            >(text_view(text)),
            Err(e) => parse_text(Node::view_entries(mapping@), key@) == Err::<
                Option<Seq<char>>,
                CompilationError,
            >(e),
        },
{
    match get(mapping, key) {
        None => Ok(None),
        Some(Node::Null) => Ok(None),
        Some(Node::Text(s)) => Ok(Some(s.clone())),
        Some(_) => Err(CompilationError::DeserializationError),
    }
}

/// Reads the name of a widget.
pub fn widget_from_name(name: &str) -> (r: Option<Widget>)
    ensures
        r == parse_widget_name(name@),
{
    if same_text(name, "default") {
        Some(Widget::Default)
    } else if same_text(name, "textarea") {
        Some(Widget::Textarea)
    } else if same_text(name, "dropdown") {
        Some(Widget::Dropdown)
    } else {
        None
    }
}

/// Reads the `widget` entry of a node.
pub fn widget(mapping: &Vec<Entry>) -> (r: Result<Option<Widget>, CompilationError>)
    ensures
        r == parse_widget(Node::view_entries(mapping@)),
{
    match get(mapping, "widget") {
        None => Ok(None),
        Some(Node::Null) => Ok(None),
        Some(Node::Text(name)) => match widget_from_name(name.as_str()) {
            Some(found) => Ok(Some(found)),
            None => Err(CompilationError::DeserializationError),
        },
        Some(_) => Err(CompilationError::DeserializationError),
    }
}

/// Reads the display metadata of a node from the node's whole value.
pub fn annotations(value: &Node) -> (r: Result<Annotations, CompilationError>)
    ensures
        view_result(r) == parse_annotations(value@),
{
    match value {
        Node::Mapping(entries) => {
            let title = match optional_text(entries, "title") {
                Ok(text) => text,
                Err(e) => { return Err(e); },
            };
            let help = match optional_text(entries, "help") {
                Ok(text) => text,
                Err(e) => { return Err(e); },
            };
            let warning = match optional_text(entries, "warning") {
                Ok(text) => text,
                Err(e) => { return Err(e); },
            };
            let description = match optional_text(entries, "description") {
                Ok(text) => text,
                Err(e) => { return Err(e); },
            };
            let widget = match widget(entries) {
                Ok(found) => found,
                Err(e) => { return Err(e); },
            };
            Ok(Annotations { title, help, warning, description, widget })
        },
        _ => Err(CompilationError::DeserializationError),
    }
}

/// Reads the formula of a node. A string is kept as it is; any other value is
/// written as JSON text, so that a formula is always a string.
pub fn formula(mapping: &Vec<Entry>) -> (r: Result<Option<String>, CompilationError>)
    ensures
        match r {
            Ok(text) => parse_formula(Node::view_entries(mapping@)) == Ok::<
                Option<Seq<char>>,
                CompilationError,
            >(text_view(text)),
            Err(e) => parse_formula(Node::view_entries(mapping@)) == Err::<
                Option<Seq<char>>,
                CompilationError,
            >(e),
        },
{
    let value = get(mapping, "formula");
    match value {
        None => Ok(None),
        Some(value) => match value {
            Node::Text(string) => Ok(Some(string.clone())),
            _ => {
                match encode(value) {
                    Some(string) => Ok(Some(string)),
                    None => Err(CompilationError::SerializationError),
                }
            },
        },
    }
}

/// The display metadata of one enumeration value.
pub open spec fn parse_display(entries: Seq<(Tree, Tree)>) -> Result<
    DisplayInformationModel,
    CompilationError,
> {
    let title = parse_text(entries, "title"@);
    let help = parse_text(entries, "help"@);
    let warning = parse_text(entries, "warning"@);
    let description = parse_text(entries, "description"@);
    if title is Ok && help is Ok && warning is Ok && description is Ok {
        Ok(
            DisplayInformationModel {
                title: title->Ok_0,
                help: help->Ok_0,
                warning: warning->Ok_0,
                description: description->Ok_0,
            },
        )
    } else {
        Err(CompilationError::DeserializationError)
    }
}

/// One enumeration value. A bare string is the value that the literal stands
/// for. A mapping gives the value and its metadata, and its own type where
/// it has a `type` entry; where it has none the value has the type of the
/// property around it.
pub open spec fn parse_enumeration_value(item: Tree, inherited: ObjectType) -> Result<
    EnumerationValueModel,
    CompilationError,
> {
    match item {
        Tree::Text(literal) => Ok(EnumerationValueModel::from_literal(literal)),
        Tree::Mapping(entries) => match parse_text(entries, "value"@) {
            Err(e) => Err(e),
            Ok(value) => match parse_display(entries) {
                Err(e) => Err(e),
                Ok(display_information) => if lookup(entries, "type"@) is Some {
                    match parse_type(entries) {
                        Err(e) => Err(e),
                        Ok(type_spec) => Ok(
                            EnumerationValueModel { type_spec, display_information, value },
                        ),
                    }
                } else {
                    Ok(
                        EnumerationValueModel {
                            type_spec: inherited,
                            display_information,
                            value,
                        },
                    )
                },
            },
        },
        _ => Err(CompilationError::DeserializationError),
    }
}

/// The first `n` enumeration values of a list, or the first failure among
/// them.
pub open spec fn parse_enumeration_values(
    items: Seq<Tree>,
    n: nat,
    inherited: ObjectType,
) -> Result<Seq<EnumerationValueModel>, CompilationError>
    decreases n,
{
    if n == 0 || n > items.len() {
        Ok(Seq::empty())
    } else {
        match parse_enumeration_values(items, (n - 1) as nat, inherited) {
            Err(e) => Err(e),
            Ok(before) => match parse_enumeration_value(items[n - 1], inherited) {
                Err(e) => Err(e),
                Ok(value) => Ok(before.push(value)),
            },
        }
    }
}

/// The enumeration of a node: none where the `enum` entry is absent, the
/// values of the sequence where it is one, and a failure otherwise.
pub open spec fn parse_enumeration(entries: Seq<(Tree, Tree)>, inherited: ObjectType) -> Result<
    Option<Seq<EnumerationValueModel>>,
    CompilationError,
> {
    match lookup(entries, "enum"@) {
        None => Ok(None),
        Some(Tree::Sequence(items)) => match parse_enumeration_values(
            items,
            items.len(),
            inherited,
        ) {
            Err(e) => Err(e),
            Ok(values) => Ok(Some(values)),
        },
        Some(_) => Err(CompilationError::DeserializationError),
    }
}

/// One declared property: a mapping with a single entry, whose key is the
/// name, a string, and whose value is the schema of the property.
pub open spec fn parse_named(item: Tree) -> Result<NamedSchemaModel, CompilationError>
    decreases item, 0nat,
{
    match item {
        Tree::Mapping(entries) => if entries.len() == 1 {
            match entries[0].0 {
                Tree::Text(name) => match parse_schema(entries[0].1) {
                    Err(e) => Err(e),
                    Ok(schema) => Ok(NamedSchemaModel { name, schema }),
                },
                _ => Err(CompilationError::TypeMismatch),
            }
        } else {
            Err(CompilationError::TypeMismatch)
        },
        _ => Err(CompilationError::TypeMismatch),
    }
}

/// The first `n` declared properties of a list, in the order in which they
/// are written, or the first failure among them.
pub open spec fn parse_children(items: Seq<Tree>, n: nat) -> Result<
    Seq<NamedSchemaModel>,
    CompilationError,
>
    decreases items, n,
{
    if n == 0 || n > items.len() {
        Ok(Seq::empty())
    } else {
        match parse_children(items, (n - 1) as nat) {
            Err(e) => Err(e),
            Ok(before) => match parse_named(items[n - 1]) {
                Err(e) => Err(e),
                Ok(child) => Ok(before.push(child)),
            },
        }
    }
}

/// The declared properties of a node: none where the `properties` entry is
/// absent, the properties of the sequence where it is one, and a failure
/// otherwise.
pub open spec fn parse_properties(entries: Seq<(Tree, Tree)>) -> Result<
    Option<Seq<NamedSchemaModel>>,
    CompilationError,
>
    decreases entries, 0nat,
{
    let p = position(entries, "properties"@);
    if 0 <= p < entries.len() {
        match entries[p].1 {
            Tree::Sequence(items) => match parse_children(items, items.len()) {
                Err(e) => Err(e),
                Ok(children) => Ok(Some(children)),
            },
            _ => Err(CompilationError::TypeMismatch),
        }
    } else {
        Ok(None)
    }
}

/// The schemas of the keys and of the values of a node: none where neither
/// the `keys` nor the `values` entry is written, both schemas where both
/// are, and a failure where only one is.
pub open spec fn parse_dynamic(entries: Seq<(Tree, Tree)>) -> Result<
    Option<Box<KeysValuesModel>>,
    CompilationError,
>
    decreases entries, 0nat,
{
    let k = position(entries, "keys"@);
    let v = position(entries, "values"@);
    if 0 <= k < entries.len() && 0 <= v < entries.len() {
        match parse_schema(entries[k].1) {
            Err(e) => Err(e),
            Ok(keys) => match parse_schema(entries[v].1) {
                Err(e) => Err(e),
                Ok(values) => Ok(Some(Box::new(KeysValuesModel { keys, values }))),
            },
        }
    } else if 0 <= k < entries.len() || 0 <= v < entries.len() {
        Err(CompilationError::DeserializationError)
    } else {
        Ok(None)
    }
}

/// The schema that a tree is the written form of. The parts are read in a
/// fixed order, and the first failure is the result: the version, the type,
/// the display metadata, the declared properties, the schemas of keys and
/// values, the enumeration, the formula.
pub open spec fn parse_schema(value: Tree) -> Result<SchemaModel, CompilationError>
    decreases value, 0nat,
{
    match value {
        Tree::Mapping(entries) => match parse_version(entries) {
            Err(e) => Err(e),
            Ok(_) => match parse_type(entries) {
                Err(e) => Err(e),
                Ok(object_type) => match parse_annotations(value) {
                    Err(e) => Err(e),
                    Ok(annotations) => match parse_properties(entries) {
                        Err(e) => Err(e),
                        Ok(children) => match parse_dynamic(entries) {
                            Err(e) => Err(e),
                            Ok(dynamic) => match parse_enumeration(entries, object_type) {
                                Err(e) => Err(e),
                                Ok(enumeration) => match parse_formula(entries) {
                                    Err(e) => Err(e),
                                    Ok(formula) => Ok(
                                        SchemaModel {
                                            object_type,
                                            children,
                                            dynamic,
                                            enumeration,
                                            annotations: annotations.with_type(object_type),
                                            formula,
                                        },
                                    ),
                                },
                            },
                        },
                    },
                },
            },
        },
        _ => Err(CompilationError::TypeMismatch),
    }
}

/// The document that a tree is the written form of: the schema of the tree,
/// under the supported version.
pub open spec fn parse_root(value: Tree) -> Result<DocumentRootModel, CompilationError> {
    match parse_schema(value) {
        Err(e) => Err(e),
        Ok(schema) => Ok(DocumentRootModel { version: DEFAULT_VERSION, schema }),
    }
}

/// Reads the display metadata of one enumeration value.
pub fn display_information(mapping: &Vec<Entry>) -> (r: Result<
    DisplayInformation,
    CompilationError,
>)
    ensures
        view_result(r) == parse_display(Node::view_entries(mapping@)),
{
    let title = optional_text(mapping, "title")?;
    let help = optional_text(mapping, "help")?;
    let warning = optional_text(mapping, "warning")?;
    let description = optional_text(mapping, "description")?;
    Ok(DisplayInformation { title, help, warning, description })
}

/// Reads one enumeration value, which stands in a property of the type
/// `inherited`.
pub fn enumeration_value(item: &Node, inherited: ObjectType) -> (r: Result<
    EnumerationValue,
    CompilationError,
>)
    ensures
        view_result(r) == parse_enumeration_value(item@, inherited),
{
    match item {
        Node::Text(literal) => Ok(EnumerationValue::from_literal(literal.as_str())),
        Node::Mapping(entries) => {
            let value = optional_text(entries, "value")?;
            let display_information = display_information(entries)?;
            let type_spec = if get(entries, "type").is_some() {
                type_information(entries)?
            } else {
                inherited
            };
            Ok(EnumerationValue { type_spec, display_information, value })
        },
        _ => Err(CompilationError::DeserializationError),
    }
}

/// Reads the enumeration of a node of the type `inherited`.
pub fn enumeration(mapping: &Vec<Entry>, inherited: ObjectType) -> (r: Result<
    Option<EnumerationValues>,
    CompilationError,
>)
    ensures
        match r {
            Ok(values) => parse_enumeration(Node::view_entries(mapping@), inherited) == Ok::<
                Option<Seq<EnumerationValueModel>>,
                CompilationError,
            >(enumeration_view(values)),
            Err(e) => parse_enumeration(Node::view_entries(mapping@), inherited) == Err::<
                Option<Seq<EnumerationValueModel>>,
                CompilationError,
            >(e),
        },
{
    match get(mapping, "enum") {
        None => Ok(None),
        Some(Node::Sequence(items)) => {
            let ghost trees = Node::view_items(items@);
            let mut possible_values: Vec<EnumerationValue> = Vec::new();
            let mut i: usize = 0;
            assert(EnumerationValues::view_values(possible_values@) =~= Seq::empty());
            while i < items.len()
                invariant
                    i <= items.len(),
                    trees == Node::view_items(items@),
                    lookup(Node::view_entries(mapping@), "enum"@) == Some(
                        Tree::Sequence(trees),
                    ),
                    parse_enumeration_values(trees, i as nat, inherited) == Ok::<
                        Seq<EnumerationValueModel>,
                        CompilationError,
                    >(EnumerationValues::view_values(possible_values@)),
                decreases items.len() - i,
            {
                match enumeration_value(&items[i], inherited) {
                    Ok(value) => {
                        let ghost before = EnumerationValues::view_values(possible_values@);
                        possible_values.push(value);
                        assert(trees[i as int] == items@[i as int]@);
                        assert(EnumerationValues::view_values(possible_values@) =~= before.push(
                            value@,
                        ));
                    },
                    Err(e) => {
                        proof {
                            assert(trees[i as int] == items@[i as int]@);
                            assert(parse_enumeration_values(trees, (i + 1) as nat, inherited)
                                == Err::<Seq<EnumerationValueModel>, CompilationError>(e));
                            lemma_enumeration_values_fail(trees, (i + 1) as nat, inherited);
                        }
                        return Err(e);
                    },
                }
                i += 1;
            }
            Ok(Some(EnumerationValues { possible_values }))
        },
        Some(_) => Err(CompilationError::DeserializationError),
    }
}

/// A failure among the first values of a list is the failure of every longer
/// part of the list.
pub proof fn lemma_enumeration_values_fail(items: Seq<Tree>, n: nat, inherited: ObjectType)
    requires
        n <= items.len(),
        parse_enumeration_values(items, n, inherited) is Err,
    ensures
        parse_enumeration_values(items, items.len(), inherited) == parse_enumeration_values(
            items,
            n,
            inherited,
        ),
    decreases items.len() - n,
{
    if n < items.len() {
        lemma_enumeration_values_fail(items, n + 1, inherited);
    }
}

/// A failure among the first properties of a list is the failure of every
/// longer part of the list.
pub proof fn lemma_children_fail(items: Seq<Tree>, n: nat)
    requires
        n <= items.len(),
        parse_children(items, n) is Err,
    ensures
        parse_children(items, items.len()) == parse_children(items, n),
    decreases items.len() - n,
{
    if n < items.len() {
        lemma_children_fail(items, n + 1);
    }
}

/// Reads one declared property from the mapping that holds it.
pub fn mapping_to_named_schema(mapping: &Vec<Entry>) -> (r: Result<NamedSchema, CompilationError>)
    ensures
        view_result(r) == parse_named(Tree::Mapping(Node::view_entries(mapping@))),
    decreases mapping,
{
    if mapping.len() != 1 {
        return Err(CompilationError::TypeMismatch);
    }
    let entry = &mapping[0];
    let key = match &entry.key {
        Node::Text(name) => name.clone(),
        _ => { return Err(CompilationError::TypeMismatch); },
    };
    let value = deserialize_schema(&entry.value)?;
    Ok(NamedSchema { name: key, schema: value })
}

/// Reads the declared properties of a node from the sequence that holds
/// them, keeping their order.
pub fn sequence_to_schema_list(sequence: &Vec<Node>) -> (r: Result<SchemaList, CompilationError>)
    ensures
        view_result(r) == parse_children(Node::view_items(sequence@), sequence@.len()),
    decreases sequence,
{
    let ghost trees = Node::view_items(sequence@);
    let mut list: Vec<NamedSchema> = Vec::new();
    let mut i: usize = 0;
    assert(Schema::view_entries(list@) =~= Seq::empty());
    while i < sequence.len()
        invariant
            i <= sequence.len(),
            trees == Node::view_items(sequence@),
            parse_children(trees, i as nat) == Ok::<Seq<NamedSchemaModel>, CompilationError>(
                Schema::view_entries(list@),
            ),
        decreases sequence.len() - i,
    {
        let item = match &sequence[i] {
            Node::Mapping(mapping) => mapping_to_named_schema(mapping),
            _ => Err(CompilationError::TypeMismatch),
        };
        match item {
            Ok(child) => {
                let ghost before = Schema::view_entries(list@);
                list.push(child);
                assert(trees[i as int] == sequence@[i as int]@);
                assert(Schema::view_entries(list@) =~= before.push(child@));
            },
            Err(e) => {
                proof {
                    assert(trees[i as int] == sequence@[i as int]@);
                    assert(parse_named(trees[i as int]) == Err::<
                        NamedSchemaModel,
                        CompilationError,
                    >(e));
                    assert(parse_children(trees, (i + 1) as nat) == Err::<
                        Seq<NamedSchemaModel>,
                        CompilationError,
                    >(e));
                    lemma_children_fail(trees, (i + 1) as nat);
                }
                return Err(e);
            },
        }
        i += 1;
    }
    Ok(SchemaList { entries: list })
}

/// Reads the declared properties of a node.
pub fn properties(mapping: &Vec<Entry>) -> (r: Result<Option<SchemaList>, CompilationError>)
    ensures
        match r {
            Ok(children) => parse_properties(Node::view_entries(mapping@)) == Ok::<
                Option<Seq<NamedSchemaModel>>,
                CompilationError,
            >(children_view(children)),
            Err(e) => parse_properties(Node::view_entries(mapping@)) == Err::<
                Option<Seq<NamedSchemaModel>>,
                CompilationError,
            >(e),
        },
    decreases mapping,
{
    let place = find(mapping, "properties");
    if place >= mapping.len() {
        return Ok(None);
    }
    match &mapping[place].value {
        Node::Sequence(sequence) => Ok(Some(sequence_to_schema_list(sequence)?)),
        _ => Err(CompilationError::TypeMismatch),
    }
}

/// Reads the schemas of the keys and of the values of a node.
pub fn keys_values(mapping: &Vec<Entry>) -> (r: Result<
    Option<Box<KeysValues>>,
    CompilationError,
>)
    ensures
        match r {
            Ok(dynamic) => parse_dynamic(Node::view_entries(mapping@)) == Ok::<
                Option<Box<KeysValuesModel>>,
                CompilationError,
            >(dynamic_view(dynamic)),
            Err(e) => parse_dynamic(Node::view_entries(mapping@)) == Err::<
                Option<Box<KeysValuesModel>>,
                CompilationError,
            >(e),
        },
    decreases mapping,
{
    let keys_place = find(mapping, "keys");
    let values_place = find(mapping, "values");
    let count = mapping.len();
    if keys_place < count && values_place < count {
        let keys = deserialize_schema(&mapping[keys_place].value)?;
        let values = deserialize_schema(&mapping[values_place].value)?;
        Ok(Some(Box::new(KeysValues { keys, values })))
    } else if keys_place < count || values_place < count {
        Err(CompilationError::DeserializationError)
    } else {
        Ok(None)
    }
}

/// Reads a schema from its written form. The tree must be a mapping; its
/// parts are read in a fixed order and the first failure ends the reading.
/// The display metadata of a text node always names the text area as its
/// widget.
pub fn deserialize_schema(value: &Node) -> (r: Result<Schema, CompilationError>)
    ensures
        view_result(r) == parse_schema(value@),
    decreases value,
{
    let mapping = match value {
        Node::Mapping(entries) => entries,
        _ => { return Err(CompilationError::TypeMismatch); },
    };
    let _ = version(mapping)?;
    let type_information = type_information(mapping)?;
    let annotations = annotations(value)?;
    let annotations = annotations_from_type(annotations, &type_information);
    let properties = properties(mapping)?;
    let dynamic = keys_values(mapping)?;
    let enumeration = enumeration(mapping, type_information)?;
    let formula = formula(mapping)?;
    let schema = Schema {
        object_type: type_information,
        children: properties,
        dynamic,
        enumeration,
        annotations,
        formula,
    };
    proof {
        lemma_children_view(schema);
    }
    Ok(schema)
}

/// Reads a whole document from its written form. A document without a
/// `version` entry has the supported version.
pub fn deserialize_root(schema: &Node) -> (r: Result<DocumentRoot, CompilationError>)
    ensures
        view_result(r) == parse_root(schema@),
{
    let schema = deserialize_schema(schema)?;
    Ok(DocumentRoot { version: DEFAULT_VERSION, schema })
}

/// The key `version` is none of the other keys that a node is read by.
pub proof fn lemma_version_key_is_distinct()
    ensures
        "version"@ != "type"@,
        "version"@ != "minLength"@,
        "version"@ != "maxLength"@,
        "version"@ != "title"@,
        "version"@ != "help"@,
        "version"@ != "warning"@,
        "version"@ != "description"@,
        "version"@ != "widget"@,
        "version"@ != "properties"@,
        "version"@ != "keys"@,
        "version"@ != "values"@,
        "version"@ != "enum"@,
        "version"@ != "formula"@,
{
    reveal_strlit("version");
    reveal_strlit("type");
    reveal_strlit("minLength");
    reveal_strlit("maxLength");
    reveal_strlit("title");
    reveal_strlit("help");
    reveal_strlit("warning");
    reveal_strlit("description");
    reveal_strlit("widget");
    reveal_strlit("properties");
    reveal_strlit("keys");
    reveal_strlit("values");
    reveal_strlit("enum");
    reveal_strlit("formula");
    assert("version"@[0] != "warning"@[0]);
    assert("version"@[0] != "formula"@[0]);
    assert("version"@[1] != "values"@[1]);
}

/// A document without a `version` entry is read as the same document with
/// the supported version written into it, at whatever place: to leave the
/// version out is to name the supported one.
pub proof fn lemma_missing_version_is_default(entries: Seq<(Tree, Tree)>, at: int)
    requires
        0 <= at <= entries.len(),
        lookup(entries, "version"@) is None,
    ensures
        parse_root(
            Tree::Mapping(
                entries.insert(at, (Tree::Text("version"@), Tree::Unsigned(DEFAULT_VERSION))),
            ),
        ) == parse_root(Tree::Mapping(entries)),
{
    let added = (Tree::Text("version"@), Tree::Unsigned(DEFAULT_VERSION));
    let longer = entries.insert(at, added);
    lemma_version_key_is_distinct();
    lemma_position_from(entries, "version"@, 0);
    lemma_position_insert_absent(entries, "version"@, at, Tree::Unsigned(DEFAULT_VERSION), 0);
    assert(longer[at] == added);
    assert(parse_version(longer) is Ok);
    assert(parse_version(entries) is Ok);
    lemma_lookup_insert(entries, "type"@, at, added);
    lemma_lookup_insert(entries, "minLength"@, at, added);
    lemma_lookup_insert(entries, "maxLength"@, at, added);
    lemma_lookup_insert(entries, "title"@, at, added);
    lemma_lookup_insert(entries, "help"@, at, added);
    lemma_lookup_insert(entries, "warning"@, at, added);
    lemma_lookup_insert(entries, "description"@, at, added);
    lemma_lookup_insert(entries, "widget"@, at, added);
    lemma_lookup_insert(entries, "properties"@, at, added);
    lemma_lookup_insert(entries, "keys"@, at, added);
    lemma_lookup_insert(entries, "values"@, at, added);
    lemma_lookup_insert(entries, "enum"@, at, added);
    lemma_lookup_insert(entries, "formula"@, at, added);
    assert(parse_type(longer) == parse_type(entries));
    assert(parse_annotations(Tree::Mapping(longer)) == parse_annotations(Tree::Mapping(entries)));
    assert(parse_properties(longer) == parse_properties(entries)) by {
        let p = position(entries, "properties"@);
        if p < entries.len() {
            assert(longer[shifted(p, at)] == entries[p]);
        }
    }
    assert(parse_dynamic(longer) == parse_dynamic(entries)) by {
        let k = position(entries, "keys"@);
        let v = position(entries, "values"@);
        if k < entries.len() {
            assert(longer[shifted(k, at)] == entries[k]);
        }
        if v < entries.len() {
            assert(longer[shifted(v, at)] == entries[v]);
        }
    }
    assert(parse_formula(longer) == parse_formula(entries));
    assert(forall|t: ObjectType| parse_enumeration(longer, t) == parse_enumeration(entries, t));
}

/// A document whose `version` entry holds anything but the supported
/// version is not read: whatever else it holds, the failure is that the
/// version is not supported.
pub proof fn lemma_other_version_is_unsupported(entries: Seq<(Tree, Tree)>)
    requires
        lookup(entries, "version"@) is Some,
        lookup(entries, "version"@) != Some(Tree::Unsigned(DEFAULT_VERSION)),
    ensures
        parse_root(Tree::Mapping(entries)) == Err::<DocumentRootModel, CompilationError>(
            CompilationError::UnsupportedVersion,
        ),
{
}

/// The declared properties are read in the order in which they are written:
/// the property at a place is the one that the item at that place holds.
pub proof fn lemma_children_keep_order(items: Seq<Tree>, n: nat)
    requires
        n <= items.len(),
        parse_children(items, n) is Ok,
    ensures
        parse_children(items, n)->Ok_0.len() == n,
        forall|i: int|
            0 <= i < n ==> parse_named(#[trigger] items[i]) == Ok::<
                NamedSchemaModel,
                CompilationError,
            >(parse_children(items, n)->Ok_0[i]),
    decreases n,
{
    if n > 0 {
        lemma_children_keep_order(items, (n - 1) as nat);
    }
}

/// A declared property has the name that is the key of the item that holds
/// it.
pub proof fn lemma_named_keeps_name(item: Tree)
    requires
        parse_named(item) is Ok,
    ensures
        item matches Tree::Mapping(entries) && entries.len() == 1 && entries[0].0 == Tree::Text(
            parse_named(item)->Ok_0.name,
        ),
{
}

/// A node that is read without a `type` entry is a required object.
pub proof fn lemma_untyped_node_is_required_object(entries: Seq<(Tree, Tree)>)
    requires
        lookup(entries, "type"@) is None,
        parse_schema(Tree::Mapping(entries)) is Ok,
    ensures
        parse_schema(Tree::Mapping(entries))->Ok_0.object_type == ObjectType::Required(
            RawObjectType::Object,
        ),
{
}

/// A node that is read with the kind text has the text area as its widget,
/// whatever widget is written in it.
pub proof fn lemma_text_node_is_read_with_textarea(value: Tree)
    requires
        parse_schema(value) is Ok,
        parse_schema(value)->Ok_0.object_type.inner_raw() is Text,
    ensures
        parse_schema(value)->Ok_0.annotations.widget == Some(Widget::Textarea),
{
}

} // verus!
