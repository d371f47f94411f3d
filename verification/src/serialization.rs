//! Writing a compiled schema out as a JSON Schema document tree.

use crate::annotations::{
    text_view, Annotations, AnnotationsModel, DisplayInformation, DisplayInformationModel, Widget,
};
use crate::enums::{EnumerationValue, EnumerationValueModel, EnumerationValues};
use crate::json::encodable;
use crate::normalization::untyped;
use crate::object_types::{ObjectType, RawObjectType};
use crate::schema::enumeration_view;
use crate::source::{
    lemma_property_list_view, types_view, PropertyList, PropertyModel, SourceModel, SourceSchema,
};
use crate::tree::{Entry, Node, Tree};
use vstd::prelude::*;

verus! {

/// The type that a node is written out with: its first candidate type, or a
/// required object where it has none.
pub open spec fn resolved_type(types: Option<Seq<ObjectType>>) -> ObjectType {
    if untyped(types) {
        ObjectType::Required(RawObjectType::Object)
    } else {
        types->0[0]
    }
}

/// The word that the `type` entry of the output holds for a kind.
pub open spec fn kind_word(raw: RawObjectType) -> Seq<char> {
    match raw {
        RawObjectType::Object => "object"@,
        RawObjectType::Array => "array"@,
        RawObjectType::Boolean => "boolean"@,
        RawObjectType::Integer => "integer"@,
        RawObjectType::Number => "number"@,
        RawObjectType::String(_) => "string"@,
        RawObjectType::Text(_) => "string"@,
        RawObjectType::Password(_) => "string"@,
    }
}

/// The word that the `widget` entry of the output holds for a widget.
pub open spec fn widget_word(widget: Widget) -> Seq<char> {
    match widget {
        Widget::Default => "default"@,
        Widget::Textarea => "textarea"@,
        Widget::Dropdown => "dropdown"@,
    }
}

/// One entry of an output object.
pub open spec fn entry(key: Seq<char>, value: Tree) -> Seq<(Tree, Tree)> {
    seq![(Tree::Text(key), value)]
}

/// The entry of an optional text: none where the text is absent.
pub open spec fn text_entry(key: Seq<char>, value: Option<Seq<char>>) -> Seq<(Tree, Tree)> {
    match value {
        Some(text) => entry(key, Tree::Text(text)),
        None => Seq::empty(),
    }
}

/// The entry of an optional number: none where the number is absent.
pub open spec fn number_entry(key: Seq<char>, value: Option<u64>) -> Seq<(Tree, Tree)> {
    match value {
        Some(n) => entry(key, Tree::Unsigned(n)),
        None => Seq::empty(),
    }
}

/// The entries that give the limits of a kind.
pub open spec fn bounds_entries(raw: RawObjectType) -> Seq<(Tree, Tree)> {
    match raw.bounds() {
        Some(limits) => number_entry("minLength"@, limits.min_length) + number_entry(
            "maxLength"@,
            limits.max_length,
        ),
        None => Seq::empty(),
    }
}

/// The name of the widget that a node of a type is written out with.
pub open spec fn widget_text(annotations: AnnotationsModel, object_type: ObjectType) -> Option<
    Seq<char>,
> {
    match annotations.widget_for(object_type) {
        Some(widget) => Some(widget_word(widget)),
        None => None,
    }
}

/// The entries that give the display metadata of a node of a type. The
/// widget of a text node is always the text area.
pub open spec fn annotation_entries(annotations: AnnotationsModel, object_type: ObjectType) -> Seq<
    (Tree, Tree),
> {
    text_entry("title"@, annotations.title) + text_entry("help"@, annotations.help) + text_entry(
        "warning"@,
        annotations.warning,
    ) + text_entry("description"@, annotations.description) + text_entry(
        "widget"@,
        widget_text(annotations, object_type),
    )
}

/// The entries that give the display metadata of an enumeration value.
pub open spec fn display_entries(display: DisplayInformationModel) -> Seq<(Tree, Tree)> {
    text_entry("title"@, display.title) + text_entry("help"@, display.help) + text_entry(
        "warning"@,
        display.warning,
    ) + text_entry("description"@, display.description)
}

/// The literal of an enumeration value: its string, or null where none is
/// given.
pub open spec fn literal_tree(value: Option<Seq<char>>) -> Tree {
    match value {
        Some(text) => Tree::Text(text),
        None => Tree::Null,
    }
}

/// The output object of one enumeration value.
pub open spec fn enumeration_value_tree(value: EnumerationValueModel) -> Tree {
    Tree::Mapping(
        entry("type"@, Tree::Text(kind_word(value.type_spec.inner_raw()))) + entry(
            "enum"@,
            Tree::Sequence(seq![literal_tree(value.value)]),
        ) + display_entries(value.display_information),
    )
}

/// The output objects of the values of an enumeration, in their order.
pub open spec fn enumeration_trees(values: Seq<EnumerationValueModel>) -> Seq<Tree> {
    Seq::new(values.len(), |i: int| enumeration_value_tree(values[i]))
}

/// The entry that gives the enumeration of a node: none where the node has
/// no enumeration.
pub open spec fn enumeration_entries(enumeration: Option<Seq<EnumerationValueModel>>) -> Seq<
    (Tree, Tree),
> {
    match enumeration {
        Some(values) => entry("oneOf"@, Tree::Sequence(enumeration_trees(values))),
        None => Seq::empty(),
    }
}

/// The names of those among the first `n` properties of a list whose value
/// must be given, in their order.
pub open spec fn required_names(list: Seq<PropertyModel>, n: nat) -> Seq<Tree>
    decreases n,
{
    if n == 0 || n > list.len() {
        Seq::empty()
    } else if resolved_type(list[n - 1].property.types).is_required() {
        required_names(list, (n - 1) as nat).push(Tree::Text(list[n - 1].name))
    } else {
        required_names(list, (n - 1) as nat)
    }
}

/// The entry that lists the properties whose value must be given: none where
/// there is no such property.
pub open spec fn required_entries(list: Seq<PropertyModel>) -> Seq<(Tree, Tree)> {
    if required_names(list, list.len()).len() > 0 {
        entry("required"@, Tree::Sequence(required_names(list, list.len())))
    } else {
        Seq::empty()
    }
}

/// The entries of the output object of a node, in the order in which they
/// are written: the type, the properties and the list of the required ones,
/// the limits, the enumeration, the display metadata, the schemas of keys
/// and values, the formula.
pub open spec fn serialized(schema: SourceModel) -> Seq<(Tree, Tree)>
    decreases schema, 0nat,
{
    let resolved = resolved_type(schema.types);
    entry("type"@, Tree::Text(kind_word(resolved.inner_raw()))) + (match schema.property_list {
        Some(list) => entry("properties"@, Tree::Mapping(serialized_properties(list, list.len())))
            + required_entries(list),
        None => Seq::empty(),
    }) + bounds_entries(resolved.inner_raw()) + enumeration_entries(schema.enumeration)
        + annotation_entries(schema.annotations, resolved) + (match schema.dynamic {
        Some(pair) => entry("keys"@, Tree::Mapping(serialized(pair.keys))) + entry(
            "values"@,
            Tree::Mapping(serialized(pair.values)),
        ),
        None => Seq::empty(),
    }) + text_entry("formula"@, schema.formula)
}

/// The entries of the `properties` object for the first `n` properties of a
/// list: one entry for each property, under its name, in the order of the
/// list.
pub open spec fn serialized_properties(list: Seq<PropertyModel>, n: nat) -> Seq<(Tree, Tree)>
    decreases list, n,
{
    if n == 0 || n > list.len() {
        Seq::empty()
    } else {
        serialized_properties(list, (n - 1) as nat).push(
            (Tree::Text(list[n - 1].name), Tree::Mapping(serialized(list[n - 1].property))),
        )
    }
}

/// The output document of a root node under a dialect: one flat object whose
/// first entry names the dialect and whose other entries are those of the
/// root node.
pub open spec fn serialized_document(schema_url: Seq<char>, root: SourceModel) -> Tree {
    Tree::Mapping(entry("$schema"@, Tree::Text(schema_url)) + serialized(root))
}

/// The dialect that the output is written in.
pub open spec fn schema_url() -> Seq<char> {
    "http://json-schema.org/draft-04/schema#"@
}

/// Appends one entry to an output object.
pub fn push_entry(out: &mut Vec<Entry>, key: &str, value: Node)
    ensures
        Node::view_entries(final(out)@) == Node::view_entries(old(out)@) + entry(key@, value@),
{
    let ghost before = Node::view_entries(out@);
    out.push(Entry { key: Node::Text(key.to_owned()), value });
    assert(Node::view_entries(out@) =~= before + entry(key@, value@));
}

/// Appends the entry of an optional text to an output object.
pub fn push_text(out: &mut Vec<Entry>, key: &str, value: &Option<String>)
    ensures
        Node::view_entries(final(out)@) == Node::view_entries(old(out)@) + text_entry(
            key@,
            text_view(*value),
        ),
{
    let ghost before = Node::view_entries(out@);
    match value {
        Some(text) => push_entry(out, key, Node::Text(text.clone())),
        None => {
            assert(before + Seq::<(Tree, Tree)>::empty() =~= before);
        },
    }
}

/// Appends the entry of an optional number to an output object.
pub fn push_number(out: &mut Vec<Entry>, key: &str, value: Option<u64>)
    ensures
        Node::view_entries(final(out)@) == Node::view_entries(old(out)@) + number_entry(
            key@,
            value,
        ),
{
    let ghost before = Node::view_entries(out@);
    match value {
        Some(n) => push_entry(out, key, Node::Unsigned(n)),
        None => {
            assert(before + Seq::<(Tree, Tree)>::empty() =~= before);
        },
    }
}

/// The word that the output holds for a kind.
pub fn kind_text(raw: RawObjectType) -> (r: String)
    ensures
        r@ == kind_word(raw),
{
    match raw {
        RawObjectType::Object => "object".to_owned(),
        RawObjectType::Array => "array".to_owned(),
        RawObjectType::Boolean => "boolean".to_owned(),
        RawObjectType::Integer => "integer".to_owned(),
        RawObjectType::Number => "number".to_owned(),
        RawObjectType::String(_) => "string".to_owned(),
        RawObjectType::Text(_) => "string".to_owned(),
        RawObjectType::Password(_) => "string".to_owned(),
    }
}

/// The word that the output holds for a widget.
pub fn widget_text_of(widget: Widget) -> (r: String)
    ensures
        r@ == widget_word(widget),
{
    match widget {
        Widget::Default => "default".to_owned(),
        Widget::Textarea => "textarea".to_owned(),
        Widget::Dropdown => "dropdown".to_owned(),
    }
}

/// The type that a node is written out with.
pub fn resolve_type(types: &Option<Vec<ObjectType>>) -> (r: ObjectType)
    ensures
        r == resolved_type(types_view(*types)),
{
    match types {
        Some(list) => {
            if list.len() == 0 {
                ObjectType::Required(RawObjectType::Object)
            } else {
                list[0]
            }
        },
        None => ObjectType::Required(RawObjectType::Object),
    }
}

/// Appends the limits of a kind to an output object.
pub fn serialize_bounds(raw: RawObjectType, out: &mut Vec<Entry>)
    ensures
        Node::view_entries(final(out)@) == Node::view_entries(old(out)@) + bounds_entries(raw),
{
    let ghost before = Node::view_entries(out@);
    match raw.bounds() {
        Some(limits) => {
            push_number(out, "minLength", limits.min_length);
            push_number(out, "maxLength", limits.max_length);
            assert(Node::view_entries(out@) =~= before + bounds_entries(raw));
        },
        None => {
            assert(before + Seq::<(Tree, Tree)>::empty() =~= before);
        },
    }
}

/// Appends the display metadata of a node of a type to an output object.
/// A text node is written out with the text area as its widget, whatever
/// widget its metadata names.
pub fn serialize_annotations(annotations: &Annotations, object_type: ObjectType, out: &mut Vec<Entry>)
    ensures
        Node::view_entries(final(out)@) == Node::view_entries(old(out)@) + annotation_entries(
            annotations@,
            object_type,
        ),
{
    let ghost before = Node::view_entries(out@);
    push_text(out, "title", &annotations.title);
    push_text(out, "help", &annotations.help);
    push_text(out, "warning", &annotations.warning);
    push_text(out, "description", &annotations.description);
    let chosen = match object_type.inner_raw() {
        RawObjectType::Text(_) => Some(Widget::Textarea),
        _ => annotations.widget,
    };
    let widget = match chosen {
        Some(found) => Some(widget_text_of(found)),
        None => None,
    };
    push_text(out, "widget", &widget);
    assert(Node::view_entries(out@) =~= before + annotation_entries(annotations@, object_type));
}

/// Appends the display metadata of an enumeration value to an output
/// object.
pub fn serialize_display(display: &DisplayInformation, out: &mut Vec<Entry>)
    ensures
        Node::view_entries(final(out)@) == Node::view_entries(old(out)@) + display_entries(
            display@,
        ),
{
    let ghost before = Node::view_entries(out@);
    push_text(out, "title", &display.title);
    push_text(out, "help", &display.help);
    push_text(out, "warning", &display.warning);
    push_text(out, "description", &display.description);
    assert(Node::view_entries(out@) =~= before + display_entries(display@));
}

/// Writes the output object of one enumeration value.
pub fn serialize_enumeration_value(value: &EnumerationValue) -> (r: Node)
    ensures
        r@ == enumeration_value_tree(value@),
{
    let mut out: Vec<Entry> = Vec::new();
    assert(Node::view_entries(out@) =~= Seq::empty());
    push_entry(&mut out, "type", Node::Text(kind_text(value.type_spec.inner_raw())));
    let literal = match &value.value {
        Some(text) => Node::Text(text.clone()),
        None => Node::Null,
    };
    let mut literals: Vec<Node> = Vec::new();
    literals.push(literal);
    assert(Node::view_items(literals@) =~= seq![literal_tree(text_view(value.value))]);
    push_entry(&mut out, "enum", Node::Sequence(literals));
    serialize_display(&value.display_information, &mut out);
    assert(Node::view_entries(out@) =~= enumeration_value_tree(value@)->Mapping_0);
    Node::Mapping(out)
}

/// Appends the enumeration of a node to an output object.
pub fn serialize_enumeration(enumeration: &Option<EnumerationValues>, out: &mut Vec<Entry>)
    ensures
        Node::view_entries(final(out)@) == Node::view_entries(old(out)@) + enumeration_entries(
            enumeration_view(*enumeration),
        ),
{
    let ghost before = Node::view_entries(out@);
    match enumeration {
        Some(values) => {
            let list = &values.possible_values;
            let mut trees: Vec<Node> = Vec::new();
            let mut i: usize = 0;
            while i < list.len()
                invariant
                    i <= list.len(),
                    trees@.len() == i,
                    forall|j: int|
                        0 <= j < i ==> (#[trigger] trees@[j])@ == enumeration_value_tree(
                            list@[j]@,
                        ),
                decreases list.len() - i,
            {
                trees.push(serialize_enumeration_value(&list[i]));
                i += 1;
            }
            assert(Node::view_items(trees@) =~= enumeration_trees(values@));
            push_entry(out, "oneOf", Node::Sequence(trees));
        },
        None => {
            assert(before + Seq::<(Tree, Tree)>::empty() =~= before);
        },
    }
}

/// Appends the list of the properties whose value must be given to an
/// output object.
pub fn serialize_required(list: &PropertyList, out: &mut Vec<Entry>)
    ensures
        Node::view_entries(final(out)@) == Node::view_entries(old(out)@) + required_entries(
            list@,
        ),
{
    let ghost before = Node::view_entries(out@);
    let ghost models = list@;
    let mut names: Vec<Node> = Vec::new();
    assert(Node::view_items(names@) =~= Seq::empty());
    let mut i: usize = 0;
    while i < list.entries.len()
        invariant
            i <= list.entries.len(),
            models == list@,
            Node::view_items(names@) == required_names(models, i as nat),
        decreases list.entries.len() - i,
    {
        let property = &list.entries[i];
        assert(models[i as int] == property@);
        if resolve_type(&property.property.types).is_required() {
            let ghost earlier = Node::view_items(names@);
            names.push(Node::Text(property.name.clone()));
            assert(Node::view_items(names@) =~= earlier.push(Tree::Text(property.name@)));
        }
        i += 1;
    }
    if names.len() > 0 {
        push_entry(out, "required", Node::Sequence(names));
    } else {
        assert(before + Seq::<(Tree, Tree)>::empty() =~= before);
    }
}

/// Concatenation of entry lists can be regrouped.
pub proof fn lemma_regroup(a: Seq<(Tree, Tree)>, b: Seq<(Tree, Tree)>, c: Seq<(Tree, Tree)>)
    ensures
        (a + b) + c == a + (b + c),
{
    assert((a + b) + c =~= a + (b + c));
}

/// The part of a node's entries that its properties give.
pub open spec fn properties_part(list: Option<Seq<PropertyModel>>) -> Seq<(Tree, Tree)> {
    match list {
        Some(list) => entry("properties"@, Tree::Mapping(serialized_properties(list, list.len())))
            + required_entries(list),
        None => Seq::empty(),
    }
}

/// The part of a node's entries that its schemas of keys and values give.
pub open spec fn dynamic_part(schema: SourceModel) -> Seq<(Tree, Tree)> {
    match schema.dynamic {
        Some(pair) => entry("keys"@, Tree::Mapping(serialized(pair.keys))) + entry(
            "values"@,
            Tree::Mapping(serialized(pair.values)),
        ),
        None => Seq::empty(),
    }
}

/// Appends the properties of a node, and the list of the required ones, to
/// an output object.
pub fn serialize_properties(schema: &SourceSchema, out: &mut Vec<Entry>)
    ensures
        Node::view_entries(final(out)@) == Node::view_entries(old(out)@) + properties_part(
            schema@.property_list,
        ),
    decreases schema, 0nat,
{
    let ghost before = Node::view_entries(out@);
    proof {
        lemma_property_list_view(*schema);
    }
    match &schema.property_list {
        Some(list) => {
            let ghost models = list@;
            let mut properties: Vec<Entry> = Vec::new();
            assert(Node::view_entries(properties@) =~= Seq::empty());
            let mut i: usize = 0;
            while i < list.entries.len()
                invariant
                    i <= list.entries.len(),
                    models == list@,
                    schema.property_list == Some(*list),
                    Node::view_entries(properties@) == serialized_properties(models, i as nat),
                decreases list.entries.len() - i,
            {
                let property = &list.entries[i];
                assert(models[i as int] == property@);
                assert(decreases_to!(schema => property.property)) by {
                    let l = schema.property_list->0;
                    assert(decreases_to!(schema => l));
                    assert(decreases_to!(l => l.entries));
                    assert(decreases_to!(l.entries => l.entries@[i as int]));
                    assert(decreases_to!(l.entries@[i as int] => property.property));
                }
                let nested = serialize_node(&property.property);
                let ghost earlier = Node::view_entries(properties@);
                properties.push(Entry { key: Node::Text(property.name.clone()), value: nested });
                assert(Node::view_entries(properties@) =~= earlier.push(
                    (Tree::Text(property.name@), Tree::Mapping(serialized(property.property@))),
                ));
                i += 1;
            }
            push_entry(out, "properties", Node::Mapping(properties));
            serialize_required(list, out);
            proof {
                lemma_regroup(
                    before,
                    entry("properties"@, Tree::Mapping(serialized_properties(models, models.len()))),
                    required_entries(models),
                );
            }
        },
        None => {
            assert(before + Seq::<(Tree, Tree)>::empty() =~= before);
        },
    }
}

/// Appends the schemas of keys and values of a node to an output object.
pub fn serialize_dynamic(schema: &SourceSchema, out: &mut Vec<Entry>)
    ensures
        Node::view_entries(final(out)@) == Node::view_entries(old(out)@) + dynamic_part(schema@),
    decreases schema, 0nat,
{
    let ghost before = Node::view_entries(out@);
    match &schema.dynamic {
        Some(pair) => {
            let keys = serialize_node(&pair.keys);
            push_entry(out, "keys", keys);
            let values = serialize_node(&pair.values);
            push_entry(out, "values", values);
            proof {
                lemma_regroup(
                    before,
                    entry("keys"@, Tree::Mapping(serialized(pair.keys@))),
                    entry("values"@, Tree::Mapping(serialized(pair.values@))),
                );
            }
        },
        None => {
            assert(before + Seq::<(Tree, Tree)>::empty() =~= before);
        },
    }
}

/// Writes the output object of a node.
pub fn serialize_node(schema: &SourceSchema) -> (r: Node)
    ensures
        r@ == Tree::Mapping(serialized(schema@)),
    decreases schema, 2nat,
{
    let mut out: Vec<Entry> = Vec::new();
    assert(Node::view_entries(out@) =~= Seq::empty());
    serialize_schema(schema, &mut out);
    assert(Node::view_entries(out@) =~= serialized(schema@));
    Node::Mapping(out)
}

/// Appends the entries of a node to an output object: the node's own
/// entries, and below them those of its properties, in their order.
pub fn serialize_schema(schema: &SourceSchema, out: &mut Vec<Entry>)
    ensures
        Node::view_entries(final(out)@) == Node::view_entries(old(out)@) + serialized(schema@),
    decreases schema, 1nat,
{
    let ghost before = Node::view_entries(out@);
    let ghost model = schema@;
    let resolved = resolve_type(&schema.types);
    let ghost s1 = entry("type"@, Tree::Text(kind_word(resolved.inner_raw())));
    let ghost s2 = s1 + properties_part(model.property_list);
    let ghost s3 = s2 + bounds_entries(resolved.inner_raw());
    let ghost s4 = s3 + enumeration_entries(model.enumeration);
    let ghost s5 = s4 + annotation_entries(model.annotations, resolved);
    let ghost s6 = s5 + dynamic_part(model);
    let ghost s7 = s6 + text_entry("formula"@, model.formula);
    assert(s7 == serialized(model));
    push_entry(out, "type", Node::Text(kind_text(resolved.inner_raw())));
    serialize_properties(schema, out);
    proof {
        lemma_regroup(before, s1, properties_part(model.property_list));
    }
    serialize_bounds(resolved.inner_raw(), out);
    proof {
        lemma_regroup(before, s2, bounds_entries(resolved.inner_raw()));
    }
    serialize_enumeration(&schema.enumeration, out);
    proof {
        lemma_regroup(before, s3, enumeration_entries(model.enumeration));
    }
    serialize_annotations(&schema.annotations, resolved, out);
    proof {
        lemma_regroup(before, s4, annotation_entries(model.annotations, resolved));
    }
    serialize_dynamic(schema, out);
    proof {
        lemma_regroup(before, s5, dynamic_part(model));
    }
    push_text(out, "formula", &schema.formula);
    proof {
        lemma_regroup(before, s6, text_entry("formula"@, model.formula));
    }
}

/// A compiled document together with the dialect that it is written out in.
#[derive(Debug, PartialEq, Eq)]
pub struct JsonSchema {
    pub root: SourceSchema,
    pub schema_url: String,
}

impl vstd::std_specs::convert::FromSpecImpl<SourceSchema> for JsonSchema {
    /// The conversion is stated by the `ensures` of `from`.
    open spec fn obeys_from_spec() -> bool {
        false
    }

    open spec fn from_spec(root: SourceSchema) -> JsonSchema {
        arbitrary()
    }
}

impl From<SourceSchema> for JsonSchema {
    /// Wraps a compiled document for output in the one supported dialect.
    fn from(root: SourceSchema) -> (r: JsonSchema)
        ensures
            r.root == root,
            r.schema_url@ == schema_url(),
    {
        JsonSchema { root, schema_url: "http://json-schema.org/draft-04/schema#".to_owned() }
    }
}

impl JsonSchema {
    /// Writes the document out: one flat object whose first entry names the
    /// dialect and whose other entries are those of the root node.
    pub fn serialize(&self) -> (r: Node)
        ensures
            r@ == serialized_document(self.schema_url@, self.root@),
    {
        let mut map: Vec<Entry> = Vec::new();
        assert(Node::view_entries(map@) =~= Seq::empty());
        push_entry(&mut map, "$schema", Node::Text(self.schema_url.clone()));
        serialize_schema(&self.root, &mut map);
        assert(Node::view_entries(map@) =~= entry("$schema"@, Tree::Text(self.schema_url@))
            + serialized(self.root@));
        Node::Mapping(map)
    }
}

/// The `properties` object holds one entry for each property, under the
/// property's name, in the order of the properties.
pub proof fn lemma_serialized_properties_keep_order(list: Seq<PropertyModel>, n: nat)
    requires
        n <= list.len(),
    ensures
        serialized_properties(list, n).len() == n,
        forall|i: int|
            0 <= i < n ==> (#[trigger] serialized_properties(list, n)[i]) == (
                Tree::Text(list[i].name),
                Tree::Mapping(serialized(list[i].property)),
            ),
    decreases n,
{
    if n > 0 {
        lemma_serialized_properties_keep_order(list, (n - 1) as nat);
    }
}

/// The output object of a node begins with its type, and where the node
/// declares properties the `properties` object follows at once.
pub proof fn lemma_serialized_begins(schema: SourceModel)
    ensures
        serialized(schema).len() >= 1,
        serialized(schema)[0] == (
            Tree::Text("type"@),
            Tree::Text(kind_word(resolved_type(schema.types).inner_raw())),
        ),
        schema.property_list matches Some(list) ==> serialized(schema).len() >= 2 && serialized(
            schema,
        )[1] == (
            Tree::Text("properties"@),
            Tree::Mapping(serialized_properties(list, list.len())),
        ),
{
}

/// The output document is one flat object: its first entry names the
/// dialect, and the entries of the root node follow in the same object.
pub proof fn lemma_document_is_flat(url: Seq<char>, root: SourceModel)
    ensures
        serialized_document(url, root) matches Tree::Mapping(entries) && entries.len() == 1
            + serialized(root).len() && entries[0] == (Tree::Text("$schema"@), Tree::Text(url))
            && entries.subrange(1, entries.len() as int) == serialized(root),
{
    let entries = entry("$schema"@, Tree::Text(url)) + serialized(root);
    assert(entries.subrange(1, entries.len() as int) =~= serialized(root));
}

/// A node whose kind is text is written out with the text area as its
/// widget, whatever widget its metadata names.
pub proof fn lemma_text_node_has_textarea(schema: SourceModel)
    requires
        resolved_type(schema.types).inner_raw() is Text,
    ensures
        widget_text(schema.annotations, resolved_type(schema.types)) == Some("textarea"@),
        serialized(schema).contains((Tree::Text("widget"@), Tree::Text("textarea"@))),
        forall|widget: Option<Widget>|
            serialized(SourceModel {
                annotations: AnnotationsModel { widget, ..schema.annotations },
                ..schema
            }) == serialized(schema),
{
    let resolved = resolved_type(schema.types);
    let pair = (Tree::Text("widget"@), Tree::Text("textarea"@));
    let metadata = annotation_entries(schema.annotations, resolved);
    assert(metadata[metadata.len() - 1] == pair);
    let s1 = entry("type"@, Tree::Text(kind_word(resolved.inner_raw())));
    let s2 = s1 + properties_part(schema.property_list);
    let s3 = s2 + bounds_entries(resolved.inner_raw());
    let s4 = s3 + enumeration_entries(schema.enumeration);
    let s5 = s4 + metadata;
    let s6 = s5 + dynamic_part(schema);
    let s7 = s6 + text_entry("formula"@, schema.formula);
    assert(s7 == serialized(schema));
    assert(s7[s4.len() + metadata.len() - 1] == pair);
}

/// A node that has a formula is written out with the formula, as it is, in
/// the last entry of its object.
pub proof fn lemma_formula_is_written_last(schema: SourceModel)
    requires
        schema.formula is Some,
    ensures
        serialized(schema).last() == (Tree::Text("formula"@), Tree::Text(schema.formula->0)),
{
}

/// Whether every entry of an output object stands under a string and holds
/// a value that has a JSON text.
pub open spec fn plain_entries(entries: Seq<(Tree, Tree)>) -> bool {
    forall|i: int|
        0 <= i < entries.len() ==> (#[trigger] entries[i]).0 is Text && encodable(entries[i].1)
}

/// Two lists of plain entries, one after the other, are a list of plain
/// entries.
pub proof fn lemma_plain_concat(a: Seq<(Tree, Tree)>, b: Seq<(Tree, Tree)>)
    requires
        plain_entries(a),
        plain_entries(b),
    ensures
        plain_entries(a + b),
{
    assert forall|i: int| 0 <= i < (a + b).len() implies (#[trigger] (a + b)[i]).0 is Text
        && encodable((a + b)[i].1) by {
        if i < a.len() {
            assert((a + b)[i] == a[i]);
        } else {
            assert((a + b)[i] == b[i - a.len()]);
        }
    }
}

/// An object of plain entries has a JSON text.
pub proof fn lemma_plain_object(entries: Seq<(Tree, Tree)>)
    requires
        plain_entries(entries),
    ensures
        encodable(Tree::Mapping(entries)),
{
    assert(Tree::Mapping(entries)->Mapping_0 == entries);
}

/// A list of trees that all have a JSON text has one.
pub proof fn lemma_plain_list(items: Seq<Tree>)
    requires
        forall|i: int| 0 <= i < items.len() ==> encodable(#[trigger] items[i]),
    ensures
        encodable(Tree::Sequence(items)),
{
    assert(Tree::Sequence(items)->Sequence_0 == items);
}

/// The names of the required properties are strings.
pub proof fn lemma_required_names_are_text(list: Seq<PropertyModel>, n: nat)
    ensures
        forall|i: int|
            0 <= i < required_names(list, n).len() ==> (#[trigger] required_names(list, n)[i])
                is Text,
    decreases n,
{
    if n > 0 && n <= list.len() {
        lemma_required_names_are_text(list, (n - 1) as nat);
    }
}

/// The entries that are written for display metadata, limits and an
/// enumeration are plain.
pub proof fn lemma_leaf_entries_are_plain(schema: SourceModel)
    ensures
        plain_entries(bounds_entries(resolved_type(schema.types).inner_raw())),
        plain_entries(enumeration_entries(schema.enumeration)),
        plain_entries(annotation_entries(schema.annotations, resolved_type(schema.types))),
        plain_entries(text_entry("formula"@, schema.formula)),
{
    match schema.enumeration {
        Some(values) => {
            let trees = enumeration_trees(values);
            assert forall|i: int| 0 <= i < trees.len() implies encodable(#[trigger] trees[i]) by {
                let value = values[i];
                let literals = seq![literal_tree(value.value)];
                lemma_plain_list(literals);
                assert(plain_entries(display_entries(value.display_information)));
                let head = entry("type"@, Tree::Text(kind_word(value.type_spec.inner_raw())))
                    + entry("enum"@, Tree::Sequence(literals));
                assert(plain_entries(head));
                lemma_plain_concat(head, display_entries(value.display_information));
                lemma_plain_object(head + display_entries(value.display_information));
            }
            lemma_plain_list(trees);
        },
        None => {},
    }
}

/// Every entry of the output object of a node stands under a string and
/// holds a value that has a JSON text.
pub proof fn lemma_serialized_is_plain(schema: SourceModel)
    ensures
        plain_entries(serialized(schema)),
        encodable(Tree::Mapping(serialized(schema))),
    decreases schema, 1nat,
{
    let resolved = resolved_type(schema.types);
    let s1 = entry("type"@, Tree::Text(kind_word(resolved.inner_raw())));
    let s2 = s1 + properties_part(schema.property_list);
    let s3 = s2 + bounds_entries(resolved.inner_raw());
    let s4 = s3 + enumeration_entries(schema.enumeration);
    let s5 = s4 + annotation_entries(schema.annotations, resolved);
    let s6 = s5 + dynamic_part(schema);
    let s7 = s6 + text_entry("formula"@, schema.formula);
    assert(s7 == serialized(schema));
    lemma_leaf_entries_are_plain(schema);
    assert(plain_entries(s1));
    match schema.property_list {
        Some(list) => {
            lemma_serialized_properties_are_plain(list, list.len());
            lemma_plain_object(serialized_properties(list, list.len()));
            lemma_required_names_are_text(list, list.len());
            lemma_plain_list(required_names(list, list.len()));
            assert(plain_entries(properties_part(schema.property_list)));
        },
        None => {},
    }
    match schema.dynamic {
        Some(pair) => {
            lemma_serialized_is_plain(pair.keys);
            lemma_serialized_is_plain(pair.values);
            assert(plain_entries(dynamic_part(schema)));
        },
        None => {},
    }
    lemma_plain_concat(s1, properties_part(schema.property_list));
    lemma_plain_concat(s2, bounds_entries(resolved.inner_raw()));
    lemma_plain_concat(s3, enumeration_entries(schema.enumeration));
    lemma_plain_concat(s4, annotation_entries(schema.annotations, resolved));
    lemma_plain_concat(s5, dynamic_part(schema));
    lemma_plain_concat(s6, text_entry("formula"@, schema.formula));
    lemma_plain_object(s7);
}

/// The entries of a `properties` object are plain.
pub proof fn lemma_serialized_properties_are_plain(list: Seq<PropertyModel>, n: nat)
    requires
        n <= list.len(),
    ensures
        plain_entries(serialized_properties(list, n)),
    decreases list, n,
{
    if n > 0 {
        lemma_serialized_properties_are_plain(list, (n - 1) as nat);
        lemma_serialized_is_plain(list[n - 1].property);
        let before = serialized_properties(list, (n - 1) as nat);
        let last = (Tree::Text(list[n - 1].name), Tree::Mapping(serialized(list[n - 1].property)));
        assert(serialized_properties(list, n) == before.push(last));
        assert forall|i: int| 0 <= i < before.push(last).len() implies (#[trigger] before.push(
            last,
        )[i]).0 is Text && encodable(before.push(last)[i].1) by {
            if i < before.len() {
                assert(before.push(last)[i] == before[i]);
            }
        }
    }
}

/// Every output document has a JSON text.
pub proof fn lemma_document_has_json_text(url: Seq<char>, root: SourceModel)
    ensures
        encodable(serialized_document(url, root)),
{
    lemma_serialized_is_plain(root);
    let head = entry("$schema"@, Tree::Text(url));
    assert(plain_entries(head));
    lemma_plain_concat(head, serialized(root));
    lemma_plain_object(head + serialized(root));
}

} // verus!
