//! A compiled schema: a list of candidate types for each node.

use crate::annotations::{text_view, Annotations, AnnotationsModel};
use crate::enums::{EnumerationValueModel, EnumerationValues};
use crate::object_types::ObjectType;
use vstd::prelude::*;

verus! {

/// A node of a compiled schema. Where a written node has one type, a
/// compiled node has an ordered list of candidate types, which is missing
/// until the node has been normalized.
#[derive(Debug, PartialEq, Eq)]
pub struct SourceSchema {
    pub types: Option<Vec<ObjectType>>,
    pub property_list: Option<PropertyList>,
    pub dynamic: Option<Box<SourceKeysValues>>,
    pub enumeration: Option<EnumerationValues>,
    pub annotations: Annotations,
    pub formula: Option<String>,
}

/// The declared properties of a compiled node, in the order in which they
/// were written.
#[derive(Debug, PartialEq, Eq)]
pub struct PropertyList {
    pub entries: Vec<PropertyEntry>,
}

/// One declared property of a compiled node: its name and its schema.
#[derive(Debug, PartialEq, Eq)]
pub struct PropertyEntry {
    pub name: String,
    pub property: SourceSchema,
}

/// The compiled schemas of the keys and of the values of a node whose keys
/// cannot be listed one by one.
#[derive(Debug, PartialEq, Eq)]
pub struct SourceKeysValues {
    pub keys: SourceSchema,
    pub values: SourceSchema,
}

/// The mathematical value of a [`SourceSchema`].
pub struct SourceModel {
    pub types: Option<Seq<ObjectType>>,
    pub property_list: Option<Seq<PropertyModel>>,
    pub dynamic: Option<Box<SourceKeysValuesModel>>,
    pub enumeration: Option<Seq<EnumerationValueModel>>,
    pub annotations: AnnotationsModel,
    pub formula: Option<Seq<char>>,
}

/// The mathematical value of a [`PropertyEntry`].
pub struct PropertyModel {
    pub name: Seq<char>,
    pub property: SourceModel,
}

/// The mathematical value of a [`SourceKeysValues`].
pub struct SourceKeysValuesModel {
    pub keys: SourceModel,
    pub values: SourceModel,
}

/// The candidate types of a node as a sequence.
pub open spec fn types_view(types: Option<Vec<ObjectType>>) -> Option<Seq<ObjectType>> {
    match types {
        Some(list) => Some(list@),
        None => None,
    }
}

/// The mathematical value of a compiled node.
pub open spec fn source_model(schema: SourceSchema) -> SourceModel
    decreases schema, 0nat,
{
    SourceModel {
        types: types_view(schema.types),
        property_list: match schema.property_list {
            Some(list) => Some(properties_prefix(list.entries@, list.entries@.len())),
            None => None,
        },
        dynamic: match schema.dynamic {
            Some(pair) => Some(
                Box::new(
                    SourceKeysValuesModel {
                        keys: source_model(pair.keys),
                        values: source_model(pair.values),
                    },
                ),
            ),
            None => None,
        },
        enumeration: match schema.enumeration {
            Some(values) => Some(values@),
            None => None,
        },
        annotations: schema.annotations@,
        formula: text_view(schema.formula),
    }
}

/// The values of the first `n` properties of a list.
pub open spec fn properties_prefix(entries: Seq<PropertyEntry>, n: nat) -> Seq<PropertyModel>
    decreases entries, n,
{
    if n == 0 || n > entries.len() {
        Seq::empty()
    } else {
        properties_prefix(entries, (n - 1) as nat).push(
            PropertyModel {
                name: entries[n - 1].name@,
                property: source_model(entries[n - 1].property),
            },
        )
    }
}

impl View for SourceSchema {
    type V = SourceModel;

    open spec fn view(&self) -> SourceModel {
        source_model(*self)
    }
}

impl View for PropertyEntry {
    type V = PropertyModel;

    open spec fn view(&self) -> PropertyModel {
        PropertyModel { name: self.name@, property: self.property@ }
    }
}

impl PropertyList {
    /// The values of a list of properties, entry by entry.
    pub open spec fn view_entries(entries: Seq<PropertyEntry>) -> Seq<PropertyModel> {
        Seq::new(entries.len(), |i: int| entries[i]@)
    }
}

impl View for PropertyList {
    type V = Seq<PropertyModel>;

    open spec fn view(&self) -> Seq<PropertyModel> {
        PropertyList::view_entries(self.entries@)
    }
}

impl View for SourceKeysValues {
    type V = SourceKeysValuesModel;

    open spec fn view(&self) -> SourceKeysValuesModel {
        SourceKeysValuesModel { keys: self.keys@, values: self.values@ }
    }
}

/// The value of an optional list of properties.
pub open spec fn property_list_view(list: Option<PropertyList>) -> Option<Seq<PropertyModel>> {
    match list {
        Some(list) => Some(list@),
        None => None,
    }
}

/// The value of an optional pair of compiled key and value schemas.
pub open spec fn source_dynamic_view(dynamic: Option<Box<SourceKeysValues>>) -> Option<
    Box<SourceKeysValuesModel>,
> {
    match dynamic {
        Some(pair) => Some(
            Box::new(SourceKeysValuesModel { keys: pair.keys@, values: pair.values@ }),
        ),
        None => None,
    }
}

/// The values of the first properties of a list are the values of its
/// entries, each at its place.
pub proof fn lemma_properties_prefix(entries: Seq<PropertyEntry>, n: nat)
    requires
        n <= entries.len(),
    ensures
        properties_prefix(entries, n).len() == n,
        forall|i: int|
            0 <= i < n ==> (#[trigger] properties_prefix(entries, n)[i]) == entries[i]@,
    decreases n,
{
    if n > 0 {
        lemma_properties_prefix(entries, (n - 1) as nat);
    }
}

/// The value of a compiled node holds the values of its properties, in their
/// order.
pub proof fn lemma_property_list_view(schema: SourceSchema)
    ensures
        schema@.property_list == property_list_view(schema.property_list),
{
    match schema.property_list {
        Some(list) => {
            lemma_properties_prefix(list.entries@, list.entries@.len());
            assert(schema@.property_list->0 =~= PropertyList::view_entries(list.entries@));
        },
        None => {},
    }
}

} // verus!
