//! From a written schema to a compiled one.

use crate::normalization::{fully_typed, untyped};
use crate::object_types::ObjectType;
use crate::schema::{
    lemma_children_view, KeysValues, NamedSchema, NamedSchemaModel, Schema, SchemaModel,
};
use crate::source::{
    lemma_property_list_view, PropertyEntry, PropertyList, PropertyModel, SourceKeysValues,
    SourceKeysValuesModel, SourceModel, SourceSchema,
};
use vstd::prelude::*;

verus! {

/// The compiled form of a written node: its one type is its only candidate
/// type, its properties are compiled in their order, and everything else is
/// kept as it is.
pub open spec fn lifted(schema: SchemaModel) -> SourceModel
    decreases schema, 0nat,
{
    SourceModel {
        types: Some(seq![schema.object_type]),
        property_list: match schema.children {
            Some(list) => Some(lifted_entries(list, list.len())),
            None => None,
        },
        dynamic: match schema.dynamic {
            Some(pair) => Some(
                Box::new(
                    SourceKeysValuesModel { keys: lifted(pair.keys), values: lifted(pair.values) },
                ),
            ),
            None => None,
        },
        enumeration: schema.enumeration,
        annotations: schema.annotations,
        formula: schema.formula,
    }
}

/// The compiled form of one written property.
pub open spec fn lifted_entry(entry: NamedSchemaModel) -> PropertyModel
    decreases entry, 0nat,
{
    PropertyModel { name: entry.name, property: lifted(entry.schema) }
}

/// The compiled forms of the first `n` written properties of a list.
pub open spec fn lifted_entries(list: Seq<NamedSchemaModel>, n: nat) -> Seq<PropertyModel>
    decreases list, n,
{
    if n == 0 || n > list.len() {
        Seq::empty()
    } else {
        lifted_entries(list, (n - 1) as nat).push(lifted_entry(list[n - 1]))
    }
}

/// The compiled properties of a list are the compiled forms of its entries,
/// each at its place: compiling keeps the order.
pub proof fn lemma_lifted_entries(list: Seq<NamedSchemaModel>, n: nat)
    requires
        n <= list.len(),
    ensures
        lifted_entries(list, n).len() == n,
        forall|i: int|
            0 <= i < n ==> (#[trigger] lifted_entries(list, n)[i]) == lifted_entry(list[i]),
    decreases n,
{
    if n > 0 {
        lemma_lifted_entries(list, (n - 1) as nat);
    }
}

/// In the compiled form of a written node every property, at every depth,
/// carries exactly one candidate type, the type that is written.
pub proof fn lemma_lifted_is_fully_typed(schema: SchemaModel)
    ensures
        fully_typed(lifted(schema)),
        lifted(schema).types == Some(seq![schema.object_type]),
    decreases schema,
{
    match schema.children {
        Some(list) => {
            let compiled = lifted_entries(list, list.len());
            lemma_lifted_entries(list, list.len());
            assert forall|i: int| 0 <= i < compiled.len() implies !untyped(
                (#[trigger] compiled[i]).property.types,
            ) && fully_typed(compiled[i].property) by {
                lemma_lifted_is_fully_typed(list[i].schema);
                assert(seq![list[i].schema.object_type].len() == 1);
            }
            assert(lifted(schema).property_list == Some(compiled));
        },
        None => {},
    }
}

impl SourceSchema {
    /// Compiles a written node.
    pub fn from_schema(schema: Schema) -> (r: SourceSchema)
        ensures
            r@ == lifted(schema@),
        decreases schema,
    {
        proof {
            lemma_children_view(schema);
        }
        let Schema { object_type, children, dynamic, enumeration, annotations, formula } = schema;
        let mut types: Vec<ObjectType> = Vec::new();
        types.push(object_type);
        assert(types@ =~= seq![object_type]);
        let property_list = match children {
            Some(list) => {
                let ghost written = list.entries@;
                let mut entries: Vec<PropertyEntry> = Vec::new();
                for child in it: list.entries.into_iter()
                    invariant
                        it.seq() == written,
                        schema.children matches Some(l) && l.entries@ == written,
                        entries@.len() == it.index(),
                        forall|j: int|
                            0 <= j < it.index() ==> (#[trigger] entries@[j])@ == lifted_entry(
                                written[j]@,
                            ),
                {
                    assert(decreases_to!(schema => child)) by {
                        let l = schema.children->0;
                        assert(decreases_to!(schema => l));
                        assert(decreases_to!(l => l.entries));
                        assert(decreases_to!(l.entries => l.entries@[it.index()]));
                    }
                    let NamedSchema { name, schema: nested } = child;
                    let property = SourceSchema::from_schema(nested);
                    entries.push(PropertyEntry { name, property });
                }
                proof {
                    lemma_lifted_entries(Schema::view_entries(written), written.len());
                    assert(PropertyList::view_entries(entries@) =~= lifted_entries(
                        Schema::view_entries(written),
                        written.len(),
                    ));
                }
                Some(PropertyList { entries })
            },
            None => None,
        };
        let dynamic = match dynamic {
            Some(pair) => {
                let KeysValues { keys, values } = *pair;
                Some(
                    Box::new(
                        SourceKeysValues {
                            keys: SourceSchema::from_schema(keys),
                            values: SourceSchema::from_schema(values),
                        },
                    ),
                )
            },
            None => None,
        };
        let compiled = SourceSchema {
            types: Some(types),
            property_list,
            dynamic,
            enumeration,
            annotations,
            formula,
        };
        proof {
            lemma_property_list_view(compiled);
        }
        compiled
    }
}

} // verus!
