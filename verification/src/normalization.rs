//! Filling in the candidate types that a compiled schema leaves open.

use crate::object_types::{ObjectType, RawObjectType};
use crate::source::{
    lemma_properties_prefix, properties_prefix, PropertyEntry, PropertyModel, SourceModel,
    SourceSchema,
};
use vstd::prelude::*;

verus! {

/// The candidate types that a property without any gets.
pub open spec fn default_types() -> Seq<ObjectType> {
    seq![ObjectType::Required(RawObjectType::Object)]
}

/// Whether a node carries no candidate type.
pub open spec fn untyped(types: Option<Seq<ObjectType>>) -> bool {
    match types {
        None => true,
        Some(list) => list.len() == 0,
    }
}

/// A normalized node: every property below it is normalized.
pub open spec fn normalized(schema: SourceModel) -> SourceModel
    decreases schema, 0nat,
{
    SourceModel {
        property_list: match schema.property_list {
            Some(list) => Some(normalized_entries(list, list.len())),
            None => None,
        },
        ..schema
    }
}

/// A normalized property: its nested properties are normalized, and where it
/// carries no candidate type it gets the single type of a required object.
pub open spec fn normalized_entry(entry: PropertyModel) -> PropertyModel
    decreases entry, 1nat,
{
    let inner = normalized(entry.property);
    PropertyModel {
        name: entry.name,
        property: SourceModel {
            types: if untyped(inner.types) {
                Some(default_types())
            } else {
                inner.types
            },
            ..inner
        },
    }
}

/// The first `n` properties of a list, each normalized.
pub open spec fn normalized_entries(list: Seq<PropertyModel>, n: nat) -> Seq<PropertyModel>
    decreases list, n,
{
    if n == 0 || n > list.len() {
        Seq::empty()
    } else {
        normalized_entries(list, (n - 1) as nat).push(normalized_entry(list[n - 1]))
    }
}

/// The first normalized properties of a list are the normalized entries of
/// the list, each at its place.
pub proof fn lemma_normalized_entries(list: Seq<PropertyModel>, n: nat)
    requires
        n <= list.len(),
    ensures
        normalized_entries(list, n).len() == n,
        forall|i: int|
            0 <= i < n ==> (#[trigger] normalized_entries(list, n)[i]) == normalized_entry(
                list[i],
            ),
    decreases n,
{
    if n > 0 {
        lemma_normalized_entries(list, (n - 1) as nat);
    }
}

/// Whether every property of a node, at every depth, carries at least one
/// candidate type.
pub open spec fn fully_typed(schema: SourceModel) -> bool
    decreases schema,
{
    match schema.property_list {
        Some(list) => forall|i: int|
            0 <= i < list.len() ==> !untyped((#[trigger] list[i]).property.types)
                && fully_typed(list[i].property),
        None => true,
    }
}

/// Normalizing a node that has been normalized changes nothing.
pub proof fn lemma_normalized_idempotent(schema: SourceModel)
    ensures
        normalized(normalized(schema)) == normalized(schema),
    decreases schema, 0nat,
{
    match schema.property_list {
        Some(list) => {
            let once = normalized_entries(list, list.len());
            lemma_normalized_entries(list, list.len());
            lemma_normalized_entries(once, once.len());
            assert forall|i: int| 0 <= i < list.len() implies normalized_entry(once[i])
                == once[i] by {
                lemma_normalized_entry_idempotent(list[i]);
            }
            assert(normalized_entries(once, once.len()) =~= once);
        },
        None => {},
    }
}

/// Normalizing a property that has been normalized changes nothing.
pub proof fn lemma_normalized_entry_idempotent(entry: PropertyModel)
    ensures
        normalized_entry(normalized_entry(entry)) == normalized_entry(entry),
    decreases entry, 1nat,
{
    lemma_normalized_idempotent(entry.property);
    let inner = normalized(entry.property);
    let once = normalized_entry(entry);
    assert(normalized(once.property).property_list == normalized(inner).property_list);
    assert(default_types().len() == 1);
}

/// A property that carries no candidate type has, once it is normalized,
/// exactly one: a required object.
pub proof fn lemma_untyped_property_defaults(entry: PropertyModel)
    requires
        untyped(entry.property.types),
    ensures
        normalized_entry(entry).property.types == Some(default_types()),
{
}

/// A property that carries candidate types keeps them as they are.
pub proof fn lemma_typed_property_keeps_types(entry: PropertyModel)
    requires
        !untyped(entry.property.types),
    ensures
        normalized_entry(entry).property.types == entry.property.types,
{
}

/// In a normalized node every property, at every depth, carries at least
/// one candidate type.
pub proof fn lemma_normalized_fully_typed(schema: SourceModel)
    ensures
        fully_typed(normalized(schema)),
    decreases schema,
{
    match schema.property_list {
        Some(list) => {
            let once = normalized_entries(list, list.len());
            lemma_normalized_entries(list, list.len());
            assert(default_types().len() == 1);
            assert forall|i: int| 0 <= i < once.len() implies !untyped(
                (#[trigger] once[i]).property.types,
            ) && fully_typed(once[i].property) by {
                lemma_normalized_fully_typed(list[i].property);
                let inner = normalized(list[i].property);
                assert(once[i].property.property_list == inner.property_list);
                lemma_fully_typed_depends_on_properties(inner, once[i].property);
            }
            assert(normalized(schema).property_list == Some(once));
        },
        None => {},
    }
}

/// A node all of whose properties carry candidate types is normalized
/// already: normalizing it changes nothing.
pub proof fn lemma_fully_typed_is_normalized(schema: SourceModel)
    requires
        fully_typed(schema),
    ensures
        normalized(schema) == schema,
    decreases schema,
{
    match schema.property_list {
        Some(list) => {
            lemma_normalized_entries(list, list.len());
            assert forall|i: int| 0 <= i < list.len() implies normalized_entry(list[i])
                == list[i] by {
                assert(!untyped(list[i].property.types) && fully_typed(list[i].property));
                lemma_fully_typed_is_normalized(list[i].property);
            }
            assert(normalized_entries(list, list.len()) =~= list);
        },
        None => {},
    }
}

/// Whether a node is fully typed depends on its properties alone.
pub proof fn lemma_fully_typed_depends_on_properties(a: SourceModel, b: SourceModel)
    requires
        a.property_list == b.property_list,
    ensures
        fully_typed(a) == fully_typed(b),
{
}

impl PropertyEntry {
    /// Fills in what the property leaves open: it normalizes the nested
    /// properties, and gives the property the single candidate type of a
    /// required object where it carries none.
    pub fn normalize(&mut self)
        ensures
            final(self)@ == normalized_entry(old(self)@),
            final(self)@.name == old(self)@.name,
            untyped(old(self)@.property.types) ==> final(self)@.property.types == Some(
                default_types(),
            ),
            !untyped(old(self)@.property.types) ==> final(self)@.property.types == old(
                self,
            )@.property.types,
        decreases *old(self),
    {
        self.property.normalize();
        let missing = match &self.property.types {
            Some(spec) => spec.len() == 0,
            None => true,
        };
        if missing {
            let mut types: Vec<ObjectType> = Vec::new();
            types.push(ObjectType::Required(RawObjectType::Object));
            assert(types@ =~= default_types());
            self.property.types = Some(types);
        }
    }
}

impl SourceSchema {
    /// Normalizes every property of the node, at every depth, in place.
    pub fn normalize(&mut self)
        ensures
            final(self)@ == normalized(old(self)@),
        decreases *old(self),
    {
        let ghost before = *self;
        match &mut self.property_list {
            Some(list) => {
                let ghost old_entries = list.entries@;
                let mut i: usize = 0;
                while i < list.entries.len()
                    invariant
                        i <= list.entries.len(),
                        before == *old(self),
                        before.property_list matches Some(l) && l.entries@ == old_entries,
                        list.entries@.len() == old_entries.len(),
                        forall|j: int|
                            0 <= j < i ==> (#[trigger] list.entries@[j])@ == normalized_entry(
                                old_entries[j]@,
                            ),
                        forall|j: int|
                            i <= j < old_entries.len() ==> #[trigger] list.entries@[j]
                                == old_entries[j],
                    decreases list.entries.len() - i,
                {
                    assert(decreases_to!(before => list.entries@[i as int])) by {
                        let l = before.property_list->0;
                        assert(decreases_to!(before => l));
                        assert(decreases_to!(l => l.entries));
                        assert(decreases_to!(l.entries => l.entries@[i as int]));
                    }
                    list.entries[i].normalize();
                    i += 1;
                }
                proof {
                    lemma_properties_prefix(old_entries, old_entries.len());
                    lemma_properties_prefix(list.entries@, list.entries@.len());
                    lemma_normalized_entries(
                        properties_prefix(old_entries, old_entries.len()),
                        old_entries.len(),
                    );
                    assert(properties_prefix(list.entries@, list.entries@.len())
                        =~= normalized_entries(
                        properties_prefix(old_entries, old_entries.len()),
                        old_entries.len(),
                    ));
                }
            },
            None => {},
        }
    }
}

} // verus!
