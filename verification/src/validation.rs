//! Consistency of a compiled schema.

use crate::enums::{EnumerationValueModel, EnumerationValues};
use crate::error::CompilationError;
use crate::object_types::{ObjectType, StringBounds};
use crate::source::{lemma_property_list_view, SourceModel, SourceSchema};
use vstd::prelude::*;

verus! {

/// Whether the limits of a type are consistent: the lower limit is not
/// above the upper one.
pub open spec fn valid_type(object_type: ObjectType) -> bool {
    match object_type.inner_raw().bounds() {
        Some(StringBounds { min_length: Some(low), max_length: Some(high) }) => low <= high,
        _ => true,
    }
}

/// Whether every candidate type of a node is consistent.
pub open spec fn valid_types(types: Option<Seq<ObjectType>>) -> bool {
    match types {
        Some(list) => forall|i: int| 0 <= i < list.len() ==> valid_type(#[trigger] list[i]),
        None => true,
    }
}

/// Whether an enumeration is consistent: it has at least one value, every
/// value is given, and no value is given twice.
pub open spec fn valid_enumeration(values: Seq<EnumerationValueModel>) -> bool {
    &&& values.len() > 0
    &&& forall|i: int| 0 <= i < values.len() ==> (#[trigger] values[i]).value is Some
    &&& forall|i: int, j: int|
        0 <= i < j < values.len() ==> (#[trigger] values[i]).value != (#[trigger] values[j]).value
}

/// Whether a node is consistent in itself, whatever stands below it.
pub open spec fn valid_node(schema: SourceModel) -> bool {
    &&& valid_types(schema.types)
    &&& match schema.enumeration {
        Some(values) => valid_enumeration(values),
        None => true,
    }
}

/// Whether a document is consistent: every node of it is, at every depth,
/// among the properties and among the schemas of keys and values.
pub open spec fn valid(schema: SourceModel) -> bool
    decreases schema,
{
    &&& valid_node(schema)
    &&& match schema.property_list {
        Some(list) => forall|i: int|
            0 <= i < list.len() ==> valid((#[trigger] list[i]).property),
        None => true,
    }
    &&& match schema.dynamic {
        Some(pair) => valid(pair.keys) && valid(pair.values),
        None => true,
    }
}

/// Checks the limits of one type.
pub fn validate_type(object_type: &ObjectType) -> (r: bool)
    ensures
        r == valid_type(*object_type),
{
    match object_type.inner_raw().bounds() {
        Some(limits) => match (limits.min_length, limits.max_length) {
            (Some(low), Some(high)) => low <= high,
            _ => true,
        },
        None => true,
    }
}

/// Checks the candidate types of a node.
pub fn validate_types(types: &Option<Vec<ObjectType>>) -> (r: bool)
    ensures
        r == valid_types(crate::source::types_view(*types)),
{
    match types {
        Some(list) => {
            let mut i: usize = 0;
            while i < list.len()
                invariant
                    i <= list.len(),
                    *types == Some(*list),
                    forall|j: int| 0 <= j < i ==> valid_type(#[trigger] list@[j]),
                decreases list.len() - i,
            {
                if !validate_type(&list[i]) {
                    assert(!valid_type(list@[i as int]));
                    assert(crate::source::types_view(*types) == Some(list@));
                    assert(Some(list@)->0 == list@);
                    return false;
                }
                i += 1;
            }
            true
        },
        None => true,
    }
}

/// Whether two optional strings are the same.
pub fn same_optional_text(a: &Option<String>, b: &Option<String>) -> (r: bool)
    ensures
        r == (crate::annotations::text_view(*a) == crate::annotations::text_view(*b)),
{
    match (a, b) {
        (Some(x), Some(y)) => *x == *y,
        (None, None) => true,
        _ => false,
    }
}

/// Checks an enumeration.
pub fn validate_enumeration(values: &EnumerationValues) -> (r: bool)
    ensures
        r == valid_enumeration(values@),
{
    let list = &values.possible_values;
    let ghost models = values@;
    if list.len() == 0 {
        return false;
    }
    let mut i: usize = 0;
    while i < list.len()
        invariant
            i <= list.len(),
            models == EnumerationValues::view_values(list@),
            models == values@,
            forall|a: int| 0 <= a < i ==> (#[trigger] models[a]).value is Some,
            forall|a: int, b: int|
                0 <= a < b < i ==> (#[trigger] models[a]).value != (#[trigger] models[b]).value,
        decreases list.len() - i,
    {
        if list[i].value.is_none() {
            assert(models[i as int].value is None);
            return false;
        }
        let mut k: usize = 0;
        while k < i
            invariant
                k <= i < list.len(),
                models == EnumerationValues::view_values(list@),
                models == values@,
                forall|a: int| 0 <= a < k ==> (#[trigger] models[a]).value != models[i as int].value,
            decreases i - k,
        {
            if same_optional_text(&list[k].value, &list[i].value) {
                assert(models[k as int].value == models[i as int].value);
                return false;
            }
            k += 1;
        }
        i += 1;
    }
    true
}

/// Checks a document, node by node. The check reads the document and
/// changes nothing; it fails exactly when the document is not consistent.
pub fn validate(document: &SourceSchema) -> (r: Result<(), CompilationError>)
    ensures
        r is Ok <==> valid(document@),
        r matches Err(e) ==> e == CompilationError::ValidationError,
    decreases document,
{
    proof {
        lemma_property_list_view(*document);
    }
    if !validate_types(&document.types) {
        return Err(CompilationError::ValidationError);
    }
    match &document.enumeration {
        Some(values) => {
            if !validate_enumeration(values) {
                return Err(CompilationError::ValidationError);
            }
        },
        None => {},
    }
    match &document.property_list {
        Some(list) => {
            let mut i: usize = 0;
            while i < list.entries.len()
                invariant
                    i <= list.entries.len(),
                    document.property_list == Some(*list),
                    document@.property_list == Some(list@),
                    forall|j: int| 0 <= j < i ==> valid((#[trigger] list@[j]).property),
                decreases list.entries.len() - i,
            {
                match validate(&list.entries[i].property) {
                    Ok(_) => {},
                    Err(e) => {
                        assert(!valid(list@[i as int].property));
                        return Err(e);
                    },
                }
                i += 1;
            }
        },
        None => {},
    }
    match &document.dynamic {
        Some(pair) => {
            validate(&pair.keys)?;
            validate(&pair.values)?;
        },
        None => {},
    }
    Ok(())
}

} // verus!
