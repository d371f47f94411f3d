//! The whole compilation: reading, normalizing, validating, writing out.

use crate::deserialization::{
    deserialize_root, lemma_children_keep_order, lemma_missing_version_is_default,
    lemma_named_keeps_name, lemma_other_version_is_unsupported, parse_children, parse_root,
};
use crate::error::CompilationError;
use crate::json::{encodable, encode, json_text};
use crate::lifting::{lemma_lifted_entries, lifted, lifted_entries};
use crate::normalization::{lemma_normalized_entries, normalized, normalized_entries};
use crate::schema::{view_result, DEFAULT_VERSION};
use crate::serialization::{
    lemma_document_has_json_text, lemma_document_is_flat, lemma_formula_is_written_last,
    lemma_serialized_begins, lemma_serialized_properties_keep_order, schema_url,
    serialized_document, serialized_properties, JsonSchema,
};
use crate::source::SourceSchema;
use crate::tree::{lookup, Node, Tree};
use crate::validation::{valid, validate};
use vstd::prelude::*;

verus! {

/// What compiling a written document gives. The four stages run one after
/// the other, reading, normalizing, validating, writing out, and the first
/// failure is the result; nothing is produced beside a failure.
pub open spec fn compiled(document: Tree) -> Result<Tree, CompilationError> {
    match parse_root(document) {
        Err(e) => Err(e),
        Ok(root) => {
            let normal = normalized(lifted(root.schema));
            if valid(normal) {
                Ok(serialized_document(schema_url(), normal))
            } else {
                Err(CompilationError::ValidationError)
            }
        },
    }
}

/// What compiling a written document to JSON text gives.
pub open spec fn compiled_text(document: Tree) -> Result<Seq<char>, CompilationError> {
    match compiled(document) {
        Err(e) => Err(e),
        Ok(output) => if encodable(output) {
            Ok(json_text(output))
        } else {
            Err(CompilationError::SerializationError)
        },
    }
}

/// Compiles a written document into its output document.
pub fn compile(document: &Node) -> (r: Result<Node, CompilationError>)
    ensures
        view_result(r) == compiled(document@),
{
    let root = deserialize_root(document)?;
    let mut source = SourceSchema::from_schema(root.schema());
    source.normalize();
    validate(&source)?;
    let output = JsonSchema::from(source);
    Ok(output.serialize())
}

/// Compiles a written document into the JSON text of its output document.
pub fn compile_to_json(document: &Node) -> (r: Result<String, CompilationError>)
    ensures
        view_result(r) == compiled_text(document@),
{
    let output = compile(document)?;
    match encode(&output) {
        Some(text) => Ok(text),
        None => Err(CompilationError::SerializationError),
    }
}

/// The output document of every document that compiles is one flat object
/// whose first entry is `$schema` with the address of the dialect, and whose
/// second entry is the type of the root node.
pub proof fn lemma_compiled_document_shape(document: Tree)
    requires
        compiled(document) is Ok,
    ensures
        compiled(document)->Ok_0 matches Tree::Mapping(entries) && entries.len() >= 2
            && entries[0] == (Tree::Text("$schema"@), Tree::Text(schema_url())) && entries[1].0
            == Tree::Text("type"@),
{
    let root = parse_root(document)->Ok_0;
    let normal = normalized(lifted(root.schema));
    lemma_document_is_flat(schema_url(), normal);
    lemma_serialized_begins(normal);
    let entries = compiled(document)->Ok_0->Mapping_0;
    assert(entries.subrange(1, entries.len() as int)[0] == entries[1]);
}

/// The name that a written property stands under: the key of the single
/// entry of the mapping that holds it.
pub open spec fn written_name(item: Tree) -> Tree {
    item->Mapping_0[0].0
}

/// The entries of the `properties` object of an output document.
pub open spec fn output_properties(output: Tree) -> Seq<(Tree, Tree)> {
    output->Mapping_0[2].1->Mapping_0
}

/// The properties of a document that compiles stand in the output in the
/// order in which they are written: the `properties` object of the output,
/// its third entry, holds one entry for each written property, under the
/// name that the property is written under, at the same place.
pub proof fn lemma_compiled_properties_keep_order(entries: Seq<(Tree, Tree)>, items: Seq<Tree>)
    requires
        compiled(Tree::Mapping(entries)) is Ok,
        lookup(entries, "properties"@) == Some(Tree::Sequence(items)),
    ensures
        compiled(Tree::Mapping(entries))->Ok_0 is Mapping,
        compiled(Tree::Mapping(entries))->Ok_0->Mapping_0.len() >= 3,
        compiled(Tree::Mapping(entries))->Ok_0->Mapping_0[2].0 == Tree::Text("properties"@),
        compiled(Tree::Mapping(entries))->Ok_0->Mapping_0[2].1 is Mapping,
        output_properties(compiled(Tree::Mapping(entries))->Ok_0).len() == items.len(),
        forall|i: int|
            0 <= i < items.len() ==> (#[trigger] items[i]) is Mapping && output_properties(
                compiled(Tree::Mapping(entries))->Ok_0,
            )[i].0 == written_name(items[i]),
{
    let document = Tree::Mapping(entries);
    let root = parse_root(document)->Ok_0;
    let children = root.schema.children->0;
    assert(parse_children(items, items.len()) == Ok::<
        Seq<crate::schema::NamedSchemaModel>,
        CompilationError,
    >(children));
    lemma_children_keep_order(items, items.len());
    let compiled_list = lifted_entries(children, children.len());
    lemma_lifted_entries(children, children.len());
    let normal = normalized(lifted(root.schema));
    let normal_list = normalized_entries(compiled_list, compiled_list.len());
    lemma_normalized_entries(compiled_list, compiled_list.len());
    assert(normal.property_list == Some(normal_list));
    lemma_serialized_begins(normal);
    lemma_serialized_properties_keep_order(normal_list, normal_list.len());
    lemma_document_is_flat(schema_url(), normal);
    let output = compiled(document)->Ok_0->Mapping_0;
    assert(output.subrange(1, output.len() as int)[1] == output[2]);
    let properties = serialized_properties(normal_list, normal_list.len());
    assert forall|i: int| 0 <= i < items.len() implies (#[trigger] items[i]) is Mapping
        && properties[i].0 == written_name(items[i]) by {
        lemma_named_keeps_name(items[i]);
        assert(normal_list[i].name == children[i].name);
    }
}

/// The text of a formula: a string as it is written, any other value as
/// its JSON text.
pub open spec fn written_formula(value: Tree) -> Seq<char> {
    match value {
        Tree::Text(text) => text,
        other => json_text(other),
    }
}

/// The formula of a document that compiles is the last entry of the output:
/// a string as it is written, any other value as its JSON text.
pub proof fn lemma_compiled_formula(entries: Seq<(Tree, Tree)>)
    requires
        compiled(Tree::Mapping(entries)) is Ok,
        lookup(entries, "formula"@) is Some,
    ensures
        compiled(Tree::Mapping(entries))->Ok_0 is Mapping,
        compiled(Tree::Mapping(entries))->Ok_0->Mapping_0.last() == (
            Tree::Text("formula"@),
            Tree::Text(written_formula(lookup(entries, "formula"@)->0)),
        ),
{
    let document = Tree::Mapping(entries);
    let root = parse_root(document)->Ok_0;
    let normal = normalized(lifted(root.schema));
    lemma_formula_is_written_last(normal);
    lemma_document_is_flat(schema_url(), normal);
}

/// A document that compiles always has its JSON text: writing the output
/// as text never fails.
pub proof fn lemma_compiled_has_json_text(document: Tree)
    requires
        compiled(document) is Ok,
    ensures
        compiled_text(document) == Ok::<Seq<char>, CompilationError>(
            json_text(compiled(document)->Ok_0),
        ),
{
    let root = parse_root(document)->Ok_0;
    lemma_document_has_json_text(schema_url(), normalized(lifted(root.schema)));
}

/// A document without a `version` entry compiles to what the same document
/// compiles to with the supported version written into it, at whatever
/// place.
pub proof fn lemma_missing_version_compiles_as_default(entries: Seq<(Tree, Tree)>, at: int)
    requires
        0 <= at <= entries.len(),
        lookup(entries, "version"@) is None,
    ensures
        compiled(
            Tree::Mapping(
                entries.insert(at, (Tree::Text("version"@), Tree::Unsigned(DEFAULT_VERSION))),
            ),
        ) == compiled(Tree::Mapping(entries)),
        compiled_text(
            Tree::Mapping(
                entries.insert(at, (Tree::Text("version"@), Tree::Unsigned(DEFAULT_VERSION))),
            ),
        ) == compiled_text(Tree::Mapping(entries)),
{
    lemma_missing_version_is_default(entries, at);
}

/// A document whose `version` entry holds anything but the supported
/// version does not compile: the failure is that the version is not
/// supported.
pub proof fn lemma_other_version_does_not_compile(entries: Seq<(Tree, Tree)>)
    requires
        lookup(entries, "version"@) is Some,
        lookup(entries, "version"@) != Some(Tree::Unsigned(DEFAULT_VERSION)),
    ensures
        compiled(Tree::Mapping(entries)) == Err::<Tree, CompilationError>(
            CompilationError::UnsupportedVersion,
        ),
        compiled_text(Tree::Mapping(entries)) == Err::<Seq<char>, CompilationError>(
            CompilationError::UnsupportedVersion,
        ),
{
    lemma_other_version_is_unsupported(entries);
}

} // verus!
