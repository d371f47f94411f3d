//! A schema as it is written: one type for each node.

use crate::annotations::{text_view, Annotations, AnnotationsModel};
use crate::enums::{EnumerationValueModel, EnumerationValues};
use crate::error::CompilationError;
use crate::object_types::ObjectType;
use vstd::prelude::*;

verus! {

/// The only document-format version that is compiled.
pub const DEFAULT_VERSION: u64 = 1;

/// A node of a schema as it is written: one type, the declared properties in
/// the order in which they were written, and what else the node says.
#[derive(Debug, PartialEq, Eq)]
pub struct Schema {
    pub object_type: ObjectType,
    pub children: Option<SchemaList>,
    pub dynamic: Option<Box<KeysValues>>,
    pub enumeration: Option<EnumerationValues>,
    pub annotations: Annotations,
    pub formula: Option<String>,
}

/// The declared properties of a node, in the order in which they were
/// written.
#[derive(Debug, PartialEq, Eq)]
pub struct SchemaList {
    pub entries: Vec<NamedSchema>,
}

/// One declared property: its name and its schema.
#[derive(Debug, PartialEq, Eq)]
pub struct NamedSchema {
    pub name: String,
    pub schema: Schema,
}

/// The schemas of the keys and of the values of a node whose keys cannot be
/// listed one by one.
#[derive(Debug, PartialEq, Eq)]
pub struct KeysValues {
    pub keys: Schema,
    pub values: Schema,
}

/// A whole document as it is written: the root node and the format version,
/// which only the root carries.
#[derive(Debug, PartialEq, Eq)]
pub struct DocumentRoot {
    pub version: u64,
    pub schema: Schema,
}

/// The mathematical value of a [`Schema`].
pub struct SchemaModel {
    pub object_type: ObjectType,
    pub children: Option<Seq<NamedSchemaModel>>,
    pub dynamic: Option<Box<KeysValuesModel>>,
    pub enumeration: Option<Seq<EnumerationValueModel>>,
    pub annotations: AnnotationsModel,
    pub formula: Option<Seq<char>>,
}

/// The mathematical value of a [`NamedSchema`].
pub struct NamedSchemaModel {
    pub name: Seq<char>,
    pub schema: SchemaModel,
}

/// The mathematical value of a [`KeysValues`].
pub struct KeysValuesModel {
    pub keys: SchemaModel,
    pub values: SchemaModel,
}

/// The mathematical value of a [`DocumentRoot`].
pub struct DocumentRootModel {
    pub version: u64,
    pub schema: SchemaModel,
}

impl Schema {
    /// The values of a list of declared properties, entry by entry.
    pub open spec fn view_entries(entries: Seq<NamedSchema>) -> Seq<NamedSchemaModel> {
        Seq::new(entries.len(), |i: int| entries[i]@)
    }

}

/// The values of the first `n` declared properties of a list.
pub open spec fn view_prefix(entries: Seq<NamedSchema>, n: nat) -> Seq<NamedSchemaModel>
    decreases entries, n,
{
    if n == 0 || n > entries.len() {
        Seq::empty()
    } else {
        view_prefix(entries, (n - 1) as nat).push(
            NamedSchemaModel { name: entries[n - 1].name@, schema: schema_model(entries[n - 1].schema) },
        )
    }
}

/// The values of the first properties of a list are the values of its
/// entries, each at its place.
pub proof fn lemma_view_prefix(entries: Seq<NamedSchema>, n: nat)
    requires
        n <= entries.len(),
    ensures
        view_prefix(entries, n).len() == n,
        forall|i: int| 0 <= i < n ==> (#[trigger] view_prefix(entries, n)[i]) == entries[i]@,
    decreases n,
{
    if n > 0 {
        lemma_view_prefix(entries, (n - 1) as nat);
    }
}

/// The mathematical value of a schema node.
pub open spec fn schema_model(schema: Schema) -> SchemaModel
    decreases schema, 0nat,
{
    SchemaModel {
        object_type: schema.object_type,
        children: match schema.children {
            Some(list) => Some(view_prefix(list.entries@, list.entries@.len())),
            None => None,
        },
        dynamic: match schema.dynamic {
            Some(pair) => Some(
                Box::new(
                    KeysValuesModel {
                        keys: schema_model(pair.keys),
                        values: schema_model(pair.values),
                    },
                ),
            ),
            None => None,
        },
        enumeration: match schema.enumeration {
            Some(values) => Some(values@),
            None => None,
        },
        annotations: schema.annotations@,
        formula: text_view(schema.formula),
    }
}

impl View for Schema {
    type V = SchemaModel;

    open spec fn view(&self) -> SchemaModel {
        schema_model(*self)
    }
}

impl View for NamedSchema {
    type V = NamedSchemaModel;

    open spec fn view(&self) -> NamedSchemaModel {
        NamedSchemaModel { name: self.name@, schema: self.schema@ }
    }
}

impl View for SchemaList {
    type V = Seq<NamedSchemaModel>;

    open spec fn view(&self) -> Seq<NamedSchemaModel> {
        Schema::view_entries(self.entries@)
    }
}

impl View for KeysValues {
    type V = KeysValuesModel;

    open spec fn view(&self) -> KeysValuesModel {
        KeysValuesModel { keys: self.keys@, values: self.values@ }
    }
}

impl View for DocumentRoot {
    type V = DocumentRootModel;

    open spec fn view(&self) -> DocumentRootModel {
        DocumentRootModel { version: self.version, schema: self.schema@ }
    }
}

impl DocumentRoot {
    /// The root node of the document.
    pub fn schema(self) -> (r: Schema)
        ensures
            r == self.schema,
    {
        self.schema
    }
}

/// The value of a node holds the values of its declared properties, in
/// their order.
pub proof fn lemma_children_view(schema: Schema)
    ensures
        schema@.children == children_view(schema.children),
{
    match schema.children {
        Some(list) => {
            lemma_view_prefix(list.entries@, list.entries@.len());
            assert(schema@.children->0 =~= Schema::view_entries(list.entries@));
        },
        None => {},
    }
}

/// The value of an optional list of declared properties.
pub open spec fn children_view(children: Option<SchemaList>) -> Option<Seq<NamedSchemaModel>> {
    match children {
        Some(list) => Some(list@),
        None => None,
    }
}

/// The value of an optional pair of key and value schemas.
pub open spec fn dynamic_view(dynamic: Option<Box<KeysValues>>) -> Option<Box<KeysValuesModel>> {
    match dynamic {
        Some(pair) => Some(Box::new(KeysValuesModel { keys: pair.keys@, values: pair.values@ })),
        None => None,
    }
}

/// The value of an optional enumeration.
pub open spec fn enumeration_view(enumeration: Option<EnumerationValues>) -> Option<
    Seq<EnumerationValueModel>,
> {
    match enumeration {
        Some(values) => Some(values@),
        None => None,
    }
}

/// The mathematical value of the outcome of a stage: the value of what it
/// produced, or the error as it is.
pub open spec fn view_result<T: View>(r: Result<T, CompilationError>) -> Result<
    T::V,
    CompilationError,
> {
    match r {
        Ok(value) => Ok(value@),
        Err(e) => Err(e),
    }
}

} // verus!
