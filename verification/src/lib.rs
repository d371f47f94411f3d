//! A compiler from a compact schema language to JSON Schema, Draft 4, with
//! the display metadata that a form renderer needs.
//!
//! A schema is written as a tree of mappings, sequences and scalars
//! ([`tree::Node`]). A node of a schema is a mapping, read by these keys:
//!
//! - `version`: only at the root it has a meaning; where it is written it
//!   must be `1`.
//! - `type`: the name of a kind (`object`, `array`, `boolean`, `integer`,
//!   `number`, `string`, `text`, `password`), with `?` behind it where a
//!   value need not be given. A node without it is a required object.
//! - `minLength`, `maxLength`: limits of a string-like kind.
//! - `title`, `help`, `warning`, `description`, `widget`: display metadata.
//!   A widget is `default`, `textarea` or `dropdown`; a `text` node always
//!   has the text area.
//! - `properties`: a sequence of single-entry mappings, each the name of a
//!   property and its schema. Their order is the order of the output.
//! - `keys`, `values`: the schemas of the keys and of the values of a node
//!   whose keys cannot be listed.
//! - `enum`: a sequence of allowed values, each a bare string or a mapping
//!   with `value`, display metadata and, if it differs, a `type`.
//! - `formula`: a string, or any value, which is kept as its JSON text.
//!
//! Compiling runs four stages, each of which ends the compilation with its
//! first failure: [`deserialization`] reads the tree into a written
//! document; [`lifting`] and [`normalization`] make of it a compiled
//! document in which every property has at least one candidate type;
//! [`validation`] checks its consistency; [`serialization`] writes the
//! output document, again as a tree. [`compiler::compile`] runs them in
//! turn, and [`json`] gives a tree its JSON text.
//!
//! Every function states what it returns over the mathematical value of its
//! arguments, the view of each data type, and Verus checks the statement
//! against the code.

pub mod annotations;
pub mod compiler;
pub mod deserialization;
pub mod enums;
pub mod error;
pub mod json;
pub mod lifting;
pub mod normalization;
pub mod object_types;
pub mod schema;
pub mod serialization;
pub mod source;
pub mod tree;
pub mod validation;
