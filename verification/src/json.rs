//! The compact JSON text of a document tree.

use crate::tree::{Entry, Node, Tree};
use vstd::prelude::*;
use vstd::string::*;

verus! {

/// The JSON string literal that `serde_json` writes for the string `s`:
/// the string between double quotes, with its escapes.
pub uninterp spec fn json_string_text(s: Seq<char>) -> Seq<char>;

/// The decimal digit for a value below ten.
pub open spec fn digit(d: nat) -> char {
    if d == 0 {
        '0'
    } else if d == 1 {
        '1'
    } else if d == 2 {
        '2'
    } else if d == 3 {
        '3'
    } else if d == 4 {
        '4'
    } else if d == 5 {
        '5'
    } else if d == 6 {
        '6'
    } else if d == 7 {
        '7'
    } else if d == 8 {
        '8'
    } else {
        '9'
    }
}

/// The decimal digits of `n`, without leading zeros.
pub open spec fn decimal_text(n: nat) -> Seq<char>
    decreases n,
{
    if n < 10 {
        seq![digit(n)]
    } else {
        decimal_text(n / 10).push(digit(n % 10))
    }
}

/// The decimal text of a whole number, with a minus sign below zero.
pub open spec fn signed_text(n: int) -> Seq<char> {
    if n < 0 {
        seq!['-'] + decimal_text((-n) as nat)
    } else {
        decimal_text(n as nat)
    }
}

/// The JSON text of a truth value.
pub open spec fn bool_text(b: bool) -> Seq<char> {
    if b {
        "true"@
    } else {
        "false"@
    }
}

/// A text between double quotes.
pub open spec fn quoted(s: Seq<char>) -> Seq<char> {
    "\""@ + s + "\""@
}

/// Whether a tree can stand as the key of a JSON object: scalars other than
/// null can, as strings; null and the two containers cannot.
pub open spec fn key_encodable(k: Tree) -> bool {
    !(k is Null || k is Sequence || k is Mapping)
}

/// The JSON text of an object key.
pub open spec fn json_key_text(k: Tree) -> Seq<char> {
    match k {
        Tree::Text(s) => json_string_text(s),
        Tree::Bool(b) => quoted(bool_text(b)),
        Tree::Unsigned(n) => quoted(decimal_text(n as nat)),
        Tree::Negative(n) => quoted(signed_text(n as int)),
        Tree::Real(t) => quoted(t),
        _ => Seq::empty(),
    }
}

/// Whether a tree has a JSON text: every key in it, at any depth, must be
/// encodable as an object key.
pub open spec fn encodable(t: Tree) -> bool
    decreases t,
{
    match t {
        Tree::Sequence(items) => forall|i: int|
            0 <= i < items.len() ==> encodable(#[trigger] items[i]),
        Tree::Mapping(entries) => forall|i: int|
            0 <= i < entries.len() ==> key_encodable((#[trigger] entries[i]).0) && encodable(
                entries[i].1,
            ),
        _ => true,
    }
}

/// Every item of an encodable sequence is encodable.
pub proof fn lemma_sequence_item_encodable(items: Seq<Tree>, i: int)
    requires
        0 <= i < items.len(),
        encodable(Tree::Sequence(items)),
    ensures
        encodable(items[i]),
{
    assert(Tree::Sequence(items)->Sequence_0 == items);
}

/// Every entry of an encodable mapping has an encodable key and value.
pub proof fn lemma_mapping_entry_encodable(entries: Seq<(Tree, Tree)>, i: int)
    requires
        0 <= i < entries.len(),
        encodable(Tree::Mapping(entries)),
    ensures
        key_encodable(entries[i].0),
        encodable(entries[i].1),
{
    assert(Tree::Mapping(entries)->Mapping_0 == entries);
}

/// The compact JSON text of a tree.
pub open spec fn json_text(t: Tree) -> Seq<char>
    decreases t, 0nat,
{
    match t {
        Tree::Null => "null"@,
        Tree::Bool(b) => bool_text(b),
        Tree::Unsigned(n) => decimal_text(n as nat),
        Tree::Negative(n) => signed_text(n as int),
        Tree::Real(text) => text,
        Tree::Text(s) => json_string_text(s),
        Tree::Sequence(items) => "["@ + json_items(items, items.len()) + "]"@,
        Tree::Mapping(entries) => "{"@ + json_entries(entries, entries.len()) + "}"@,
    }
}

/// The JSON texts of the first `n` items, separated by commas.
pub open spec fn json_items(items: Seq<Tree>, n: nat) -> Seq<char>
    decreases items, n,
{
    if n == 0 || n > items.len() {
        Seq::empty()
    } else if n == 1 {
        json_text(items[0])
    } else {
        json_items(items, (n - 1) as nat) + ","@ + json_text(items[n - 1])
    }
}

/// The JSON text of one entry of an object: key, colon, value.
pub open spec fn json_entry(entries: Seq<(Tree, Tree)>, i: int) -> Seq<char>
    recommends
        0 <= i < entries.len(),
    decreases entries, 0nat,
{
    if 0 <= i < entries.len() {
        json_key_text(entries[i].0) + ":"@ + json_text(entries[i].1)
    } else {
        Seq::empty()
    }
}

/// The JSON texts of the first `n` entries, separated by commas.
pub open spec fn json_entries(entries: Seq<(Tree, Tree)>, n: nat) -> Seq<char>
    decreases entries, n,
{
    if n == 0 || n > entries.len() {
        Seq::empty()
    } else if n == 1 {
        json_entry(entries, 0)
    } else {
        json_entries(entries, (n - 1) as nat) + ","@ + json_entry(entries, n - 1)
    }
}

/// `serde_json::to_string` on a string slice. It writes the string as a JSON
/// string literal, and it has no way to fail on a string: the result is
/// always there, and is the text that [`json_string_text`] names.
#[verifier::external_body]
fn string_literal(s: &str) -> (r: Option<String>)
    ensures
        r is Some,
        r matches Some(t) ==> t@ == json_string_text(s@),
{
    serde_json::to_string(s).ok()
}

/// `serde_json::to_string` on a `u64`. It writes the decimal digits of the
/// number and has no way to fail on an integer.
#[verifier::external_body]
fn unsigned_literal(n: u64) -> (r: Option<String>)
    ensures
        r is Some,
        r matches Some(t) ==> t@ == decimal_text(n as nat),
{
    serde_json::to_string(&n).ok()
}

/// `serde_json::to_string` on an `i64`. It writes the decimal digits of the
/// number, after a minus sign where it is below zero, and has no way to fail
/// on an integer.
#[verifier::external_body]
fn signed_literal(n: i64) -> (r: Option<String>)
    ensures
        r is Some,
        r matches Some(t) ==> t@ == signed_text(n as int),
{
    serde_json::to_string(&n).ok()
}

fn bool_literal(b: bool) -> (r: String)
    ensures
        r@ == bool_text(b),
{
    if b {
        "true".to_owned()
    } else {
        "false".to_owned()
    }
}

fn quote(s: &str) -> (r: String)
    ensures
        r@ == quoted(s@),
{
    let mut out = "\"".to_owned();
    out.append(s);
    out.append("\"");
    out
}

/// Writes the key of a JSON object, or nothing where the tree cannot be one.
pub fn encode_key(key: &Node) -> (r: Option<String>)
    ensures
        r is Some <==> key_encodable(key@),
        r matches Some(t) ==> t@ == json_key_text(key@),
{
    match key {
        Node::Text(s) => string_literal(s.as_str()),
        Node::Bool(b) => {
            let text = bool_literal(*b);
            Some(quote(text.as_str()))
        },
        Node::Unsigned(n) => match unsigned_literal(*n) {
            Some(text) => Some(quote(text.as_str())),
            None => None,
        },
        Node::Negative(n) => match signed_literal(*n) {
            Some(text) => Some(quote(text.as_str())),
            None => None,
        },
        Node::Real(t) => Some(quote(t.as_str())),
        _ => None,
    }
}

/// Writes a tree as compact JSON text. The result is there exactly when the
/// tree is [`encodable`], and is then the text that [`json_text`] gives.
pub fn encode(node: &Node) -> (r: Option<String>)
    ensures
        r is Some <==> encodable(node@),
        r matches Some(t) ==> t@ == json_text(node@),
    decreases node, 0nat,
{
    match node {
        Node::Null => Some("null".to_owned()),
        Node::Bool(b) => Some(bool_literal(*b)),
        Node::Unsigned(n) => unsigned_literal(*n),
        Node::Negative(n) => signed_literal(*n),
        Node::Real(t) => Some(t.clone()),
        Node::Text(s) => string_literal(s.as_str()),
        Node::Sequence(items) => {
            match encode_items(items) {
                Some(inner) => {
                    let mut out = "[".to_owned();
                    out.append(inner.as_str());
                    out.append("]");
                    Some(out)
                },
                None => None,
            }
        },
        Node::Mapping(entries) => {
            match encode_entries(entries) {
                Some(inner) => {
                    let mut out = "{".to_owned();
                    out.append(inner.as_str());
                    out.append("}");
                    Some(out)
                },
                None => None,
            }
        },
    }
}

fn encode_items(items: &Vec<Node>) -> (r: Option<String>)
    ensures
        r is Some <==> encodable(Tree::Sequence(Node::view_items(items@))),
        r matches Some(t) ==> t@ == json_items(Node::view_items(items@), items@.len()),
    decreases items, 1nat,
{
    let ghost trees = Node::view_items(items@);
    let mut out = String::new();
    let mut i: usize = 0;
    while i < items.len()
        invariant
            i <= items.len(),
            trees == Node::view_items(items@),
            trees.len() == items@.len(),
            forall|j: int| 0 <= j < items@.len() ==> #[trigger] trees[j] == items@[j]@,
            forall|j: int| 0 <= j < i ==> encodable(#[trigger] trees[j]),
            out@ == json_items(trees, i as nat),
        decreases items.len() - i,
    {
        match encode(&items[i]) {
            Some(text) => {
                if i > 0 {
                    out.append(",");
                }
                out.append(text.as_str());
            },
            None => {
                assert(!encodable(trees[i as int]));
                assert(!encodable(Tree::Sequence(trees))) by {
                    if encodable(Tree::Sequence(trees)) {
                        lemma_sequence_item_encodable(trees, i as int);
                    }
                }
                return None;
            },
        }
        i += 1;
    }
    Some(out)
}

fn encode_entries(entries: &Vec<Entry>) -> (r: Option<String>)
    ensures
        r is Some <==> encodable(Tree::Mapping(Node::view_entries(entries@))),
        r matches Some(t) ==> t@ == json_entries(
            Node::view_entries(entries@),
            entries@.len(),
        ),
    decreases entries, 1nat,
{
    let ghost trees = Node::view_entries(entries@);
    let mut out = String::new();
    let mut i: usize = 0;
    while i < entries.len()
        invariant
            i <= entries.len(),
            trees == Node::view_entries(entries@),
            trees.len() == entries@.len(),
            forall|j: int|
                0 <= j < entries@.len() ==> #[trigger] trees[j] == (
                    entries@[j].key@,
                    entries@[j].value@,
                ),
            forall|j: int|
                0 <= j < i ==> key_encodable((#[trigger] trees[j]).0) && encodable(trees[j].1),
            out@ == json_entries(trees, i as nat),
        decreases entries.len() - i,
    {
        let entry = &entries[i];
        let key = match encode_key(&entry.key) {
            Some(text) => text,
            None => {
                assert(!key_encodable(trees[i as int].0));
                assert(!encodable(Tree::Mapping(trees))) by {
                    if encodable(Tree::Mapping(trees)) {
                        lemma_mapping_entry_encodable(trees, i as int);
                    }
                }
                return None;
            },
        };
        let value = match encode(&entry.value) {
            Some(text) => text,
            None => {
                assert(!encodable(trees[i as int].1));
                assert(!encodable(Tree::Mapping(trees))) by {
                    if encodable(Tree::Mapping(trees)) {
                        lemma_mapping_entry_encodable(trees, i as int);
                    }
                }
                return None;
            },
        };
        if i > 0 {
            out.append(",");
        }
        out.append(key.as_str());
        out.append(":");
        out.append(value.as_str());
        assert(out@ == json_entries(trees, (i + 1) as nat)) by {
            assert(json_entry(trees, i as int) == key@ + ":"@ + value@);
        }
        i += 1;
    }
    Some(out)
}

} // verus!
