//! Document trees: mappings, sequences and scalars.

use vstd::prelude::*;
use vstd::string::*;

verus! {

/// A generic document tree: the shape shared by every textual encoding that
/// the schema language can be written in, and by the documents that the
/// library produces.
#[derive(Debug, PartialEq, Eq)]
pub enum Node {
    /// The absent value.
    Null,
    /// A truth value.
    Bool(bool),
    /// A non-negative whole number.
    Unsigned(u64),
    /// A whole number below zero.
    Negative(i64),
    /// A number with a fractional part or an exponent, kept as its JSON text.
    Real(String),
    /// A string.
    Text(String),
    /// An ordered list of trees.
    Sequence(Vec<Node>),
    /// An ordered list of key/value entries.
    Mapping(Vec<Entry>),
}

/// One key/value entry of a mapping.
#[derive(Debug, PartialEq, Eq)]
pub struct Entry {
    pub key: Node,
    pub value: Node,
}

/// The mathematical value of a [`Node`].
pub enum Tree {
    Null,
    Bool(bool),
    Unsigned(u64),
    Negative(i64),
    Real(Seq<char>),
    Text(Seq<char>),
    Sequence(Seq<Tree>),
    Mapping(Seq<(Tree, Tree)>),
}

impl Node {
    /// The values of a list of trees, item by item.
    pub open spec fn view_items(items: Seq<Node>) -> Seq<Tree>
        decreases items,
    {
        Seq::new(
            items.len(),
            |i: int|
                if 0 <= i < items.len() {
                    items[i].view()
                } else {
                    Tree::Null
                },
        )
    }

    /// The values of a list of entries, entry by entry.
    pub open spec fn view_entries(entries: Seq<Entry>) -> Seq<(Tree, Tree)>
        decreases entries,
    {
        Seq::new(
            entries.len(),
            |i: int|
                if 0 <= i < entries.len() {
                    (entries[i].key.view(), entries[i].value.view())
                } else {
                    (Tree::Null, Tree::Null)
                },
        )
    }
}

impl View for Node {
    type V = Tree;

    open spec fn view(&self) -> Tree
        decreases self,
    {
        match self {
            Node::Null => Tree::Null,
            Node::Bool(b) => Tree::Bool(*b),
            Node::Unsigned(n) => Tree::Unsigned(*n),
            Node::Negative(n) => Tree::Negative(*n),
            Node::Real(t) => Tree::Real(t@),
            Node::Text(t) => Tree::Text(t@),
            Node::Sequence(items) => Tree::Sequence(Node::view_items(items@)),
            Node::Mapping(entries) => Tree::Mapping(Node::view_entries(entries@)),
        }
    }
}

/// The place of the first entry, at or after `from`, whose key is the string
/// `key`; the number of entries where there is none.
pub open spec fn position_from(entries: Seq<(Tree, Tree)>, key: Seq<char>, from: int) -> int
    decreases entries.len() - from,
{
    if from < 0 || from >= entries.len() {
        entries.len() as int
    } else if entries[from].0 == Tree::Text(key) {
        from
    } else {
        position_from(entries, key, from + 1)
    }
}

/// The place of the first entry whose key is the string `key`; the number of
/// entries where there is none.
pub open spec fn position(entries: Seq<(Tree, Tree)>, key: Seq<char>) -> int {
    position_from(entries, key, 0)
}

/// The value of the first entry whose key is the string `key`, if there is
/// such an entry.
pub open spec fn lookup(entries: Seq<(Tree, Tree)>, key: Seq<char>) -> Option<Tree> {
    let p = position(entries, key);
    if 0 <= p < entries.len() {
        Some(entries[p].1)
    } else {
        None
    }
}

/// A position is a valid place or the number of entries, and the entry at a
/// valid place has the key that was asked for.
pub proof fn lemma_position_from(entries: Seq<(Tree, Tree)>, key: Seq<char>, from: int)
    requires
        0 <= from <= entries.len(),
    ensures
        from <= position_from(entries, key, from) <= entries.len(),
        position_from(entries, key, from) < entries.len() ==> entries[position_from(
            entries,
            key,
            from,
        )].0 == Tree::Text(key),
    decreases entries.len() - from,
{
    if from < entries.len() && entries[from].0 != Tree::Text(key) {
        lemma_position_from(entries, key, from + 1);
    }
}

/// Whether two strings hold the same characters.
pub fn same_text(a: &str, b: &str) -> (r: bool)
    ensures
        r == (a@ == b@),
{
    let left = a.to_owned();
    let right = b.to_owned();
    left == right
}

/// Finds the first entry whose key is the string `key`. The result is that
/// entry's place, or the number of entries where there is none.
pub fn find(entries: &Vec<Entry>, key: &str) -> (r: usize)
    ensures
        r == position(Node::view_entries(entries@), key@),
        r <= entries@.len(),
        r < entries@.len() ==> entries@[r as int].key@ == Tree::Text(key@),
{
    let ghost trees = Node::view_entries(entries@);
    let mut i: usize = 0;
    while i < entries.len()
        invariant
            i <= entries.len(),
            trees == Node::view_entries(entries@),
            position(trees, key@) == position_from(trees, key@, i as int),
        decreases entries.len() - i,
    {
        match &entries[i].key {
            Node::Text(s) => {
                if same_text(s.as_str(), key) {
                    return i;
                }
            },
            _ => {},
        }
        i += 1;
    }
    i
}

/// Reads the value of the first entry whose key is the string `key`.
pub fn get<'a>(entries: &'a Vec<Entry>, key: &str) -> (r: Option<&'a Node>)
    ensures
        r is Some <==> lookup(Node::view_entries(entries@), key@) is Some,
        r matches Some(node) ==> lookup(Node::view_entries(entries@), key@) == Some(node@),
{
    let i = find(entries, key);
    if i < entries.len() {
        Some(&entries[i].value)
    } else {
        None
    }
}

/// The place that an entry has after another entry was put in at place `at`.
pub open spec fn shifted(place: int, at: int) -> int {
    if place < at {
        place
    } else {
        place + 1
    }
}

/// Putting in an entry under another key moves the entries behind it by one
/// place, and moves no key's first entry before or behind another.
pub proof fn lemma_position_from_insert(
    entries: Seq<(Tree, Tree)>,
    key: Seq<char>,
    at: int,
    added: (Tree, Tree),
    from: int,
)
    requires
        0 <= at <= entries.len(),
        0 <= from <= entries.len(),
        added.0 != Tree::Text(key),
    ensures
        position_from(entries.insert(at, added), key, shifted(from, at)) == shifted(
            position_from(entries, key, from),
            at,
        ),
    decreases entries.len() - from,
{
    let longer = entries.insert(at, added);
    assert(longer.len() == entries.len() + 1);
    assert(longer[at] == added);
    if from < entries.len() {
        assert(longer[shifted(from, at)] == entries[from]);
        if entries[from].0 != Tree::Text(key) {
            lemma_position_from_insert(entries, key, at, added, from + 1);
            if from + 1 == at {
                assert(position_from(longer, key, at) == position_from(longer, key, at + 1));
            }
        }
    }
}

/// Putting in an entry under another key changes no lookup: a key is found
/// as before, one place further where the new entry stands before it, and
/// with the same value.
pub proof fn lemma_lookup_insert(
    entries: Seq<(Tree, Tree)>,
    key: Seq<char>,
    at: int,
    added: (Tree, Tree),
)
    requires
        0 <= at <= entries.len(),
        added.0 != Tree::Text(key),
    ensures
        position(entries.insert(at, added), key) == shifted(position(entries, key), at),
        lookup(entries.insert(at, added), key) == lookup(entries, key),
        0 <= position(entries, key) <= entries.len(),
{
    let longer = entries.insert(at, added);
    lemma_position_from_insert(entries, key, at, added, 0);
    lemma_position_from(entries, key, 0);
    assert(longer[at] == added);
    if at == 0 {
        assert(position_from(longer, key, 0) == position_from(longer, key, 1));
    }
    let p = position(entries, key);
    if p < entries.len() {
        assert(longer[shifted(p, at)] == entries[p]);
    }
}

/// Where a key is absent, an entry put in under that key is the one found.
pub proof fn lemma_position_insert_absent(
    entries: Seq<(Tree, Tree)>,
    key: Seq<char>,
    at: int,
    value: Tree,
    from: int,
)
    requires
        0 <= from <= at <= entries.len(),
        position_from(entries, key, from) == entries.len(),
    ensures
        position_from(entries.insert(at, (Tree::Text(key), value)), key, from) == at,
    decreases at - from,
{
    let longer = entries.insert(at, (Tree::Text(key), value));
    assert(longer.len() == entries.len() + 1);
    assert(longer[at] == (Tree::Text(key), value));
    if from < at {
        assert(longer[from] == entries[from]);
        lemma_position_from(entries, key, from + 1);
        lemma_position_insert_absent(entries, key, at, value, from + 1);
    }
}

} // verus!
