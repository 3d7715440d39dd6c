//! Document trees. A [`Node`] is a node of a parsed JSON or YAML document;
//! its view, a [`Json`], is the mathematical tree that contracts speak of.
//! An object keeps its entries in the order of the document, and a key is
//! looked up by its first entry.

use vstd::prelude::*;
use crate::text::str_eq;

verus! {

/// The mathematical model of a document node.
pub enum Json {
    Null,
    Bool(bool),
    /// A number, by its literal text.
    Number(Seq<char>),
    Text(Seq<char>),
    Array(Seq<Json>),
    /// The entries of an object, in document order.
    Object(Seq<(Seq<char>, Json)>),
}

/// The index of the first entry whose key is `key`.
pub open spec fn find_key(entries: Seq<(Seq<char>, Json)>, key: Seq<char>) -> Option<int>
    decreases entries.len(),
{
    if entries.len() == 0 {
        None
    } else if entries.first().0 == key {
        Some(0)
    } else {
        match find_key(entries.drop_first(), key) {
            Some(i) => Some(i + 1),
            None => None,
        }
    }
}

/// The value of the first entry whose key is `key`.
pub open spec fn lookup(entries: Seq<(Seq<char>, Json)>, key: Seq<char>) -> Option<Json> {
    match find_key(entries, key) {
        Some(i) => Some(entries[i].1),
        None => None,
    }
}

impl Json {
    /// The truth value, if the node is a boolean.
    pub open spec fn as_bool(self) -> Option<bool> {
        match self {
            Json::Bool(b) => Some(b),
            _ => None,
        }
    }

    /// The characters, if the node is a string.
    pub open spec fn as_str(self) -> Option<Seq<char>> {
        match self {
            Json::Text(s) => Some(s),
            _ => None,
        }
    }

    /// The elements, if the node is an array.
    pub open spec fn as_array(self) -> Option<Seq<Json>> {
        match self {
            Json::Array(items) => Some(items),
            _ => None,
        }
    }

    /// The entries, if the node is an object.
    pub open spec fn as_object(self) -> Option<Seq<(Seq<char>, Json)>> {
        match self {
            Json::Object(entries) => Some(entries),
            _ => None,
        }
    }

    /// The member under `key`, if the node is an object that has one.
    pub open spec fn get(self, key: Seq<char>) -> Option<Json> {
        match self {
            Json::Object(entries) => lookup(entries, key),
            _ => None,
        }
    }

    /// The characters of the member under `key`, if that member is a string.
    pub open spec fn get_str(self, key: Seq<char>) -> Option<Seq<char>> {
        match self.get(key) {
            Some(member) => member.as_str(),
            None => None,
        }
    }
}

/// `find_key` returns the first index that holds the key, and `None` means
/// that no entry holds it.
pub proof fn lemma_find_key(entries: Seq<(Seq<char>, Json)>, key: Seq<char>)
    ensures
        match find_key(entries, key) {
            Some(i) => 0 <= i < entries.len() && entries[i].0 == key && forall|j: int|
                0 <= j < i ==> entries[j].0 != key,
            None => forall|j: int| 0 <= j < entries.len() ==> entries[j].0 != key,
        },
    decreases entries.len(),
{
    if entries.len() > 0 && entries.first().0 != key {
        let rest = entries.drop_first();
        lemma_find_key(rest, key);
        match find_key(rest, key) {
            Some(i) => {
                assert forall|j: int| 0 <= j < i + 1 implies entries[j].0 != key by {
                    if j > 0 {
                        assert(rest[j - 1].0 != key);
                    }
                }
            },
            None => {
                assert forall|j: int| 0 <= j < entries.len() implies entries[j].0 != key by {
                    if j > 0 {
                        assert(rest[j - 1].0 != key);
                    }
                }
            },
        }
    }
}

/// The first index that holds the key is what `find_key` returns.
pub proof fn lemma_find_key_first(entries: Seq<(Seq<char>, Json)>, key: Seq<char>, i: int)
    requires
        0 <= i < entries.len(),
        entries[i].0 == key,
        forall|j: int| 0 <= j < i ==> entries[j].0 != key,
    ensures
        find_key(entries, key) == Some(i),
        lookup(entries, key) == Some(entries[i].1),
{
    lemma_find_key(entries, key);
}

/// No entry holds the key exactly when `find_key` returns `None`.
pub proof fn lemma_find_key_none(entries: Seq<(Seq<char>, Json)>, key: Seq<char>)
    requires
        forall|j: int| 0 <= j < entries.len() ==> entries[j].0 != key,
    ensures
        find_key(entries, key) is None,
        lookup(entries, key) is None,
{
    lemma_find_key(entries, key);
}

/// A member of a node is smaller than the node.
pub proof fn lemma_get_decreases(node: Json, key: Seq<char>)
    ensures
        node.get(key) matches Some(member) ==> decreases_to!(node => member),
{
    if let Json::Object(entries) = node {
        lemma_find_key(entries, key);
    }
}

/// A node of a parsed document.
#[derive(Debug, PartialEq)]
pub enum Node {
    Null,
    Bool(bool),
    /// A number, held as its literal text: the library never computes with it.
    Number(String),
    Text(String),
    Array(Vec<Node>),
    /// The entries of an object, in document order.
    Object(Vec<(String, Node)>),
}

/// The views of the elements of an array.
pub open spec fn items_view(items: Seq<Node>) -> Seq<Json>
    decreases items,
{
    Seq::new(
        items.len(),
        |i: int|
            if 0 <= i < items.len() {
                items[i].view()
            } else {
                Json::Null
            },
    )
}

/// The views of the entries of an object or of an argument list.
pub open spec fn entries_view(entries: Seq<(String, Node)>) -> Seq<(Seq<char>, Json)>
    decreases entries,
{
    Seq::new(
        entries.len(),
        |i: int|
            if 0 <= i < entries.len() {
                (entries[i].0@, entries[i].1.view())
            } else {
                (Seq::empty(), Json::Null)
            },
    )
}

impl View for Node {
    type V = Json;

    open spec fn view(&self) -> Json
        decreases self,
    {
        match self {
            Node::Null => Json::Null,
            Node::Bool(b) => Json::Bool(*b),
            Node::Number(n) => Json::Number(n@),
            Node::Text(s) => Json::Text(s@),
            Node::Array(items) => Json::Array(items_view(items@)),
            Node::Object(entries) => Json::Object(entries_view(entries@)),
        }
    }
}

/// An element of an array and the value of an entry of an object are smaller
/// than the array and the object.
pub proof fn lemma_child_decreases(node: Node)
    ensures
        node matches Node::Array(items) ==> forall|i: int|
            0 <= i < items.len() ==> decreases_to!(node => #[trigger] items@[i]),
        node matches Node::Object(entries) ==> forall|i: int|
            0 <= i < entries.len() ==> decreases_to!(node => (#[trigger] entries@[i]).1),
{
    match node {
        Node::Array(items) => {
            assert forall|i: int| 0 <= i < items.len() implies decreases_to!(node => #[trigger] items@[i]) by {
                assert(decreases_to!(node => node->Array_0));
                assert(decreases_to!(items => items@));
                assert(decreases_to!(items@ => items@[i]));
            }
        },
        Node::Object(entries) => {
            assert forall|i: int| 0 <= i < entries.len() implies decreases_to!(node => (#[trigger] entries@[i]).1) by {
                assert(decreases_to!(node => node->Object_0));
                assert(decreases_to!(entries => entries@));
                assert(decreases_to!(entries@ => entries@[i]));
                assert(decreases_to!(entries@[i] => entries@[i].1));
            }
        },
        _ => {},
    }
}

/// Finds the first entry whose key is `key`.
pub fn find_entry(entries: &Vec<(String, Node)>, key: &str) -> (r: Option<usize>)
    ensures
        match r {
            Some(i) => i < entries.len() && find_key(entries_view(entries@), key@) == Some(i as int),
            None => find_key(entries_view(entries@), key@) is None,
        },
{
    let mut i: usize = 0;
    while i < entries.len()
        invariant
            i <= entries.len(),
            forall|j: int| 0 <= j < i ==> entries_view(entries@)[j].0 != key@,
        decreases entries.len() - i,
    {
        if str_eq(entries[i].0.as_str(), key) {
            proof {
                lemma_find_key_first(entries_view(entries@), key@, i as int);
            }
            return Some(i);
        }
        i = i + 1;
    }
    proof {
        lemma_find_key_none(entries_view(entries@), key@);
    }
    None
}

/// The value of the first entry whose key is `key`.
pub fn lookup_entry<'a>(entries: &'a Vec<(String, Node)>, key: &str) -> (r: Option<&'a Node>)
    ensures
        match r {
            Some(v) => lookup(entries_view(entries@), key@) == Some(v@),
            None => lookup(entries_view(entries@), key@) is None,
        },
{
    match find_entry(entries, key) {
        Some(i) => Some(&entries[i].1),
        None => None,
    }
}

impl Node {
    /// The truth value, if the node is a boolean.
    pub fn as_bool(&self) -> (r: Option<bool>)
        ensures
            r == self@.as_bool(),
    {
        match self {
            Node::Bool(b) => Some(*b),
            _ => None,
        }
    }

    /// The string, if the node is one.
    pub fn as_str(&self) -> (r: Option<&str>)
        ensures
            match r {
                Some(s) => self@.as_str() == Some(s@),
                None => self@.as_str() is None,
            },
    {
        match self {
            Node::Text(s) => Some(s.as_str()),
            _ => None,
        }
    }

    /// The elements, if the node is an array.
    pub fn as_array(&self) -> (r: Option<&Vec<Node>>)
        ensures
            match r {
                Some(items) => *self == Node::Array(*items) && self@.as_array() == Some(
                    items_view(items@),
                ),
                None => self@.as_array() is None,
            },
    {
        match self {
            Node::Array(items) => Some(items),
            _ => None,
        }
    }

    /// The entries, if the node is an object.
    pub fn as_object(&self) -> (r: Option<&Vec<(String, Node)>>)
        ensures
            match r {
                Some(entries) => *self == Node::Object(*entries) && self@.as_object() == Some(
                    entries_view(entries@),
                ),
                None => self@.as_object() is None,
            },
    {
        match self {
            Node::Object(entries) => Some(entries),
            _ => None,
        }
    }

    /// Tells whether the node is an object.
    pub fn is_object(&self) -> (r: bool)
        ensures
            r == (self@ is Object),
    {
        match self {
            Node::Object(_) => true,
            _ => false,
        }
    }

    /// The member under `key`, if the node is an object that has one. The
    /// member is a part of the node, and so smaller than it.
    pub fn get(&self, key: &str) -> (r: Option<&Node>)
        ensures
            match r {
                Some(member) => self@.get(key@) == Some(member@) && decreases_to!(self => member),
                None => self@.get(key@) is None,
            },
    {
        match self {
            Node::Object(entries) => match find_entry(entries, key) {
                Some(i) => {
                    proof {
                        lemma_child_decreases(*self);
                    }
                    Some(&entries[i].1)
                },
                None => None,
            },
            _ => None,
        }
    }

    /// The string under `key`, if the node is an object whose member under
    /// that key is a string.
    pub fn get_str(&self, key: &str) -> (r: Option<&str>)
        ensures
            match r {
                Some(s) => self@.get_str(key@) == Some(s@),
                None => self@.get_str(key@) is None,
            },
    {
        match self.get(key) {
            Some(member) => member.as_str(),
            None => None,
        }
    }
}

impl Clone for Node {
    /// A copy of the whole tree.
    fn clone(&self) -> (r: Node)
        ensures
            r@ == self@,
        decreases self,
    {
        match self {
            Node::Null => Node::Null,
            Node::Bool(b) => Node::Bool(*b),
            Node::Number(n) => Node::Number(n.clone()),
            Node::Text(s) => Node::Text(s.clone()),
            Node::Array(items) => {
                let mut copy: Vec<Node> = Vec::new();
                let mut i: usize = 0;
                while i < items.len()
                    invariant
                        i <= items.len(),
                        copy.len() == i,
                        *self == Node::Array(*items),
                        forall|j: int| 0 <= j < i ==> copy@[j]@ == items@[j]@,
                    decreases items.len() - i,
                {
                    proof {
                        assert(self->Array_0 == *items);
                        lemma_child_decreases(*self);
                        assert(decreases_to!(self => items@[i as int]));
                    }
                    copy.push(items[i].clone());
                    i = i + 1;
                }
                proof {
                    assert(items_view(copy@) =~= items_view(items@));
                }
                Node::Array(copy)
            },
            Node::Object(entries) => {
                let mut copy: Vec<(String, Node)> = Vec::new();
                let mut i: usize = 0;
                while i < entries.len()
                    invariant
                        i <= entries.len(),
                        copy.len() == i,
                        *self == Node::Object(*entries),
                        forall|j: int|
                            0 <= j < i ==> copy@[j].0@ == entries@[j].0@ && copy@[j].1@
                                == entries@[j].1@,
                    decreases entries.len() - i,
                {
                    proof {
                        assert(self->Object_0 == *entries);
                        lemma_child_decreases(*self);
                        assert(decreases_to!(self => entries@[i as int].1));
                    }
                    copy.push((entries[i].0.clone(), entries[i].1.clone()));
                    i = i + 1;
                }
                proof {
                    assert(entries_view(copy@) =~= entries_view(entries@));
                }
                Node::Object(copy)
            },
        }
    }
}

} // verus!
