//! JSON documents as a tree of plain values, read from bytes by `serde_json`.

use vstd::prelude::*;

verus! {

/// What a JSON value is, as far as this library reads it.
#[derive(Debug, PartialEq, Eq)]
pub enum JsonNode {
    Null,
    Bool(bool),
    /// A number; `Some` holds it where it is an integer that fits `u64`.
    Number(Option<u64>),
    Text(String),
    Array(Vec<Json>),
    Object(Vec<Member>),
}

/// One entry of a JSON object.
#[derive(Debug, PartialEq, Eq)]
pub struct Member {
    pub key: String,
    pub value: Json,
}

/// A JSON value together with its compact rendering.
#[derive(Debug, PartialEq, Eq)]
pub struct Json {
    /// The value written out as compact JSON text.
    pub text: String,
    pub node: JsonNode,
}

/// `serde_json::Value`, as it goes from the parser to `tree_of_value`.
/// Nothing is known of a value but the tree that `value_tree` names.
#[verifier::external_type_specification]
#[verifier::external_body]
pub struct ExValue(serde_json::Value);

/// What `serde_json::from_slice` reads from `bytes` as a `serde_json::Value`:
/// `None` where it reports an error, else the value as a tree.
pub uninterp spec fn json_document(bytes: Seq<u8>) -> Option<Json>;

/// The tree that a `serde_json::Value` holds.
pub uninterp spec fn value_tree(v: serde_json::Value) -> Json;

/// Calls `serde_json::from_slice` for a `serde_json::Value`. The contract
/// only names the outcome: an error is `None`, a value is its tree.
#[verifier::external_body]
fn parse_value(bytes: &[u8]) -> (r: Option<serde_json::Value>)
    ensures
        match r {
            Some(v) => json_document(bytes@) == Some(value_tree(v)),
            None => json_document(bytes@).is_none(),
        },
{
    match serde_json::from_slice::<serde_json::Value>(bytes) {
        Ok(v) => Some(v),
        Err(_) => None,
    }
}

/// Copies a `serde_json::Value` into a tree, variant by variant. A number
/// is kept as `Number::as_u64` gives it, each node's text is the value's
/// `Display` form, and an object's members come in the order in which its
/// map iterates.
#[verifier::external_body]
fn tree_of_value(v: &serde_json::Value) -> (r: Json)
    ensures
        r == value_tree(*v),
{
    let node = match v {
        serde_json::Value::Null => JsonNode::Null,
        serde_json::Value::Bool(b) => JsonNode::Bool(*b),
        serde_json::Value::Number(n) => JsonNode::Number(n.as_u64()),
        serde_json::Value::String(s) => JsonNode::Text(s.clone()),
        serde_json::Value::Array(a) => JsonNode::Array(a.iter().map(tree_of_value).collect()),
        serde_json::Value::Object(m) => JsonNode::Object(
            m.iter().map(|(k, x)| Member { key: k.clone(), value: tree_of_value(x) }).collect(),
        ),
    };
    Json { text: v.to_string(), node }
}

/// Whether two strings hold the same characters.
pub fn same_text(a: &str, b: &str) -> (r: bool)
    ensures
        r == (a@ == b@),
{
    let x: String = a.to_owned();
    let y: String = b.to_owned();
    x == y
}

/// The value of the first member named `key`, if there is one.
pub open spec fn find_member(members: Seq<Member>, key: Seq<char>) -> Option<Json>
    decreases members.len(),
{
    if members.len() == 0 {
        None
    } else if members[0].key@ == key {
        Some(members[0].value)
    } else {
        find_member(members.subrange(1, members.len() as int), key)
    }
}

/// Walks the members for the first one named `key`.
pub fn lookup<'m>(members: &'m Vec<Member>, key: &str) -> (r: Option<&'m Json>)
    ensures
        match r {
            Some(j) => find_member(members@, key@) == Some(*j),
            None => find_member(members@, key@).is_none(),
        },
{
    let mut i: usize = 0;
    assert(members@.subrange(0, members@.len() as int) =~= members@);
    while i < members.len()
        invariant
            0 <= i <= members.len(),
            find_member(members@, key@) == find_member(
                members@.subrange(i as int, members@.len() as int),
                key@,
            ),
        decreases members.len() - i,
    {
        let ghost rest = members@.subrange(i as int, members@.len() as int);
        assert(rest[0] == members@[i as int]);
        assert(rest.subrange(1, rest.len() as int) =~= members@.subrange(
            i as int + 1,
            members@.len() as int,
        ));
        if same_text(members[i].key.as_str(), key) {
            return Some(&members[i].value);
        }
        i = i + 1;
    }
    None
}

impl Json {
    /// Reads a JSON document; `None` where the bytes are not one.
    pub fn parse(bytes: &[u8]) -> (r: Option<Json>)
        ensures
            r == json_document(bytes@),
    {
        match parse_value(bytes) {
            Some(v) => Some(tree_of_value(&v)),
            None => None,
        }
    }

    /// The member `key` of an object; `None` for a missing key and for a
    /// value that is no object.
    pub open spec fn spec_get(self, key: Seq<char>) -> Option<Json> {
        match self.node {
            JsonNode::Object(members) => find_member(members@, key),
            _ => None,
        }
    }

    pub fn get(&self, key: &str) -> (r: Option<&Json>)
        ensures
            match r {
                Some(j) => self.spec_get(key@) == Some(*j),
                None => self.spec_get(key@).is_none(),
            },
    {
        match &self.node {
            JsonNode::Object(members) => lookup(members, key),
            _ => None,
        }
    }

    /// The number, where the value is an integer that fits `u64`.
    pub open spec fn spec_as_u64(self) -> Option<u64> {
        match self.node {
            JsonNode::Number(n) => n,
            _ => None,
        }
    }

    pub fn as_u64(&self) -> (r: Option<u64>)
        ensures
            r == self.spec_as_u64(),
    {
        match &self.node {
            JsonNode::Number(n) => *n,
            _ => None,
        }
    }

    /// The characters, where the value is a string.
    pub open spec fn spec_as_str(self) -> Option<Seq<char>> {
        match self.node {
            JsonNode::Text(s) => Some(s@),
            _ => None,
        }
    }

    pub fn as_str(&self) -> (r: Option<&str>)
        ensures
            match r {
                Some(s) => self.spec_as_str() == Some(s@),
                None => self.spec_as_str().is_none(),
            },
    {
        match &self.node {
            JsonNode::Text(s) => Some(s.as_str()),
            _ => None,
        }
    }

    /// The string itself, where the value is one.
    pub open spec fn spec_as_string(self) -> Option<String> {
        match self.node {
            JsonNode::Text(s) => Some(s),
            _ => None,
        }
    }

    /// A copy of the string, where the value is one.
    pub fn as_string(&self) -> (r: Option<String>)
        ensures
            r == self.spec_as_string(),
    {
        match &self.node {
            JsonNode::Text(s) => Some(s.clone()),
            _ => None,
        }
    }

    /// The elements, where the value is an array.
    pub open spec fn spec_as_array(self) -> Option<Seq<Json>> {
        match self.node {
            JsonNode::Array(a) => Some(a@),
            _ => None,
        }
    }

    pub fn as_array(&self) -> (r: Option<&Vec<Json>>)
        ensures
            match r {
                Some(a) => self.spec_as_array() == Some(a@),
                None => self.spec_as_array().is_none(),
            },
    {
        match &self.node {
            JsonNode::Array(a) => Some(a),
            _ => None,
        }
    }

    /// The members, where the value is an object.
    pub open spec fn spec_as_object(self) -> Option<Seq<Member>> {
        match self.node {
            JsonNode::Object(m) => Some(m@),
            _ => None,
        }
    }

    pub fn as_object(&self) -> (r: Option<&Vec<Member>>)
        ensures
            match r {
                Some(m) => self.spec_as_object() == Some(m@),
                None => self.spec_as_object().is_none(),
            },
    {
        match &self.node {
            JsonNode::Object(m) => Some(m),
            _ => None,
        }
    }

    /// The number under `key`, where there is one.
    pub open spec fn spec_num(self, key: Seq<char>) -> Option<u64> {
        match self.spec_get(key) {
            Some(j) => j.spec_as_u64(),
            None => None,
        }
    }

    /// The string under `key` itself, where there is one.
    pub open spec fn spec_param(self, key: Seq<char>) -> Option<String> {
        match self.spec_get(key) {
            Some(j) => j.spec_as_string(),
            None => None,
        }
    }

    /// The string under `key`, where there is one.
    pub open spec fn spec_str(self, key: Seq<char>) -> Option<Seq<char>> {
        match self.spec_get(key) {
            Some(j) => j.spec_as_str(),
            None => None,
        }
    }
}

/// The number under `key` of `map`; `None` where the key is missing or
/// holds no such number.
pub fn get_json_num(map: &Json, key: &str) -> (r: Option<u64>)
    ensures
        r == map.spec_num(key@),
{
    match map.get(key) {
        Some(j) => j.as_u64(),
        None => None,
    }
}

/// The string under `key` of `map`; `None` where the key is missing or
/// holds no string.
pub fn get_json_str<'m>(map: &'m Json, key: &str) -> (r: Option<&'m str>)
    ensures
        match r {
            Some(s) => map.spec_str(key@) == Some(s@),
            None => map.spec_str(key@).is_none(),
        },
{
    match map.get(key) {
        Some(j) => j.as_str(),
        None => None,
    }
}

/// A copy of the string under `key` of `results`; `None` where the key is
/// missing or holds no string.
pub fn get_param(results: &Json, key: &str) -> (r: Option<String>)
    ensures
        r == results.spec_param(key@),
{
    match results.get(key) {
        Some(j) => j.as_string(),
        None => None,
    }
}

} // verus!
