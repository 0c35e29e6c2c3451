//! Scene descriptions as trees of values.
//!
//! A description is written in YAML.  The text is read by the `yaml_rust`
//! crate; what it finds is held here as a [`Node`], a tree of plain values,
//! on which the rest of the crate works.
use vstd::prelude::*;
use vstd::string::StringExecFns;

use yaml_rust::{ScanError, Yaml, YamlLoader};

verus! {

/// The error with which `yaml_rust` rejects a text that is not YAML.
#[verifier::external_type_specification]
#[verifier::external_body]
pub struct ExScanError(ScanError);

/// A value as `yaml_rust` holds it.
#[verifier::external_type_specification]
#[verifier::external_body]
pub struct ExYaml(Yaml);

/// One value of a description.  A real number is held as it was written.
/// A mapping is held as its entries, in the order of the text.
#[derive(Debug)]
pub enum Node {
    Real(String),
    Integer(i64),
    Text(String),
    Boolean(bool),
    Array(Vec<Node>),
    Hash(Vec<(Node, Node)>),
    Alias(usize),
    Null,
    BadValue,
}

/// The documents that `yaml_rust` reads from a text, each as a tree; `None`
/// for a text that it rejects.
pub uninterp spec fn yaml_documents(source: Seq<char>) -> Option<Seq<Node>>;

/// Rewrites one value of `yaml_rust` as a tree of the crate's own: variant by
/// variant, with the entries of a mapping in its own order.
#[verifier::external_body]
fn node_of(y: &Yaml) -> Node {
    match y {
        Yaml::Real(s) => Node::Real(s.clone()),
        Yaml::Integer(i) => Node::Integer(*i),
        Yaml::String(s) => Node::Text(s.clone()),
        Yaml::Boolean(b) => Node::Boolean(*b),
        Yaml::Array(v) => Node::Array(v.iter().map(node_of).collect()),
        Yaml::Hash(h) => Node::Hash(h.iter().map(|(k, v)| (node_of(k), node_of(v))).collect()),
        Yaml::Alias(a) => Node::Alias(*a),
        Yaml::Null => Node::Null,
        Yaml::BadValue => Node::BadValue,
    }
}

/// `YamlLoader::load_from_str`: the documents of a text, or the scanner's
/// error.  The contract claims only that the outcome is a function of the
/// text, and gives that function its name.
#[verifier::external_body]
pub(crate) fn load_documents(source: &str) -> (r: Result<Vec<Node>, ScanError>)
    ensures
        yaml_documents(source@) == (match r {
            Ok(docs) => Some(docs@),
            Err(_) => None,
        }),
{
    let docs = YamlLoader::load_from_str(source)?;
    Ok(docs.iter().map(node_of).collect())
}

/// Whether an entry's key is the text `key`.
pub open spec fn has_key(entry: (Node, Node), key: Seq<char>) -> bool {
    entry.0 matches Node::Text(k) && k@ == key
}

/// The index of the first entry of `h`, from `start` on, whose key is the
/// text `key`.
pub open spec fn lookup_from(h: Seq<(Node, Node)>, key: Seq<char>, start: int) -> Option<int>
    decreases h.len() - start,
{
    if start < 0 || start >= h.len() {
        None
    } else if has_key(h[start], key) {
        Some(start)
    } else {
        lookup_from(h, key, start + 1)
    }
}

/// The index of the first entry of `h` whose key is the text `key`.
pub open spec fn lookup(h: Seq<(Node, Node)>, key: Seq<char>) -> Option<int> {
    lookup_from(h, key, 0)
}

/// What `lookup_from` finds is an entry with that key, and no entry between
/// `start` and it has the key.
pub proof fn lemma_lookup_from(h: Seq<(Node, Node)>, key: Seq<char>, start: int)
    requires
        0 <= start,
    ensures
        match lookup_from(h, key, start) {
            Some(i) => {
                &&& start <= i < h.len()
                &&& has_key(h[i], key)
                &&& forall|j: int| start <= j < i ==> !has_key(#[trigger] h[j], key)
            },
            None => forall|j: int| start <= j < h.len() ==> !has_key(#[trigger] h[j], key),
        },
    decreases h.len() - start,
{
    if start < h.len() && !has_key(h[start], key) {
        lemma_lookup_from(h, key, start + 1);
    }
}

/// The index of the first entry of `h` whose key is the text `key`.
pub fn find(h: &Vec<(Node, Node)>, key: &str) -> (r: Option<usize>)
    ensures
        r is Some <==> lookup(h@, key@) is Some,
        r matches Some(i) ==> lookup(h@, key@) == Some(i as int) && i < h.len(),
{
    let wanted = String::from_str(key);
    let mut i: usize = 0;
    while i < h.len()
        invariant
            i <= h.len(),
            wanted@ == key@,
            lookup(h@, key@) == lookup_from(h@, key@, i as int),
        decreases h.len() - i,
    {
        match &h[i].0 {
            Node::Text(k) => {
                if *k == wanted {
                    return Some(i);
                }
            },
            _ => {},
        }
        i += 1;
    }
    None
}

} // verus!
