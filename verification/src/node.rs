//! The semi-structured document model.
//!
//! A [`Node`] is the library's own picture of one parsed document: scalars,
//! text, sequences and maps as plain values. The scan of document text is
//! yaml-rust's work behind trusted items; everything from `Node` onward is
//! verified. A numeric scalar arrives as the 64-bit pattern of the IEEE
//! number its text denotes.

use vstd::prelude::*;
use yaml_rust::Yaml;
use crate::text::str_eq;

verus! {

/// One node of a parsed document.
#[derive(Debug, PartialEq)]
pub enum Node {
    /// An explicit null.
    Null,
    /// An absent or ill-formed node.
    Bad,
    Bool(bool),
    Int(i64),
    /// A real scalar, as the bit pattern of the 64-bit IEEE number it
    /// denotes.
    Real(u64),
    Text(String),
    List(Vec<Node>),
    /// Key–value pairs in document order.
    Hash(Vec<(Node, Node)>),
}

/// The value under the first entry whose key is the given text.
pub open spec fn map_get_spec(entries: Seq<(Node, Node)>, key: Seq<char>) -> Option<Node>
    decreases entries.len(),
{
    if entries.len() == 0 {
        None
    } else if entries[0].0 matches Node::Text(s) && s@ == key {
        Some(entries[0].1)
    } else {
        map_get_spec(entries.skip(1), key)
    }
}

fn map_get<'a>(entries: &'a Vec<(Node, Node)>, key: &str, i: usize) -> (r: Option<&'a Node>)
    requires
        i <= entries@.len(),
    ensures
        match r {
            Some(v) => map_get_spec(entries@.skip(i as int), key@) == Some(*v),
            None => map_get_spec(entries@.skip(i as int), key@) is None,
        },
    decreases entries@.len() - i,
{
    if i == entries.len() {
        return None;
    }
    proof {
        assert(entries@.skip(i as int)[0] == entries@[i as int]);
        assert(entries@.skip(i as int).skip(1) =~= entries@.skip(i + 1));
    }
    let hit = match &entries[i].0 {
        Node::Text(s) => str_eq(s.as_str(), key),
        _ => false,
    };
    if hit {
        Some(&entries[i].1)
    } else {
        map_get(entries, key, i + 1)
    }
}

impl Node {
    /// The field a map node holds under a key: the entry's value, or `Bad`
    /// when the key is absent or this node is not a map — field access never
    /// fails, it yields a node that later parsing may reject.
    pub open spec fn field_spec(self, key: Seq<char>) -> Node {
        match self {
            Node::Hash(entries) => match map_get_spec(entries@, key) {
                Some(v) => v,
                None => Node::Bad,
            },
            _ => Node::Bad,
        }
    }

    /// Looks a field up by key; `None` stands for the `Bad` node.
    pub fn get<'a>(&'a self, key: &str) -> (r: Option<&'a Node>)
        ensures
            match r {
                Some(v) => self.field_spec(key@) == *v,
                None => self.field_spec(key@) == Node::Bad,
            },
    {
        match self {
            Node::Hash(entries) => {
                proof {
                    assert(entries@.skip(0) =~= entries@);
                }
                match map_get(entries, key, 0) {
                    Some(v) => Some(v),
                    None => None,
                }
            },
            _ => None,
        }
    }
}

/// yaml-rust's document node, declared so the scan wrappers can hand its
/// values through; the library never looks inside one.
#[verifier::external_type_specification]
#[verifier::external_body]
pub struct ExYaml(yaml_rust::Yaml);

/// What the scan of a text yields: the top-level documents the returned
/// collection holds, or the scan error's message. A pure function of the
/// text: yaml-rust's scanner is deterministic.
pub uninterp spec fn scan_of(code: Seq<char>) -> Result<Seq<Yaml>, Seq<char>>;

/// Relies on `YamlLoader::load_from_str`: the scan of a text into its
/// top-level documents, or the scan error rendered as its message.
#[verifier::external_body]
fn scan_documents(code: &str) -> (r: Result<Vec<Yaml>, String>)
    ensures
        match r {
            Ok(docs) => scan_of(code@) matches Ok(ds) && docs@ == ds,
            Err(m) => scan_of(code@) matches Err(ms) && m@ == ms,
        },
{
    yaml_rust::YamlLoader::load_from_str(code).map_err(|e| e.to_string())
}

/// The library node a scanned document denotes. A pure function of the
/// document value alone.
pub uninterp spec fn node_of(y: Yaml) -> Node;

/// Relies on yaml-rust's `Yaml` data model: each variant is carried over
/// one-for-one into the library's [`Node`]; a `Real` scalar is read through
/// `Yaml::as_f64` and kept as its bit pattern (an unreadable real becomes
/// the zero pattern); an alias is out of scope and becomes `Bad`.
#[verifier::external_body]
fn node_of_yaml(y: &Yaml) -> (r: Node)
    ensures
        r == node_of(*y),
{
    match y {
        Yaml::Real(_) => Node::Real(y.as_f64().map(|v| v.to_bits()).unwrap_or(0)),
        Yaml::Integer(n) => Node::Int(*n),
        Yaml::String(s) => Node::Text(s.clone()),
        Yaml::Boolean(b) => Node::Bool(*b),
        Yaml::Array(a) => Node::List(a.iter().map(node_of_yaml).collect()),
        Yaml::Hash(h) => Node::Hash(h.iter().map(|(k, v)| (node_of_yaml(k), node_of_yaml(v))).collect()),
        Yaml::Alias(_) => Node::Bad,
        Yaml::Null => Node::Null,
        Yaml::BadValue => Node::Bad,
    }
}

/// Keeps the single document of a scan; zero or several top-level documents
/// are refused.
fn single_document(docs: Vec<Yaml>) -> (r: Result<Yaml, ()>)
    ensures
        docs@.len() == 1 ==> r == Ok::<Yaml, ()>(docs@[0]),
        docs@.len() != 1 ==> r is Err,
{
    let mut docs = docs;
    if docs.len() == 1 {
        Ok(docs.remove(0))
    } else {
        Err(())
    }
}

/// The envelope around one document load: scan and shape failures, and the
/// typed conversion's own error.
#[derive(Debug, PartialEq)]
pub enum YamlError<E> {
    /// The text did not scan; the scanner's message.
    ScanError(String),
    /// The text did not hold exactly one top-level document.
    FormatError,
    /// The document scanned but the typed conversion refused it.
    DataError(E),
}

/// Scans a text and keeps its single top-level document as a [`Node`]:
/// a scan failure carries the scanner's message, any count of top-level
/// documents other than one is the format error, and exactly one document
/// yields exactly that document's node.
pub fn load_code<E>(code: &str) -> (r: Result<Node, YamlError<E>>)
    ensures
        match scan_of(code@) {
            Err(ms) => r matches Err(YamlError::ScanError(m)) && m@ == ms,
            Ok(ds) => if ds.len() == 1 {
                r == Ok::<Node, YamlError<E>>(node_of(ds[0]))
            } else {
                r == Err::<Node, YamlError<E>>(YamlError::FormatError)
            },
        },
        r matches Err(e) ==> e is ScanError || e is FormatError,
{
    match scan_documents(code) {
        Err(m) => Err(YamlError::ScanError(m)),
        Ok(docs) => match single_document(docs) {
            Ok(d) => Ok(node_of_yaml(&d)),
            Err(_) => Err(YamlError::FormatError),
        },
    }
}

} // verus!
