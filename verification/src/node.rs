//! The untyped document tree: what the text decoder hands back, modelled as a
//! tree the verifier can reason about, plus field lookup over its mappings.

use vstd::prelude::*;

verus! {

/// One node of a decoded document: a text scalar, a sequence, a mapping
/// (kept as its entries, in document order, keys unique), or any other
/// scalar shape the extractor never reads the content of.
#[derive(Debug)]
pub enum Node {
    Text(String),
    List(Vec<Node>),
    Entries(Vec<(Node, Node)>),
    Other,
}

#[verifier::external_type_specification]
#[verifier::external_body]
pub struct ExYaml(yaml_rust::Yaml);

/// Relies on the shape of yaml_rust::Yaml: each decoded value becomes the
/// matching tree node, children converted alike; scalars that are not text
/// (and the unresolved-alias and bad-value markers) carry nothing the
/// extractor reads, so they all become `Other`.
#[verifier::external_body]
fn node_of_yaml(value: yaml_rust::Yaml) -> Node {
    match value {
        yaml_rust::Yaml::String(s) => Node::Text(s),
        yaml_rust::Yaml::Array(items) => Node::List(items.into_iter().map(node_of_yaml).collect()),
        yaml_rust::Yaml::Hash(entries) => Node::Entries(
            entries.into_iter().map(|(k, v)| (node_of_yaml(k), node_of_yaml(v))).collect(),
        ),
        yaml_rust::Yaml::Real(_) => Node::Other,
        yaml_rust::Yaml::Integer(_) => Node::Other,
        yaml_rust::Yaml::Boolean(_) => Node::Other,
        yaml_rust::Yaml::Alias(_) => Node::Other,
        yaml_rust::Yaml::Null => Node::Other,
        yaml_rust::Yaml::BadValue => Node::Other,
    }
}

/// What decoding a text yields: the sequence of its top-level documents as
/// trees, or `None` when the text breaks the tree notation. Decoding is a
/// function of the text alone; this name stands for its outcome, and
/// `load_documents` is the one place that produces it.
pub uninterp spec fn yaml_docs_of(text: Seq<char>) -> Option<Seq<Node>>;

/// Relies on yaml_rust::YamlLoader::load_from_str: it decodes the text into
/// the sequence of its top-level documents, named `yaml_docs_of`, or fails
/// with a scan error whose rendering is returned as the diagnostic. Scanning
/// empty text reaches the end of the stream at once, so it yields no
/// documents and no error.
#[verifier::external_body]
pub(crate) fn load_documents(text: &str) -> (r: Result<Vec<Node>, String>)
    ensures
        match r {
            Ok(docs) => yaml_docs_of(text@) == Some(docs@) && (text@.len() == 0 ==> docs@.len()
                == 0),
            Err(_) => yaml_docs_of(text@) is None && text@.len() > 0,
        },
{
    match yaml_rust::YamlLoader::load_from_str(text) {
        Ok(docs) => Ok(docs.into_iter().map(node_of_yaml).collect()),
        Err(error) => Err(format!("{}", error)),
    }
}

/// The value under the first entry whose key is the text `key`, if any.
/// Decoded mappings carry each key once, so the first match is the only one.
pub open spec fn lookup_spec(entries: Seq<(Node, Node)>, key: Seq<char>) -> Option<Node>
    decreases entries.len(),
{
    if entries.len() == 0 {
        None
    } else {
        match entries[0].0 {
            Node::Text(k) => if k@ == key {
                Some(entries[0].1)
            } else {
                lookup_spec(entries.skip(1), key)
            },
            _ => lookup_spec(entries.skip(1), key),
        }
    }
}

/// The node under `key` in `doc`, when `doc` is a mapping; `None` otherwise.
pub open spec fn field_of(doc: Node, key: Seq<char>) -> Option<Node> {
    match doc {
        Node::Entries(entries) => lookup_spec(entries@, key),
        _ => None,
    }
}

/// The text under `key` in `doc`, when that field is present and is a text
/// scalar; `None` when it is absent or has any other shape.
pub open spec fn str_field_of(doc: Node, key: Seq<char>) -> Option<Seq<char>> {
    match field_of(doc, key) {
        Some(Node::Text(s)) => Some(s@),
        _ => None,
    }
}

/// The elements under `key` in `doc`, when that field is present and is a
/// sequence; `None` when it is absent or has any other shape.
pub open spec fn list_field_of(doc: Node, key: Seq<char>) -> Option<Seq<Node>> {
    match field_of(doc, key) {
        Some(Node::List(elems)) => Some(elems@),
        _ => None,
    }
}

/// Finds the value stored under the text key `key`.
pub fn lookup<'a>(entries: &'a Vec<(Node, Node)>, key: &str) -> (r: Option<&'a Node>)
    ensures
        match r {
            Some(n) => lookup_spec(entries@, key@) == Some(*n),
            None => lookup_spec(entries@, key@) is None,
        },
{
    let owned_key = key.to_owned();
    let mut i: usize = 0;
    proof {
        assert(entries@.skip(0) =~= entries@);
    }
    while i < entries.len()
        invariant
            i <= entries@.len(),
            owned_key@ == key@,
            lookup_spec(entries@, key@) == lookup_spec(entries@.skip(i as int), key@),
        decreases entries@.len() - i,
    {
        proof {
            assert(entries@.skip(i as int)[0] == entries@[i as int]);
            assert(entries@.skip(i as int).skip(1) =~= entries@.skip(i as int + 1));
        }
        match &entries[i].0 {
            Node::Text(k) => {
                if *k == owned_key {
                    proof {
                        assert(lookup_spec(entries@.skip(i as int), key@)
                            == Some(entries@[i as int].1));
                    }
                    return Some(&entries[i].1);
                }
            },
            _ => {},
        }
        i += 1;
    }
    None
}

/// The text field under `key`, under the same reading as `str_field_of`.
pub fn str_field<'a>(doc: &'a Node, key: &str) -> (r: Option<&'a String>)
    ensures
        match r {
            Some(s) => str_field_of(*doc, key@) == Some(s@),
            None => str_field_of(*doc, key@) is None,
        },
{
    match doc {
        Node::Entries(entries) => match lookup(entries, key) {
            Some(Node::Text(s)) => Some(s),
            _ => None,
        },
        _ => None,
    }
}

/// The sequence field under `key`, under the same reading as `list_field_of`.
pub fn list_field<'a>(doc: &'a Node, key: &str) -> (r: Option<&'a Vec<Node>>)
    ensures
        match r {
            Some(elems) => list_field_of(*doc, key@) == Some(elems@),
            None => list_field_of(*doc, key@) is None,
        },
{
    match doc {
        Node::Entries(entries) => match lookup(entries, key) {
            Some(Node::List(elems)) => Some(elems),
            _ => None,
        },
        _ => None,
    }
}

} // verus!
