//! A parser for the head of a RAML interface definition: it decodes the
//! document text into an untyped tree, extracts the descriptive fields
//! (`title`, `description`, `version`), the base network location and the
//! supported protocols, validates each, and assembles a typed document or
//! reports the first failure. The format's other top-level keys (mediaType,
//! documentation, schemas, types, traits, resourceTypes, annotationTypes,
//! securitySchemes, baseUriParameters, secured_by, uses) are reserved
//! vocabulary and pass through unread.

use vstd::prelude::*;

pub mod node;
pub mod protocol;
pub mod uri;

verus! {

use crate::node::{Node, str_field, list_field, str_field_of, list_field_of, load_documents, yaml_docs_of};
use crate::protocol::{
    ProtocolSet,
    ProtocolParseError,
    collect_protocols,
    protocol_set_of,
    protocols_all_ok,
    first_protocol_error,
};
use crate::uri::{Uri, uri_ok};
use crate::uri::ParseError as UriParseError;

/// The typed result of extraction: the one mandatory field `title`, the
/// optional descriptive fields, the validated base location, and the set of
/// supported protocols.
#[derive(Debug)]
pub struct RamlSpec {
    pub title: String,
    pub description: Option<String>,
    pub version: Option<String>,
    pub base_uri: Option<Uri>,
    pub protocols: Option<ProtocolSet>,
}

/// Why extraction failed, each failure terminal and surfaced verbatim:
/// the text broke the tree notation (carrying the scanner's diagnostic), the
/// text decoded to no document at all, the one mandatory field was absent or
/// mis-shaped, the base location broke URI syntax, or a protocol entry was
/// rejected.
#[derive(Debug, PartialEq, Eq)]
pub enum ParseError {
    FieldNotFound(String),
    IncorrectYamlSyntax(String),
    FileIsEmpty,
    IncorrectUri(UriParseError),
    IncorrectProtocol(ProtocolParseError),
}

/// The mandatory title: the text under `title`, when that field is a text
/// scalar.
pub open spec fn title_of(doc: Node) -> Option<Seq<char>> {
    str_field_of(doc, "title"@)
}

/// The optional description, absent when missing or not a text scalar.
pub open spec fn description_of(doc: Node) -> Option<Seq<char>> {
    str_field_of(doc, "description"@)
}

/// The optional version, absent when missing or not a text scalar.
pub open spec fn version_of(doc: Node) -> Option<Seq<char>> {
    str_field_of(doc, "version"@)
}

/// The optional base location text, absent when missing or not a text scalar.
pub open spec fn base_uri_of(doc: Node) -> Option<Seq<char>> {
    str_field_of(doc, "baseUri"@)
}

/// The optional protocol entries, absent when missing or not a sequence.
pub open spec fn protocol_nodes_of(doc: Node) -> Option<Seq<Node>> {
    list_field_of(doc, "protocols"@)
}

/// When extraction of a decoded document succeeds: the title is present as
/// text, the base location (when present as text) passes URI syntax, and
/// every protocol entry (when the field is a sequence) is supported.
pub open spec fn extraction_succeeds(doc: Node) -> bool {
    &&& title_of(doc) is Some
    &&& (base_uri_of(doc) matches Some(u) ==> uri_ok(u))
    &&& (protocol_nodes_of(doc) matches Some(elems) ==> protocols_all_ok(elems))
}

/// What a successful extraction returns: each field of `raml` is exactly the
/// corresponding field of the document, optional fields absent where the
/// document lacks them or shapes them wrongly.
pub open spec fn extracted(doc: Node, raml: RamlSpec) -> bool {
    &&& title_of(doc) == Some(raml.title@)
    &&& match description_of(doc) {
        Some(t) => raml.description matches Some(s) && s@ == t,
        None => raml.description is None,
    }
    &&& match version_of(doc) {
        Some(t) => raml.version matches Some(s) && s@ == t,
        None => raml.version is None,
    }
    &&& match base_uri_of(doc) {
        Some(t) => raml.base_uri matches Some(u) && u@ == t,
        None => raml.base_uri is None,
    }
    &&& match protocol_nodes_of(doc) {
        Some(elems) => raml.protocols matches Some(ps) && ps@ == protocol_set_of(elems),
        None => raml.protocols is None,
    }
}

/// Which error a failed extraction reports, and on which documents it comes:
/// a missing or mis-shaped title is reported first, then an invalid base
/// location, then the first rejected protocol entry.
pub open spec fn extraction_error_fits(doc: Node, e: ParseError) -> bool {
    match e {
        ParseError::FieldNotFound(f) => f@ == "title"@ && title_of(doc) is None,
        ParseError::IncorrectUri(ue) => {
            &&& title_of(doc) is Some
            &&& base_uri_of(doc) matches Some(u) && !uri_ok(u)
            &&& ue is InvalidSyntax
        },
        ParseError::IncorrectProtocol(pe) => {
            &&& title_of(doc) is Some
            &&& (base_uri_of(doc) matches Some(u) ==> uri_ok(u))
            &&& protocol_nodes_of(doc) matches Some(elems) && first_protocol_error(elems, pe)
        },
        _ => false,
    }
}

/// Walks one decoded document and assembles the typed result, or reports the
/// first failure: exactly the documents satisfying `extraction_succeeds`
/// yield a result, which `extracted` pins field by field; every failure is
/// described by `extraction_error_fits`.
pub fn extract_document(doc: &Node) -> (r: Result<RamlSpec, ParseError>)
    ensures
        r is Ok <==> extraction_succeeds(*doc),
        r matches Ok(raml) ==> extracted(*doc, raml),
        r matches Err(e) ==> extraction_error_fits(*doc, e),
{
    let title: String = match str_field(doc, "title") {
        Some(t) => t.clone(),
        None => {
            return Err(ParseError::FieldNotFound("title".to_owned()));
        },
    };
    let description: Option<String> = match str_field(doc, "description") {
        Some(t) => Some(t.clone()),
        None => None,
    };
    let version: Option<String> = match str_field(doc, "version") {
        Some(t) => Some(t.clone()),
        None => None,
    };
    let base_uri: Option<Uri> = match str_field(doc, "baseUri") {
        Some(t) => match Uri::from_str(t.as_str()) {
            Ok(u) => Some(u),
            Err(e) => {
                return Err(ParseError::IncorrectUri(e));
            },
        },
        None => None,
    };
    let protocols: Option<ProtocolSet> = match list_field(doc, "protocols") {
        Some(elems) => match collect_protocols(elems) {
            Ok(ps) => Some(ps),
            Err(e) => {
                return Err(ParseError::IncorrectProtocol(e));
            },
        },
        None => None,
    };
    Ok(RamlSpec { title, description, version, base_uri, protocols })
}

impl RamlSpec {
    /// Decodes the document text and extracts the head of the first decoded
    /// document. Text that is malformed fails with the scanner's diagnostic;
    /// text that decodes to no document at all (empty text always does) is
    /// reported as empty, distinct from the syntax failure; otherwise the
    /// outcome is exactly that of extracting the first document.
    pub fn from_text(text: &str) -> (r: Result<RamlSpec, ParseError>)
        ensures
            r is Ok <==> (yaml_docs_of(text@) matches Some(docs) && docs.len() > 0
                && extraction_succeeds(docs[0])),
            r matches Ok(raml) ==> (yaml_docs_of(text@) matches Some(docs) && docs.len() > 0
                && extracted(docs[0], raml)),
            r matches Err(e) ==> match e {
                ParseError::IncorrectYamlSyntax(_) => yaml_docs_of(text@) is None,
                ParseError::FileIsEmpty => yaml_docs_of(text@) matches Some(docs) && docs.len()
                    == 0,
                _ => yaml_docs_of(text@) matches Some(docs) && docs.len() > 0
                    && extraction_error_fits(docs[0], e),
            },
            text@.len() == 0 ==> r == Err::<RamlSpec, ParseError>(ParseError::FileIsEmpty),
    {
        let docs = match load_documents(text) {
            Ok(docs) => docs,
            Err(diagnostic) => {
                return Err(ParseError::IncorrectYamlSyntax(diagnostic));
            },
        };
        if docs.len() == 0 {
            return Err(ParseError::FileIsEmpty);
        }
        extract_document(&docs[0])
    }
}

} // verus!
