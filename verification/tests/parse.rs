use raml_spec::node::Node;
use raml_spec::protocol::{Protocol, ProtocolParseError};
use raml_spec::{extract_document, ParseError, RamlSpec};

#[test]
fn parsed_successfully() {
    let text = "#%RAML 1.0\ntitle: Mobile Order API\nbaseUri: http://localhost:8081/api\nversion: 1.0\nprotocols: [ HTTP, HTTPS ]\n";
    let api = RamlSpec::from_text(text).unwrap();
    assert_eq!(api.title, "Mobile Order API");
}

#[test]
fn title_only_document() {
    let api = RamlSpec::from_text("title: Mobile Order API\n").unwrap();
    assert_eq!(api.title, "Mobile Order API");
    assert!(api.description.is_none());
    assert!(api.version.is_none());
    assert!(api.base_uri.is_none());
    assert!(api.protocols.is_none());
}

#[test]
fn base_uri_is_kept_exactly() {
    let api = RamlSpec::from_text("title: X\nbaseUri: https://api.example.com/v1\n").unwrap();
    let uri = api.base_uri.expect("baseUri should be extracted");
    assert_eq!(uri.as_str(), "https://api.example.com/v1");
}

#[test]
fn invalid_base_uri_is_rejected() {
    let err = RamlSpec::from_text("title: X\nbaseUri: not a uri\n").unwrap_err();
    assert!(matches!(err, ParseError::IncorrectUri(_)));
}

#[test]
fn schemeless_colon_segment_base_uri_is_an_error() {
    let err = RamlSpec::from_text("title: X\nbaseUri: \"://www.example.com/\"\n").unwrap_err();
    assert!(matches!(err, ParseError::IncorrectUri(_)));
}

#[test]
fn unsupported_protocol_is_named() {
    let err = RamlSpec::from_text("title: X\nprotocols: [HTTP, FTP]\n").unwrap_err();
    assert_eq!(
        err,
        ParseError::IncorrectProtocol(ProtocolParseError::UnsupportedProtocol("FTP".to_string()))
    );
}

#[test]
fn empty_input_is_distinct_from_bad_syntax() {
    assert_eq!(RamlSpec::from_text("").unwrap_err(), ParseError::FileIsEmpty);
    let err = RamlSpec::from_text("{").unwrap_err();
    assert!(matches!(err, ParseError::IncorrectYamlSyntax(_)));
}

#[test]
fn duplicate_protocols_collapse() {
    let api = RamlSpec::from_text("title: X\nprotocols: [HTTP, HTTP, HTTPS]\n").unwrap();
    let protocols = api.protocols.expect("protocols should be extracted");
    assert_eq!(protocols.len(), 2);
    assert!(protocols.contains(Protocol::Http));
    assert!(protocols.contains(Protocol::Https));
}

#[test]
fn description_and_version_are_extracted() {
    let api =
        RamlSpec::from_text("title: X\ndescription: The API head.\nversion: v1\n").unwrap();
    assert_eq!(api.description.as_deref(), Some("The API head."));
    assert_eq!(api.version.as_deref(), Some("v1"));
}

#[test]
fn mistyped_optional_fields_fall_back_to_absent() {
    let api = RamlSpec::from_text("title: X\ndescription: 42\nversion: [a, b]\nbaseUri: 7\n")
        .unwrap();
    assert!(api.description.is_none());
    assert!(api.version.is_none());
    assert!(api.base_uri.is_none());
}

#[test]
fn non_sequence_protocols_fall_back_to_absent() {
    let api = RamlSpec::from_text("title: X\nprotocols: HTTP\n").unwrap();
    assert!(api.protocols.is_none());
}

#[test]
fn missing_title_fails_extraction() {
    let err = RamlSpec::from_text("version: v1\n").unwrap_err();
    assert_eq!(err, ParseError::FieldNotFound("title".to_string()));
}

#[test]
fn non_string_title_fails_extraction() {
    let err = RamlSpec::from_text("title: [a, b]\n").unwrap_err();
    assert_eq!(err, ParseError::FieldNotFound("title".to_string()));
}

#[test]
fn non_mapping_document_fails_extraction() {
    let err = RamlSpec::from_text("- a\n- b\n").unwrap_err();
    assert_eq!(err, ParseError::FieldNotFound("title".to_string()));
}

#[test]
fn first_document_of_many_is_taken() {
    let api = RamlSpec::from_text("---\ntitle: First\n---\ntitle: Second\n").unwrap();
    assert_eq!(api.title, "First");
}

#[test]
fn title_is_reported_before_later_failures() {
    let err = RamlSpec::from_text("baseUri: not a uri\nprotocols: [FTP]\n").unwrap_err();
    assert_eq!(err, ParseError::FieldNotFound("title".to_string()));
}

#[test]
fn extract_document_reads_a_built_tree() {
    let doc = Node::Entries(vec![
        (Node::Text("title".to_string()), Node::Text("X".to_string())),
        (Node::Text("protocols".to_string()), Node::List(vec![
            Node::Text("HTTPS".to_string()),
        ])),
    ]);
    let api = extract_document(&doc).unwrap();
    assert_eq!(api.title, "X");
    let protocols = api.protocols.expect("protocols should be extracted");
    assert_eq!(protocols.len(), 1);
    assert!(protocols.contains(Protocol::Https));
    assert!(!protocols.contains(Protocol::Http));
}

#[test]
fn extract_document_rejects_non_string_protocol_entry() {
    let doc = Node::Entries(vec![
        (Node::Text("title".to_string()), Node::Text("X".to_string())),
        (Node::Text("protocols".to_string()), Node::List(vec![Node::Other])),
    ]);
    let err = extract_document(&doc).unwrap_err();
    assert_eq!(err, ParseError::IncorrectProtocol(ProtocolParseError::InvalidYamlValue));
}
