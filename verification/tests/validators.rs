use raml_spec::node::Node;
use raml_spec::protocol::{Protocol, ProtocolParseError};
use raml_spec::uri::{ParseError, Uri};

#[test]
fn valid_uri_round_trips_exactly() {
    let uri = Uri::from_str("https://api.example.com/v1?q=1#frag").unwrap();
    assert_eq!(uri.as_str(), "https://api.example.com/v1?q=1#frag");
}

#[test]
fn invalid_uri_yields_invalid_syntax() {
    let err = Uri::from_str("not a uri").unwrap_err();
    assert!(matches!(err, ParseError::InvalidSyntax(_)));
}

#[test]
fn schemeless_colon_segment_is_rejected_not_panicked() {
    let err = Uri::from_str("://www.example.com/").unwrap_err();
    assert!(matches!(err, ParseError::InvalidSyntax(_)));
}

#[test]
fn relative_reference_is_not_a_uri() {
    let err = Uri::from_str("/just/a/path").unwrap_err();
    assert!(matches!(err, ParseError::InvalidSyntax(_)));
}

#[test]
fn constructed_uri_re_parses() {
    let uri = Uri::from_str("https://api.example.com/v1").unwrap();
    let parsed = uri.parsed();
    assert_eq!(parsed.scheme().as_str(), "https");
    assert_eq!(parsed.to_string(), "https://api.example.com/v1");
}

#[test]
fn supported_protocols_match() {
    let http = Protocol::try_from(&Node::Text("HTTP".to_string()));
    assert_eq!(http, Ok(Protocol::Http));
    let https = Protocol::try_from(&Node::Text("HTTPS".to_string()));
    assert_eq!(https, Ok(Protocol::Https));
}

#[test]
fn unsupported_protocol_carries_its_text() {
    let err = Protocol::try_from(&Node::Text("FTP".to_string())).unwrap_err();
    assert_eq!(err, ProtocolParseError::UnsupportedProtocol("FTP".to_string()));
}

#[test]
fn protocol_match_is_case_sensitive() {
    let err = Protocol::try_from(&Node::Text("http".to_string())).unwrap_err();
    assert_eq!(err, ProtocolParseError::UnsupportedProtocol("http".to_string()));
}

#[test]
fn non_string_protocol_node_is_invalid_value() {
    assert_eq!(
        Protocol::try_from(&Node::Other).unwrap_err(),
        ProtocolParseError::InvalidYamlValue
    );
    assert_eq!(
        Protocol::try_from(&Node::List(vec![])).unwrap_err(),
        ProtocolParseError::InvalidYamlValue
    );
}
