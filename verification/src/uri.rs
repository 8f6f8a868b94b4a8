//! A validated network location: the original text together with the
//! guarantee that it parses under standard URI syntax. Validation is done by
//! an outside parser; a constructed value can always re-derive its parsed
//! form, because the text was proven acceptable when it was built.

use vstd::prelude::*;

verus! {

/// Whether uriparse accepts this text as a URI: it parses as a URI reference
/// and carries a scheme. The grammar is decided by the text alone, so the
/// outcome has a name here and every contract speaks through it.
pub uninterp spec fn uri_ok(s: Seq<char>) -> bool;

#[verifier::external_type_specification]
#[verifier::external_body]
pub struct ExURI<'a>(uriparse::URI<'a>);

/// Why a text was rejected as a URI: it broke standard URI syntax; the
/// carried text is the parser's diagnostic.
#[derive(Debug, PartialEq, Eq)]
pub enum ParseError {
    InvalidSyntax(String),
}

/// A network location whose text has been proven to parse as a URI. Viewed
/// as that text; the invariant `uri_ok` holds for as long as the value lives.
#[derive(Debug)]
pub struct Uri {
    raw: String,
}

/// Relies on uriparse::URIReference::try_from(&str) followed by
/// uriparse::URI::try_from(URIReference): the text is accepted exactly when
/// it parses as a URI reference that carries a scheme, a function of the
/// text alone, named `uri_ok`; on rejection the error's rendering is
/// returned as the diagnostic. (Parsing through uriparse::URI::try_from(&str)
/// directly would panic on a schemeless text whose first path segment holds
/// a colon, instead of reporting it.)
#[verifier::external_body]
fn try_parse(raw: &str) -> (r: Result<uriparse::URI<'_>, String>)
    ensures
        r is Ok <==> uri_ok(raw@),
{
    match <uriparse::URIReference<'_> as core::convert::TryFrom<&str>>::try_from(raw) {
        Ok(reference) => {
            match <uriparse::URI<'_> as core::convert::TryFrom<uriparse::URIReference<'_>>>::try_from(reference) {
                Ok(parsed) => Ok(parsed),
                Err(error) => Err(format!("{}", error)),
            }
        },
        Err(error) => Err(format!("{}", error)),
    }
}

impl View for Uri {
    type V = Seq<char>;

    closed spec fn view(&self) -> Seq<char> {
        self.raw@
    }
}

impl Uri {
    #[verifier::type_invariant]
    spec fn inv(self) -> bool {
        uri_ok(self.raw@)
    }

    /// Validates `raw` as a URI. On success the produced value stores `raw`
    /// exactly as given, with no normalization; on failure no value exists
    /// and the error carries the parser's diagnostic.
    pub fn from_str(raw: &str) -> (r: Result<Uri, ParseError>)
        ensures
            r is Ok <==> uri_ok(raw@),
            r matches Ok(uri) ==> uri@ == raw@,
            r matches Err(e) ==> e is InvalidSyntax,
    {
        match try_parse(raw) {
            Ok(_) => Ok(Uri { raw: raw.to_owned() }),
            Err(diagnostic) => Err(ParseError::InvalidSyntax(diagnostic)),
        }
    }

    /// The parsed form, re-derived from the stored text. Construction proved
    /// the text acceptable, so this re-parse can never fail.
    pub fn parsed(&self) -> uriparse::URI<'_> {
        proof {
            use_type_invariant(self);
        }
        match try_parse(self.raw.as_str()) {
            Ok(parsed) => parsed,
            Err(_) => vstd::pervasive::unreached(),
        }
    }

    /// The stored text, exactly as it was validated.
    pub fn as_str(&self) -> (r: &str)
        ensures
            r@ == self@,
    {
        self.raw.as_str()
    }
}

} // verus!
