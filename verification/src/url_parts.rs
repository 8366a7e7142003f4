use vstd::prelude::*;

verus! {

/// The parts of a parsed provider URL that the providers read.
#[derive(Debug)]
pub struct UrlParts {
    /// The scheme, without the `:`.
    pub scheme: String,
    /// The host, where the URL has one.
    pub host: Option<String>,
    /// The user name, empty where there is none.
    pub username: String,
    /// The path.
    pub path: String,
}

/// The value of a [`UrlParts`].
pub struct UrlPartsView {
    pub scheme: Seq<char>,
    pub host: Option<Seq<char>>,
    pub username: Seq<char>,
    pub path: Seq<char>,
}

/// The value of an optional text.
pub open spec fn opt_text(o: Option<String>) -> Option<Seq<char>> {
    match o {
        Some(s) => Some(s@),
        None => None,
    }
}

impl View for UrlParts {
    type V = UrlPartsView;

    open spec fn view(&self) -> UrlPartsView {
        UrlPartsView {
            scheme: self.scheme@,
            host: opt_text(self.host),
            username: self.username@,
            path: self.path@,
        }
    }
}

#[verifier::external_type_specification]
#[verifier::external_body]
pub struct ExUrlParseError(url::ParseError);

/// An ASCII character that is not an upper-case letter.
pub open spec fn is_ascii_lower_char(c: char) -> bool {
    (c as int) < 128 && !('A' <= c && c <= 'Z')
}

/// Name for what `url::Url::parse` makes of a text, read through the URL's
/// `scheme`, `host_str`, `username` and `path`; `None` where it refuses the text.
pub uninterp spec fn url_parts_of(input: Seq<char>) -> Option<UrlPartsView>;

/// Calls `url::Url::parse` and reads the parsed URL's `scheme`, `host_str`,
/// `username` and `path`. Trusted: the call succeeds exactly where
/// `url_parts_of` of the text is `Some`, and then the parts are those; as
/// the crate documents, the scheme is lower-case ASCII and the user name is
/// ASCII. The parsing rules themselves (WHATWG URL) are left to the name.
#[verifier::external_body]
pub(crate) fn parse_url(input: &str) -> (r: Result<UrlParts, url::ParseError>)
    ensures
        r is Ok <==> url_parts_of(input@) is Some,
        r matches Ok(p) ==> url_parts_of(input@) == Some(p@),
        r matches Ok(p) ==> forall|i: int|
            0 <= i < p.scheme@.len() ==> is_ascii_lower_char(#[trigger] p.scheme@[i]),
        r matches Ok(p) ==> forall|i: int|
            0 <= i < p.username@.len() ==> (#[trigger] p.username@[i] as int) < 128,
{
    match url::Url::parse(input) {
        Ok(u) => Ok(UrlParts {
            scheme: u.scheme().to_string(),
            host: u.host_str().map(|h| h.to_string()),
            username: u.username().to_string(),
            path: u.path().to_string(),
        }),
        Err(e) => Err(e),
    }
}

} // verus!
