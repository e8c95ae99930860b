//! Content types, parsed by the `mime` crate and kept as their canonical text.
use vstd::prelude::*;
use crate::error::Error;

verus! {

#[verifier::external_type_specification]
#[verifier::external_body]
pub struct ExFromStrError(mime_guess::mime::FromStrError);

/// The canonical text of the content type that `mime` parses from `s`
/// (type, subtype and parameter names lower-cased), or `None` where `mime`
/// rejects `s`.
pub uninterp spec fn mime_source(s: Seq<char>) -> Option<Seq<char>>;

/// Relies on `mime::Mime`'s `FromStr` (re-exported by `mime_guess`), and on its
/// `AsRef<str>`, which gives the source text that the parse kept.
#[verifier::external_body]
fn parse_mime(s: &str) -> (r: Result<String, mime_guess::mime::FromStrError>)
    ensures
        r is Ok <==> mime_source(s@) is Some,
        r matches Ok(t) ==> mime_source(s@) == Some(t@),
{
    match s.parse::<mime_guess::Mime>() {
        Ok(m) => Ok(String::from(m.as_ref())),
        Err(e) => Err(e),
    }
}

/// The text of `text/plain`, the one type that a string field may carry.
pub open spec fn text_plain() -> Seq<char> {
    "text/plain"@
}

/// Whether `m` is the canonical text of some parsed content type.
pub open spec fn is_parsed(m: Seq<char>) -> bool {
    exists|s: Seq<char>| mime_source(s) == Some(m)
}

/// A parsed content type.
///
/// A parsed type equals `mime::TEXT_PLAIN` exactly when its canonical text is
/// `text/plain` (a parameter makes it another type), so the text is all that
/// the encoder reads.
pub struct MediaType {
    source: String,
}

impl View for MediaType {
    type V = Seq<char>;

    closed spec fn view(&self) -> Seq<char> {
        self.source@
    }
}

impl MediaType {
    /// Always holds: the text came out of a parse.
    pub closed spec fn wf(&self) -> bool {
        is_parsed(self.source@)
    }

    /// Parses `s`; fails with `InvalidMime(s)` where `mime` rejects it.
    pub fn parse(s: &str) -> (r: Result<MediaType, Error>)
        ensures
            mime_source(s@) is None <==> r is Err,
            r matches Ok(m) ==> Some(m@) == mime_source(s@) && m.wf(),
            r matches Err(e) ==> e matches Error::InvalidMime(raw) && raw@ == s@,
    {
        match parse_mime(s) {
            Ok(t) => {
                let m = MediaType { source: t };
                assert(mime_source(s@) == Some(m.source@));
                Ok(m)
            },
            Err(_) => Err(Error::InvalidMime(s.to_owned())),
        }
    }

    /// The canonical text.
    pub fn as_str(&self) -> (r: &str)
        ensures
            r@ == self@,
    {
        self.source.as_str()
    }

    /// Whether this is `text/plain` with no parameters.
    pub fn is_text_plain(&self) -> (r: bool)
        ensures
            r == (self@ == text_plain()),
    {
        let plain = String::from_str("text/plain");
        self.source == plain
    }

    /// The canonical text, taking the value.
    pub fn into_string(self) -> (r: String)
        ensures
            r@ == self@,
    {
        self.source
    }
}

} // verus!
