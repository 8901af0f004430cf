//! Validated document addresses.
//!
//! The engine accepts only URL text; this module validates caller input
//! once, so that every later operation can rely on the address being
//! non-empty and free of embedded null characters.

use crate::error::OfficeError;
use crate::text::contains_nul;
use crate::text::find_nul;
use vstd::prelude::*;

verus! {

/// The `file` URL that the `url` crate serializes for an absolute
/// filesystem path.
pub uninterp spec fn file_url_of(path: Seq<char>) -> Seq<char>;

/// Whether the `url` crate accepts the text as an absolute URL.
pub uninterp spec fn uri_parses(uri: Seq<char>) -> bool;

/// Relies on `url::Url::from_file_path` and `Url::as_str`: on this
/// platform the conversion succeeds exactly for absolute paths, and the
/// serialization it builds is `file://` followed by percent-encoded path
/// segments, hence non-empty and free of raw null characters.
#[verifier::external_body]
fn file_url_from_path(path: &str) -> (r: Option<String>)
    ensures
        r is Some <==> (path@.len() > 0 && path@[0] == '/'),
        r matches Some(u) ==> u@ == file_url_of(path@) && u@.len() > 0 && !contains_nul(u@),
{
    match url::Url::from_file_path(path) {
        Ok(u) => Some(u.as_str().to_owned()),
        Err(()) => None,
    }
}

/// Relies on `url::Url::parse`: acceptance depends on the text alone,
/// and an empty string is never a valid absolute URL.
#[verifier::external_body]
fn remote_uri_parses(uri: &str) -> (r: bool)
    ensures
        r == uri_parses(uri@),
        uri@.len() == 0 ==> !r,
{
    url::Url::parse(uri).is_ok()
}

/// A validated, engine-acceptable document address.
#[derive(Debug, Clone, PartialEq, Eq)]
pub struct DocUrl {
    url: String,
}

impl View for DocUrl {
    type V = Seq<char>;

    closed spec fn view(&self) -> Seq<char> {
        self.url@
    }
}

impl DocUrl {
    /// A valid address is non-empty and holds no null character, so it
    /// can cross the C boundary as-is.
    pub open spec fn wf(self) -> bool {
        self@.len() > 0 && !contains_nul(self@)
    }

    /// The address text.
    pub fn as_str(&self) -> (r: &str)
        ensures
            r@ == self@,
    {
        self.url.as_str()
    }

    /// The address text as an owned string.
    pub fn to_display_string(&self) -> (r: String)
        ensures
            r@ == self@,
    {
        self.url.clone()
    }

    /// Converts an absolute local path into a document address. The path
    /// must be absolute; the URL built from it is additionally checked
    /// for embedded null bytes before it may cross the C boundary.
    pub fn from_absolute_path(path: &str) -> (r: Result<DocUrl, OfficeError>)
        ensures
            match r {
                Ok(u) => path@.len() > 0 && path@[0] == '/' && u@ == file_url_of(path@)
                    && u.wf(),
                Err(e) => match e {
                    OfficeError::OfficeError(m) => (path@.len() == 0 || path@[0] != '/')
                        && m@ == "The file path "@ + path@ + " must be absolute!"@,
                    OfficeError::InvalidString => path@.len() > 0 && path@[0] == '/'
                        && contains_nul(file_url_of(path@)),
                    _ => false,
                },
            },
    {
        match file_url_from_path(path) {
            Some(url) => {
                if find_nul(url.as_str()) {
                    Err(OfficeError::InvalidString)
                } else {
                    Ok(DocUrl { url })
                }
            },
            None => {
                let msg = String::from_str("The file path ").concat(path).concat(
                    " must be absolute!",
                );
                Err(OfficeError::OfficeError(msg))
            },
        }
    }

    /// Accepts a remote URI after the URL parser validates it; the raw
    /// text itself is what the engine will receive, so it is also checked
    /// for embedded null bytes.
    pub fn from_remote_uri(uri: &str) -> (r: Result<DocUrl, OfficeError>)
        ensures
            match r {
                Ok(u) => uri_parses(uri@) && !contains_nul(uri@) && u@ == uri@ && u.wf(),
                Err(e) => match e {
                    OfficeError::OfficeError(m) => !uri_parses(uri@) && m@ == "failed to parse uri "@
                        + uri@,
                    OfficeError::InvalidString => uri_parses(uri@) && contains_nul(uri@),
                    _ => false,
                },
            },
    {
        if !remote_uri_parses(uri) {
            let msg = String::from_str("failed to parse uri ").concat(uri);
            return Err(OfficeError::OfficeError(msg));
        }
        if find_nul(uri) {
            return Err(OfficeError::InvalidString);
        }
        Ok(DocUrl { url: uri.to_owned() })
    }
}

} // verus!
