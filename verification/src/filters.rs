//! Filter-type metadata: which output formats the engine offers.
//!
//! The engine reports its filters as metadata text; the boundary
//! collaborator decodes that text into name/media-type pairs, and this
//! module answers queries over them.

use crate::text::str_eq;
use vstd::prelude::*;

verus! {

/// One filter's details.
#[derive(Debug, Clone, PartialEq, Eq)]
pub struct FilterType {
    /// The media type the filter produces, such as `application/pdf`.
    pub media_type: String,
}

/// The engine's filters: a mapping from filter name to details, in the
/// order the metadata listed them.
#[derive(Debug, Clone, PartialEq, Eq)]
pub struct FilterTypes {
    /// The filter name/details pairs.
    pub values: Vec<(String, FilterType)>,
}

impl FilterTypes {
    /// The metadata is a mapping, so each filter name occurs at most
    /// once. The queries below do not depend on this, but a decoded
    /// value is expected to satisfy it.
    pub open spec fn wf(self) -> bool {
        forall|i: int, j: int|
            0 <= i < j < self.values@.len() ==> self.values@[i].0@ != self.values@[j].0@
    }

    /// Some filter produces the given media type.
    pub open spec fn spec_has_mime(self, mime: Seq<char>) -> bool {
        exists|i: int| 0 <= i < self.values@.len() && self.values@[i].1.media_type@ == mime
    }

    /// The name of the first filter that produces the given media type.
    pub fn get_by_mime(&self, mime: &str) -> (r: Option<&str>)
        ensures
            match r {
                Some(name) => exists|i: int|
                    {
                        &&& 0 <= i < self.values@.len()
                        &&& self.values@[i].1.media_type@ == mime@
                        &&& name@ == self.values@[i].0@
                        &&& forall|j: int|
                            0 <= j < i ==> self.values@[j].1.media_type@ != mime@
                    },
                None => !self.spec_has_mime(mime@),
            },
    {
        let n = self.values.len();
        let mut i: usize = 0;
        while i < n
            invariant
                n == self.values@.len(),
                i <= n,
                forall|j: int| 0 <= j < i ==> self.values@[j].1.media_type@ != mime@,
            decreases n - i,
        {
            if str_eq(self.values[i].1.media_type.as_str(), mime) {
                return Some(self.values[i].0.as_str());
            }
            i += 1;
        }
        None
    }

    /// Whether some filter produces the given media type.
    pub fn is_mime_supported(&self, mime: &str) -> (r: bool)
        ensures
            r == self.spec_has_mime(mime@),
    {
        self.get_by_mime(mime).is_some()
    }

    /// The media types of all filters, in order.
    pub fn supported_mime_types(&self) -> (r: Vec<&str>)
        ensures
            r@.len() == self.values@.len(),
            forall|i: int| 0 <= i < r@.len() ==> r@[i]@ == self.values@[i].1.media_type@,
    {
        let n = self.values.len();
        let mut out: Vec<&str> = Vec::new();
        let mut i: usize = 0;
        while i < n
            invariant
                n == self.values@.len(),
                i <= n,
                out@.len() == i,
                forall|j: int| 0 <= j < i ==> out@[j]@ == self.values@[j].1.media_type@,
            decreases n - i,
        {
            out.push(self.values[i].1.media_type.as_str());
            i += 1;
        }
        out
    }
}

/// The engine's version metadata, decoded at the boundary into plain
/// values; the version component is parsed by this library.
#[derive(Debug, Clone, PartialEq, Eq)]
pub struct OfficeVersionInfo {
    pub product_name: String,
    pub product_version: crate::version::ProductVersion,
    pub product_extension: String,
    pub build_id: String,
}

} // verus!
