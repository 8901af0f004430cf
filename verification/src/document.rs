//! Loaded documents and their native resource lifecycle.
//!
//! A document owns one native resource with its own destroy path; it is
//! conceptually a child of the engine resource and must not be used or
//! destroyed after the engine itself is gone.

use crate::callback::DocumentType;
use crate::engine::Office;
use crate::error::OfficeError;
use crate::text::contains_nul;
use crate::text::find_nul;
use crate::text::str_eq;
use crate::urls::DocUrl;
use vstd::prelude::*;

verus! {

/// How the engine behaves for the document behind one address: what a
/// load can observe of the engine's side.
pub struct DocumentProfile {
    /// The password protecting the document, if it is protected.
    pub password: Option<String>,
    /// Whether the engine can load the document at all (with the correct
    /// password supplied, where one is required).
    pub loadable: bool,
    /// The message the engine leaves in its error slot when it fails the
    /// load.
    pub fail_message: String,
    /// The raw classification code the engine reports for the document.
    pub doc_type_code: i32,
    /// The output formats the engine's save accepts for this document.
    pub save_formats: Vec<String>,
}

impl DocumentProfile {
    /// The engine reports a failed load through its error slot, and the
    /// polling protocol reads an empty slot as success; so the failure
    /// message must be non-empty.
    pub open spec fn wf(self) -> bool {
        self.fail_message@.len() > 0
    }
}

/// The model of one native document resource.
pub struct DocumentRaw {
    /// The resource has not been destroyed yet.
    pub alive: bool,
    /// Whether the save slot exists in this build's document table.
    pub has_save_as: bool,
    /// Whether the classification slot exists in this build's document
    /// table.
    pub has_document_type: bool,
    /// The raw classification code the engine reports.
    pub doc_type_code: i32,
    /// The output formats the engine's save accepts.
    pub save_formats: Vec<String>,
}

/// One loaded document.
pub struct Document {
    /// The native resource behind the document.
    pub raw: DocumentRaw,
}

impl Document {
    /// The engine's save accepts this output format for this document.
    pub open spec fn spec_supports_format(self, format: Seq<char>) -> bool {
        exists|i: int|
            0 <= i < self.raw.save_formats@.len() && self.raw.save_formats@[i]@ == format
    }

    /// Saves the document in another format at the given address.
    ///
    /// The engine signals this particular outcome through the call's
    /// return value, not through the error slot: a rejected format is a
    /// plain `false`, and the document and engine stay usable.
    pub fn save_as(&mut self, url: &DocUrl, format: &str, filter: Option<&str>) -> (r: Result<
        bool,
        OfficeError,
    >)
        requires
            old(self).raw.alive,
            url.wf(),
        ensures
            *final(self) == *old(self),
            match r {
                Ok(accepted) => !contains_nul(format@) && (filter matches Some(f) ==> !contains_nul(
                    f@,
                )) && old(self).raw.has_save_as && accepted == old(self).spec_supports_format(
                    format@,
                ),
                Err(e) => match e {
                    OfficeError::InvalidString => contains_nul(format@) || (filter matches Some(f)
                        && contains_nul(f@)),
                    OfficeError::MissingFunction(n) => n@ == "saveAs"@ && !contains_nul(format@) && (
                    filter matches Some(f) ==> !contains_nul(f@)) && !old(self).raw.has_save_as,
                    _ => false,
                },
            },
    {
        if find_nul(format) {
            return Err(OfficeError::InvalidString);
        }
        match filter {
            Some(f) => {
                if find_nul(f) {
                    return Err(OfficeError::InvalidString);
                }
            },
            None => {},
        }
        if !self.raw.has_save_as {
            return Err(OfficeError::MissingFunction("saveAs"));
        }
        let mut accepted = false;
        let n = self.raw.save_formats.len();
        let mut i: usize = 0;
        while i < n
            invariant
                n == self.raw.save_formats@.len(),
                i <= n,
                accepted == exists|j: int|
                    0 <= j < i && self.raw.save_formats@[j]@ == format@,
            decreases n - i,
        {
            if str_eq(self.raw.save_formats[i].as_str(), format) {
                accepted = true;
            }
            i += 1;
        }
        Ok(accepted)
    }

    /// Reports the document's classification, mapping the engine's raw
    /// code to the closed enumeration.
    pub fn get_document_type(&mut self) -> (r: Result<DocumentType, OfficeError>)
        requires
            old(self).raw.alive,
        ensures
            *final(self) == *old(self),
            match r {
                Ok(t) => old(self).raw.has_document_type && t == DocumentType::spec_from_code(
                    old(self).raw.doc_type_code,
                ),
                Err(e) => e matches OfficeError::MissingFunction(n) && n@ == "getDocumentType"@
                    && !old(self).raw.has_document_type,
            },
    {
        if !self.raw.has_document_type {
            return Err(OfficeError::MissingFunction("getDocumentType"));
        }
        Ok(DocumentType::from_primitive(self.raw.doc_type_code))
    }

    /// Destroys the document's native resource, exactly once, and only
    /// while the owning engine instance is still alive: destroying a
    /// child of an already-destroyed engine is undefined behaviour at the
    /// native layer.
    pub fn destroy(&mut self, office: &Office)
        requires
            old(self).raw.alive,
            office.strong >= 1,
        ensures
            !final(self).raw.alive,
            final(self).raw.has_save_as == old(self).raw.has_save_as,
            final(self).raw.has_document_type == old(self).raw.has_document_type,
            final(self).raw.doc_type_code == old(self).raw.doc_type_code,
            final(self).raw.save_formats == old(self).raw.save_formats,
    {
        self.raw.alive = false;
    }
}

} // verus!
