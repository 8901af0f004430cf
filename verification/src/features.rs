//! Optional engine features.
//!
//! Some notifications block the engine until the client answers; the
//! client must enable only the ones it is prepared to handle, as an
//! OR-combined bitmask passed through before documents are loaded.

use vstd::prelude::*;

verus! {

/// The bit that enables password prompts for protected documents.
pub const DOCUMENT_PASSWORD: u64 = 1;

/// The bit that enables password prompts for write protection.
pub const DOCUMENT_PASSWORD_TO_MODIFY: u64 = 2;

/// The bit that adds the part number to tile-invalidation payloads.
pub const PART_IN_INVALIDATION_CALLBACK: u64 = 4;

/// The bit that turns off tile rendering for annotations.
pub const NO_TILED_ANNOTATIONS: u64 = 8;

/// The bit that enables range-based header data.
pub const RANGE_HEADERS: u64 = 16;

/// The bit that adds the active view's id to cursor-invalidation payloads.
pub const VIEWID_IN_VISCURSOR_INVALIDATION_CALLBACK: u64 = 32;

/// An OR-combined set of optional-feature bits.
#[derive(Debug, Clone, Copy, PartialEq, Eq, Structural)]
pub struct OfficeOptionalFeatures {
    pub bits: u64,
}

impl OfficeOptionalFeatures {
    /// The feature set with exactly the given bits.
    pub fn from_bits(bits: u64) -> (r: OfficeOptionalFeatures)
        ensures
            r.bits == bits,
    {
        OfficeOptionalFeatures { bits }
    }

    /// The empty feature set.
    pub fn empty() -> (r: OfficeOptionalFeatures)
        ensures
            r.bits == 0,
    {
        OfficeOptionalFeatures { bits: 0 }
    }

    /// The raw bitmask handed to the engine.
    pub fn bits(&self) -> (r: u64)
        ensures
            r == self.bits,
    {
        self.bits
    }

    /// Both feature sets combined.
    pub fn union(self, other: OfficeOptionalFeatures) -> (r: OfficeOptionalFeatures)
        ensures
            r.bits == self.bits | other.bits,
    {
        OfficeOptionalFeatures { bits: self.bits | other.bits }
    }

    /// Whether every bit of `mask` is enabled here.
    pub open spec fn spec_contains(self, mask: u64) -> bool {
        self.bits & mask == mask
    }

    /// Tests whether every bit of `mask` is enabled.
    pub fn contains(&self, mask: u64) -> (r: bool)
        ensures
            r == self.spec_contains(mask),
    {
        self.bits & mask == mask
    }
}

} // verus!
