//! The typed failures every operation surfaces to its immediate caller.

use vstd::prelude::*;

verus! {

/// Every failure kind an engine operation can surface.
///
/// None of these is retried by the library; each is reported to the
/// immediate caller of the operation that produced it.
#[derive(Debug, Clone, PartialEq, Eq)]
pub enum OfficeError {
    /// The engine's library files did not exist.
    MissingLibrary,
    /// The engine library lacks its required entry hook.
    MissingLibraryHook,
    /// The dynamic loader failed; carries the loader's message.
    LoadLibrary(String),
    /// A message the engine placed in its single error slot.
    OfficeError(String),
    /// An expected function-pointer slot was null: the installed engine
    /// build predates the capability. Carries the slot's name.
    MissingFunction(&'static str),
    /// Filter-type metadata could not be decoded; carries the decoder's message.
    InvalidFilterTypes(String),
    /// Version metadata could not be decoded; carries the decoder's message.
    InvalidVersionInfo(String),
    /// Engine-produced metadata was not valid UTF-8.
    InvalidUtf8String,
    /// A caller-supplied string contained an embedded null byte.
    InvalidString,
    /// A supplied path failed the absoluteness or normalization requirement.
    InvalidPath,
    /// Another engine instance is already active in this process.
    InstanceLock,
    /// A weak handle was used after the last strong owner was destroyed.
    InstanceDropped,
    /// Engine construction failed without leaving a retrievable message.
    UnknownInit,
}

impl OfficeError {
    /// A human-readable description of the failure.
    pub fn message(&self) -> String {
        match self {
            OfficeError::MissingLibrary => String::from_str("library not found"),
            OfficeError::MissingLibraryHook => String::from_str("library missing hook function"),
            OfficeError::LoadLibrary(msg) => msg.clone(),
            OfficeError::OfficeError(msg) => msg.clone(),
            OfficeError::MissingFunction(name) => String::from_str("missing '").concat(
                name,
            ).concat("' function"),
            OfficeError::InvalidFilterTypes(msg) => String::from_str(
                "failed to parse filters: ",
            ).concat(msg.as_str()),
            OfficeError::InvalidVersionInfo(msg) => String::from_str(
                "failed to parse version info: ",
            ).concat(msg.as_str()),
            OfficeError::InvalidUtf8String => String::from_str("invalid utf8 string"),
            OfficeError::InvalidString => String::from_str("string cannot contain null byte"),
            OfficeError::InvalidPath => String::from_str("invalid path provided"),
            OfficeError::InstanceLock => String::from_str("already another active instance"),
            OfficeError::InstanceDropped => String::from_str(
                "callback invoked after instance was dropped",
            ),
            OfficeError::UnknownInit => String::from_str("unknown initialization error"),
        }
    }
}

} // verus!
