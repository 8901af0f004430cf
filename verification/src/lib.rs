//! A safety and lifecycle layer for a single-instance, non-reentrant-safe
//! native document engine reached through a C-style function-pointer table.
//!
//! The library verifies the ownership, exclusivity and callback-reentrancy
//! protocol around such an engine: the process-wide instance lock, the
//! strong/weak dual-handle model, the callback-slot memory lifecycle, the
//! error-polling protocol that follows every engine call, and the
//! capability gating by engine build version.
//!
//! The engine itself is opaque: every observation the engine makes (the
//! content of its error slot after a call, the outcome of an
//! initialization, the behaviour of a document behind a URL) enters the
//! library as a plain value, and the protocol decisions taken on those
//! observations are verified.

pub mod callback;
pub mod discovery;
pub mod document;
pub mod engine;
pub mod error;
pub mod features;
pub mod filters;
pub mod lock;
pub mod text;
pub mod urls;
pub mod version;

pub use callback::CallbackType;
pub use callback::DocumentType;
pub use document::Document;
pub use engine::CallbackOffice;
pub use engine::Office;
pub use error::OfficeError;
pub use features::OfficeOptionalFeatures;
pub use filters::FilterType;
pub use filters::FilterTypes;
pub use filters::OfficeVersionInfo;
pub use urls::DocUrl;
pub use version::InvalidProductVersion;
pub use version::ProductVersion;
