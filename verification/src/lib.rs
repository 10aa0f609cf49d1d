//! Introspection of OpenType typographic capabilities.
//!
//! Works over an already-parsed font model: naming records, and the script /
//! language-system / feature structure of the GSUB and GPOS layout tables.
//! Offers collectors that return deduplicated, lexicographically sorted tag
//! lists, a resolver for standard naming records with a diagnostic fallback,
//! and a registry lookup from feature tag to human-readable description.

pub mod descriptor;
pub mod features;
pub mod model;
pub mod names;
pub mod scripts;
pub mod tags;

pub use tags::Tag;
