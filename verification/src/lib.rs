//! Validation of NFT-style asset metadata records.
//!
//! A [`metadata::Metadata`] record is deserialized from an external JSON
//! representation by the surrounding application, then checked against a
//! fixed schema by [`metadata::Metadata::validate`]: required string
//! formats (names, symbols, URLs), numeric ranges (royalty basis points,
//! creator shares) and a small controlled vocabulary for the asset
//! category.  Validation mutates the record in exactly one place: a
//! missing `properties.category` is defaulted before the vocabulary
//! check runs.

pub mod checks;
pub mod laws;
pub mod metadata;
pub mod validate;
