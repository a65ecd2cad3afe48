//! Package identity for a package manager: textual package id specs, the
//! resolved identities they select, and validated package summaries.

pub mod dependency;
pub mod error;
pub mod features;
pub mod origin;
pub mod package_id;
pub mod package_id_spec;
pub mod summary;
pub mod text;
pub mod version;
