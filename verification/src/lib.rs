//! Dependency records of a package registry: the rules that turn submitted
//! dependency declarations into storable rows, the reading of stored rows back
//! into records, and the outward forms of a record.

pub mod dependency;
pub mod error;
pub mod git;
pub mod kind;
pub mod krate;
pub mod lifecycle;
pub mod req;
pub mod text;
pub mod upload;
