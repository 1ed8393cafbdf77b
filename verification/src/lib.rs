//! Botanica: a biodiversity-standards data layer for botanical record keeping.
//!
//! The crate models taxonomic entities, converts them into Darwin Core
//! exchange records, classifies conservation urgency from IUCN Red List
//! assessments, and extracts rule-based cultivation recommendations from
//! free text. Persistence and network collaborators stay outside: callers
//! hand already-loaded values in and take new values back.

pub mod calendar;
pub mod conservation;
pub mod contextlite;
pub mod darwin_core;
pub mod error;
pub mod ids;
pub mod text;
pub mod types;
