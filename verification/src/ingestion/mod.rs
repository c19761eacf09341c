//! Ingestion of data segments: identifiers, the segment entity, the size
//! rules and the errors.

pub mod entity;
pub mod error;
pub mod ids;
pub mod service;
