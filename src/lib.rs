//! Proof-of-delivery evidence for shipment tracking numbers: identifier
//! syntax, validation of uploaded images, the in-memory evidence index and the
//! decisions behind the upload, list and delete operations.

pub mod error;
pub mod record;
pub mod service;
pub mod store;
pub mod deps;
pub mod tracking_number;
pub mod upload;
