//! Ingestion of behavioural-experiment trial batches sent as JSON.
//!
//! A request body is parsed into a [`json::Json`] tree, the tree is decoded
//! against the trial schema, and the batch is accepted whole or rejected whole.
pub mod batch;
pub mod encode;
pub mod json;
pub mod laws;
pub mod trial;
