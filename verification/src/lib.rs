//! A verified core for a photo ingestion pipeline.
//!
//! A client uploads an image; the pipeline durably stores the original in an
//! object store, records metadata in a relational database, and asynchronously
//! derives smaller variants, uploading and recording each one. The object
//! store and the database fail independently, so every failure branch carries
//! an explicit compensating action; the contracts here prove that those
//! actions keep the two stores mutually consistent.
//!
//! The two stores are modeled executably ([`store::ObjectStoreModel`],
//! [`db::DbModel`]); the coordinator and worker sagas are verified against
//! those models, with each fallible outside step's outcome injected by the
//! caller, so the proofs cover every interleaving of success and failure.

pub mod accounts;
pub mod capture;
pub mod coordinator;
pub mod db;
pub mod error;
pub mod imaging;
pub mod records;
pub mod store;
pub mod utils;
pub mod worker;
