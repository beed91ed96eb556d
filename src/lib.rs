//! Media ingestion and compression pipeline: event contract, compression
//! worker decisions, transcoding geometry, reconciliation of persisted media
//! status, and the small parsing rules around uploads and session cookies.

pub mod auth;
pub mod events;
pub mod store;
pub mod transcode;
pub mod bus;
pub mod worker;
pub mod reconcile;
pub mod text;
pub mod ingest;
pub mod config;
