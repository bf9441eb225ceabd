//! Verified core of the EdgeQuake document-ingestion and retrieval service.
pub mod text;
pub mod modal;
pub mod error;
pub mod chunker;
pub mod sql;
pub mod extraction;
pub mod keywords;
pub mod ingest;
pub mod ingest_run;
pub mod upload;
pub mod upload_run;
pub mod document;
pub mod graph;
pub mod pipeline;
pub mod workspace;
pub mod state;
pub mod documents;
pub mod ids;
