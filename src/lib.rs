//! Orchestration core for deploying and operating a CW20 token contract:
//! deployment identities and labels, artifact resolution, the upload
//! decision, and normalization of transaction receipts.

pub mod artifact;
pub mod contract;
pub mod error;
pub mod identity;
pub mod network;
pub mod receipt;
pub mod upload;
