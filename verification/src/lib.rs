//! Secure adaptive content-classification core.
//!
//! The library confines caller-supplied relative paths to a sandbox,
//! decides whether uploaded content is classified in memory or spilled to
//! a temporary file, models the lifecycle of those spill files and of
//! memory mappings, and maps every outcome of a classification call to a
//! typed result or a typed failure.

pub mod analyze_content;
pub mod analyze_path;
pub mod auth;
pub mod config;
pub mod decimal;
pub mod errors;
pub mod fake_magic_repository;
pub mod filename;
pub mod health_check;
pub mod magic_result;
pub mod mime_type;
pub mod mmap;
pub mod path;
pub mod request_id;
pub mod responses;
pub mod sandbox;
pub mod temp_file_handler;
