//! The write job of the advanced mesh render feature: which pipeline, descriptor
//! sets, buffers and indirect draws it records for each batch and submit node.

pub mod commands;
pub mod phases;
pub mod write_job;
pub mod binding_state;
pub mod laws;
