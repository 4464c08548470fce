//! Extraction and publishing of per-region map extracts.
//!
//! The library holds the decisions of the pipeline: which regions still need
//! extracting, what to do with each extract found on disk, how a batch of uploads is
//! settled and counted, and how an interrupted download resumes. The program around it
//! performs the subprocess, database, network and file-system work and hands the
//! outcomes back as plain values.

use vstd::prelude::*;

pub mod cli;
pub mod config;
pub mod country;
pub mod download;
pub mod extraction;
pub mod init;
pub mod naming;
pub mod publish;
pub mod queue;
pub mod status;
pub mod text;

verus! {

} // verus!
