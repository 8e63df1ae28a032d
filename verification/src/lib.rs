//! A tool-execution and report-assembly pipeline: it uniformly invokes a
//! configurable set of external diagnostic tools against a target binary —
//! with optional privilege escalation, timeout enforcement or a combined
//! text-blob input — classifies each exit outcome, and renders the
//! normalized results into per-tool and aggregate report documents.
//!
//! The library holds the logic: building argument vectors, normalizing and
//! classifying captured output, validating configurations, sequencing the
//! tools and assembling the reports, each function carrying its contract.
//! Spawning processes, reading files and writing reports is I/O the
//! embedding application performs around it.

pub mod classify;
pub mod configuration;
pub mod configurator;
pub mod invoke;
pub mod output;
pub mod pipeline;
pub mod text;
pub mod tools;
