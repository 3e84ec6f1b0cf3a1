//! A verified core for a multi-repository branch hygiene tool.
//!
//! The library models one invocation of the tool: discovering checkouts
//! under a root directory, classifying each checkout's branch divergence
//! against its remote, sequencing a guarded fetch/checkout/pull update,
//! and rendering one aligned, colored report line per repository.
//! All backend queries (invocations of the version-control binary) and
//! all terminal, file and configuration I/O live outside the library;
//! the library receives their captured results as plain values.

pub mod backend;
pub mod cli;
pub mod config;
pub mod discovery;
pub mod report;
pub mod repository;
pub mod status;
pub mod text;
pub mod update;
