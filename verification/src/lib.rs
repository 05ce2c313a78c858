//! Resolution and lifecycle planning for multi-service development
//! environments that run on a container-compose tool.
//!
//! The library decides; it never touches the disk or starts a process. Every
//! operation takes what the caller has observed (file contents, whether a
//! path exists) and returns what is to be done, as plain values:
//!
//! - a command gives a pipeline of stages (`commands`, `pipeline`);
//! - a stage on a service gives a plan of steps (`lifecycle`);
//! - a plan is carried out step by step, and each outcome is settled
//!   (`plan`, `execution`).
//!
//! Three things are taken on trust from other crates: what `toml` reads
//! from a text (`document`), how `prettytable` lays out a table (`table`),
//! and where `dirs` finds the user's home (`paths`). What is proved of all
//! services, projects and pipelines is collected in `guarantees`.

pub mod commands;
pub mod document;
pub mod errors;
pub mod execution;
pub mod guarantees;
pub mod lifecycle;
pub mod paths;
pub mod pipeline;
pub mod plan;
pub mod project;
pub mod rehydration;
pub mod service;
pub mod table;
pub mod task;
pub mod text;
