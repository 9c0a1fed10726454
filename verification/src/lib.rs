//! Scaffolding of a generated API client crate.
//!
//! The library models the pipeline that turns an OpenAPI specification into a
//! Rust crate as a graph of named tasks for an external task runner, and it
//! decides the order of the setup steps that prepare the target directory.
//! Nothing here touches the file system or starts a process: the caller
//! performs each step and reports its outcome back.

pub mod cli;
pub mod text;
pub mod tasks;
pub mod catalog;
pub mod cargos;
pub mod yaml;
pub mod errors;
pub mod yamls;
pub mod task_map;
pub mod makefiles;
pub mod crate_scaffolds;
