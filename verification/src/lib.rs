//! Backend logic of a small desktop tool: five stateless operations
//! (run a test file through an external runner, run a CLI tool, list
//! YAML files in a directory, read a file, write a file) behind a
//! command dispatcher. The decision and transformation logic is
//! verified here; the surrounding process and filesystem calls live in
//! the unverified shell that drives this library.

pub mod dispatch;
pub mod errors;
pub mod files;
pub mod listing;
pub mod runner;
pub mod text;
