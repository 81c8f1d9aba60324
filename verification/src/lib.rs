//! Orchestration logic for compiling a CUDA crate into PTX assembly: what kind
//! of crate is being built, where its output is cached, how the toolchain is
//! invoked and how its diagnostics are reported.
//!
//! Every function here works on plain values; reading files, the environment
//! and running processes is left to the caller.

pub mod builder;
pub mod diagnostics;
pub mod document;
pub mod error;
pub mod executable;
pub mod manifest;
pub mod prelude;
pub mod source;
pub mod text;
