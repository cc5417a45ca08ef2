//! A WebAssembly execution unit: deploys signed packages into per-task
//! workspaces and runs their entrypoints inside a sandbox with a strictly
//! limited view of the host filesystem.
//!
//! The crate covers the package and manifest model, the deployment engine,
//! the guest-memory marshalling layer of the host-ABI flavour, and the
//! virtual-filesystem mediator with its file-descriptor table. Filesystem
//! and process plumbing around these lives outside the library.

pub mod aswasm;
pub mod cli;
pub mod deploy;
pub mod entrypoint;
pub mod error;
pub mod eth;
pub mod guestmem;
pub mod hex;
pub mod manifest;
pub mod service;
pub mod strutil;
pub mod utf16;
pub mod vfs;
pub mod wasmtime_unit;
