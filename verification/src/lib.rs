//! The process-management core of an interactive development shell.
//!
//! The crate holds the rules of the core as plain functions with contracts:
//! the frame codec of the language-server wire format, the session registries
//! of the shell and language-server managers, the request dispatcher with its
//! version test, and the messages that flow between them. Starting processes,
//! reading and writing their pipes and delivering notifications are left to
//! the caller, which hands the outcomes back as plain values.

pub mod bytes;
pub mod codec;
pub mod dispatcher;
pub mod fs_handlers;
pub mod header;
pub mod ipc;
pub mod json;
pub mod lsp;
pub mod memory_store;
pub mod registry;
pub mod terminal;
pub mod workspace;
