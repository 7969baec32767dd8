//! Asynchronous task execution and streaming engine.
//!
//! The library models the core of an orchestration shell around a remote
//! inference backend: a registry of cancellable tasks, the consumption of an
//! incremental event stream into reasoning/content accumulators, the
//! line-by-line forwarding of a child process's output, the dispatch of a
//! configured tool to a concrete runtime, and the cleanup protocol for
//! ephemeral script files.  All decision logic is verified; the surrounding
//! I/O (network, processes, persistence) is driven by unverified glue that
//! feeds plain values into these functions.

pub mod chat;
pub mod context;
pub mod dispatch;
pub mod error;
pub mod events;
pub mod intent;
pub mod models;
pub mod process;
pub mod proxy_types;
pub mod registry;
pub mod stream;
pub mod text;
pub mod tools;
pub mod vector_types;
