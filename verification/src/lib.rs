//! Partition routing for a graph engine whose partitioned tables may live on other hosts.
//!
//! Partitioned node tables keep their rows in partition subgraphs. In a distributed deployment a
//! partition may live elsewhere; the engine asks its routing hooks where, tells them of partitions
//! that come and go, and sends them the rows of the partitions that they claimed.
//!
//! - [`registry`]: the process-global installation and its guard. At most one set of callbacks is
//!   installed at a time.
//! - [`callbacks`]: the wrapper's callbacks, and how a notification or a row reaches them.
//! - [`hooks`]: what the engine is answered, and what is reported when a callback panics. A
//!   panicking callback aborts the process rather than letting corrupt state flow back.
//! - [`schema`] and [`logical_type`]: the scan schemas through which claimed partitions read back.
//! - [`engine`]: how a build obtains and links the engine.
//!
//! Calls into the engine and into the callbacks are made by the caller: a function that needs one
//! takes it as a closure and makes it at most once.

#![allow(unused_imports)]

pub mod callbacks;
pub mod engine;
pub mod error;
pub mod hooks;
pub mod logical_type;
pub mod registry;
pub mod schema;
pub mod text;

pub use callbacks::{Callbacks, PartitionRef};
pub use error::Error;
pub use logical_type::{logical_type_id, LogicalType};
pub use registry::{Registry, RoutingGuard};
