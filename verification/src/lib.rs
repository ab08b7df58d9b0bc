//! An asynchronous Xenstore client.
//!
//! Clients hand their requests to a task that serves the connection: it multiplexes the concurrent
//! accesses and manages watches. Should that task die, every operation fails with a broken pipe
//! and every watch yields nothing more.
//!
//! This library holds everything that is decided and computed on the way: what goes over the wire
//! (`wire`, `text`, `permission`, `decimal`), what each operation sends and what its reply means
//! (`xs_async`, `interface`, `error`), how requests and watches are kept apart (`state`), what the
//! tasks behind a client do (`task`, `channel`), and how Xenstore is reached (`open`, `device`).
//! What holds of it as a whole is proved beside it: of texts and payloads (`payloads`), of each
//! operation (`operations`, `laws`), of each message that the task takes (`steps`), and of all that
//! clients and a connection do (`history`). Waiting, reading and writing are left to the caller.

pub mod channel;
pub mod decimal;
pub mod device;
pub mod error;
pub mod history;
pub mod interface;
pub mod laws;
pub mod open;
pub mod operations;
pub mod payloads;
pub mod permission;
pub mod state;
pub mod steps;
pub mod task;
pub mod text;
pub mod wire;
pub mod xs_async;
