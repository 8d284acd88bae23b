//! Coordination core of a language server: the background recomputation
//! worker's state machine, the shared symbol-table store, and the request
//! handlers that read it.

mod external;
pub mod completion;
pub mod context;
pub mod requests;
pub mod runner;
pub mod store;
pub mod symbols;
