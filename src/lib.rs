//! Reactive async-data layer of the Mars wallet front end.
//!
//! A remote read goes through a [`fetch_cell::FetchCell`]: a hook asks the
//! cell for a key, the cell answers with a [`fetch_cell::Ticket`] when a fetch
//! has to be issued, the host runs the gateway call and hands the outcome back
//! with the ticket. Only the outcome of the latest ticket is ever committed.
//!
//! Each hook instance owns its own cell: two views that read the same key
//! fetch it independently, and no cache is shared between them.
pub mod activity;
pub mod address;
pub mod async_result;
pub mod fetch_cell;
pub mod hooks;
pub mod model;
pub mod pagination;
