//! A long-polling client core: a cursor-driven poll loop that fans each batch of events out to
//! independent processing tasks and joins them before the next fetch, the per-event task that
//! fetches an artifact and submits it back, and the pieces of the remote gateway that decide
//! rather than transport.

pub mod event;
pub mod gateway;
pub mod location;
pub mod poll;
pub mod task;
