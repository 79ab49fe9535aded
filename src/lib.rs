//! Monthly forwarding of bank-statement attachments.
//!
//! The library holds the decisions of the workflow: the search query for the
//! current month, which attachments count as statements, the order of the
//! steps (search, fetch, confirm, send) and the parts of the outgoing message.
//! The mail sessions themselves are driven by the caller.
pub mod calendar;
pub mod statements;
pub mod workflow;
pub mod outgoing;
pub mod bridge;
