//! A verified in-memory ticket-tracking service.
//!
//! Tickets carry a validated title and description together with a
//! three-valued workflow status.  A [`store::TicketStore`] owns every
//! ticket and mints strictly increasing identifiers; the functions in
//! [`server`] translate request-shaped input into store operations and
//! the functions in [`wire`] produce the JSON bodies sent back to
//! clients.

pub mod data;
pub mod error;
pub mod saturating;
pub mod server;
pub mod store;
pub mod ticket_v1;
pub mod wire;
