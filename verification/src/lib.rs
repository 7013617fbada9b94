//! A minimal bridge between a message broker and a chat notification
//! endpoint.
//!
//! The crate turns a local configuration document into an outbound webhook
//! notification: it extracts the webhook URL from the document, sequences a
//! broker session through its connection lifecycle, renders one fixed alert
//! payload as JSON text, and interprets the webhook's HTTP response.  All
//! decisions live here, verified; the surrounding process performs the actual
//! file, broker and network operations and feeds their outcomes back in as
//! events.

pub mod broker;
pub mod config;
pub mod notify;
pub mod run;
