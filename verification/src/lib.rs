//! Typed client core for a JSON-RPC business-application server.
//!
//! The library builds the outbound request envelopes, interprets the
//! inbound response envelopes, keeps the authenticated-session state
//! machine, and applies the nullable-field decoding policy. Sending the
//! envelopes over HTTP is left to the surrounding program.

pub mod api;
pub mod error;
pub mod json;
pub mod nullable;
pub mod odoo;
