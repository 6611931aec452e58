//! Schema types for a chat platform's Connect integration API.
//!
//! The library models four JSON schema families — capability descriptors,
//! outbound notifications, inbound webhook requests, and user-management
//! payloads — together with a verified JSON codec.  Every encoder states
//! exactly which wire object it produces, and every decoder states exactly
//! on which wire values it succeeds and what it returns.

pub mod capabilities;
pub mod event;
pub mod json;
pub mod notification;
pub mod parse;
pub mod request;
pub mod round_trip;
pub mod user;
