//! Verified core of an Agent2Agent (A2A) protocol library: the error model
//! and its protocol-binding mappings, the protocol data model, the
//! field-by-field conversions between the data model and its gRPC wire
//! form, and the pure decisions the protocol clients make.
pub mod text;
pub mod error;
pub mod json;
pub mod time;
pub mod types;
pub mod pb;
pub mod status;
pub mod convert;
pub mod round_trip;
pub mod wire_fields;
pub mod client;
pub mod server;

pub use error::A2aError;
pub use client::{AGENT_CARD_WELL_KNOWN_PATH, PROTOCOL_VERSION};
