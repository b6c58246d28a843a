//! Client core for the Pavlok stimulus-delivery HTTP API.
//!
//! The API triggers one of four actions (`shock`, `beep`, `vibration`, `led`)
//! on a remote wearable device with a single HTTP POST per call. This crate
//! holds the request construction, intensity validation and error mapping:
//! everything about a command that can be decided before the request leaves
//! the process, and everything about the outcome once the transport has
//! reported back. The transport itself (HTTP, JSON decoding) is left to thin
//! adapters built on top of these types.

pub mod client;
pub mod error;
pub mod response;
pub mod stimulus;

pub use client::Client;
pub use client::HttpRequest;
pub use client::Outcome;
pub use client::complete;
pub use error::Error;
pub use response::StimuliResponse;
pub use stimulus::Stimulus;
pub use stimulus::decimal_str;
