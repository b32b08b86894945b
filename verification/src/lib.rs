//! Typed requests and replies for the SAPI configuration service.
//!
//! The library decides what is sent and what a reply means; it does no I/O.
//! A caller asks [`SAPI`] for the [`Request`] of an operation, performs it
//! with a transport of its choice, and hands the outcome back to be decoded
//! into the records of the service.

pub mod client;
pub mod data;
pub mod error;
pub mod json;
pub mod laws;
pub mod record;
pub mod reply;
pub mod request;

pub use client::SAPI;
pub use data::{
    ApplicationData, Applications, InstanceData, Instances, SapiManifests, ServiceData, Services,
    ZoneConfig,
};
pub use error::{DecodeError, SapiError};
pub use json::Json;
pub use record::{decode, decode_list, Record};
pub use reply::{Fetch, FetchList, Response, Submit};
pub use request::{Header, Method, Request};
