//! Client-side logic for the HTTP status API that an Awair air-quality
//! sensor serves on the local network.
//!
//! The library decides and decodes; it performs no I/O. A caller builds an
//! [`Awair`] from the device's base URL, asks it which URL to fetch, performs
//! the GET itself, and hands the [`Reply`] back to be checked and decoded.

pub mod address;
pub mod air;
pub mod client;
pub mod config;
pub mod error;
pub mod json;
pub mod reply;
pub mod schema;
pub mod time;

pub use air::AirData;
pub use client::Awair;
pub use config::{DeviceConfig, LedConfig};
pub use error::{DecodeError, Error, Failure};
pub use json::{Json, Number};
pub use reply::Reply;
pub use time::Timestamp;
