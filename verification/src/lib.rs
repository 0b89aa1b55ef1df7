//! A geocoding gateway library: builds structured full-text and reverse
//! geocoding queries over OpenStreetMap place documents and shapes backend
//! hits into GeoJSON feature collections.
//!
//! Coordinates are carried as fixed-point integers in micro-degrees
//! (1 unit = 0.000001 degree); score factors are carried in milli units
//! (1 unit = 0.001) and decay scales in nano units (1 unit = 0.000000001).

pub mod address_type;
pub mod config;
pub mod connection;
pub mod doc;
pub mod elastic;
pub mod errors;
pub mod handlers;
pub mod query;
pub mod request;
pub mod response;
pub mod text;
pub mod validation;
