//! The typed model of a weather forecast response, its decoding from JSON,
//! and the mapping from a decoded response to the lines of a console report.
//!
//! - `model`: the entities of a response, each with its mathematical view.
//! - `json`: the model of a JSON document and the calls into `serde_json`.
//! - `fields`: reading one member of an object as the kind the schema asks.
//! - `decode`: the schema, decoding, and when decoding fails.
//! - `encode`: writing a response back, and the laws of the round trip.
//! - `tables`: wind arrows and air quality labels, with their fallbacks.
//! - `report`: the lines of the report, in their fixed order.
//! - `request`: the decisions made before a response is asked for.
//! - `text`: integers written in decimal.

pub mod decode;
pub mod encode;
pub mod fields;
pub mod json;
pub mod model;
pub mod report;
pub mod request;
pub mod tables;
pub mod text;
