//! A client core for the SpaceTraders REST API that performs no I/O itself.
//!
//! The crate builds request descriptors, classifies what a transport brought
//! back, and reads the `{"data": ...}` envelope of a successful response body
//! into typed payloads. Sending a request is left to the caller.
//!
//! - [`client`]: requests, replies, the three kinds of failure, and the
//!   classification that every call goes through.
//! - [`envelope`]: the envelope, and the shapes that a payload is read as.
//! - [`json`] and [`reader`]: JSON documents, and reading them from text.
//! - [`agent`], [`contracts`], [`waypoint`], [`registration`]: the resources
//!   of the API, each with its shape, its requests and its description for
//!   an operator.
//! - [`config`]: the settings that are kept between runs.
//! - [`text`]: decimal notation and other small operations on text.

pub mod agent;
pub mod client;
pub mod config;
pub mod contracts;
pub mod envelope;
pub mod json;
pub mod reader;
pub mod registration;
pub mod text;
pub mod waypoint;
