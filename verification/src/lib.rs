//! Core of a small authenticated upload service: credential lookup, random
//! file names, and the decisions of the upload pipeline.
//!
//! The library does no input or output. The service around it fetches the
//! parts of a request, writes files and sends answers; the library says
//! what is to be done and in which order.

pub mod alphabet;
pub mod credentials;
pub mod generator;
pub mod names;
pub mod notice;
pub mod response;
pub mod settings;
pub mod text;
pub mod upload;
pub mod writer;
