//! Verified core of a command-line client for a smart-lighting bridge.
//!
//! The bridge is controlled over HTTP: one PUT request per invocation either
//! toggles a light group on or off, or sets its color as a pair of CIE xy
//! chromaticity coordinates. This crate holds the logic worth proving:
//! resolving the JSON configuration file into a validated client, checking
//! command arguments, looking presets up by name, and building the exact
//! request URL and JSON body. Reading the file and sending the request are
//! left to the thin binary around it.

pub mod client;
pub mod command;
pub mod config;
pub mod decimal;
pub mod errors;
pub mod jsondoc;
pub mod load;
pub mod numtext;
