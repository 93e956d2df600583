//! Decoder for the telemetry that Campbell Iridium weather stations push over TCP.
//!
//! A message is a fixed preamble, a marker byte, a two-byte payload length and a
//! payload that is either a logger status record or a run of weather samples. Every
//! function here is a function of its arguments alone; sockets, files and the database
//! live with the caller.
//!
//! - [`fp2`], [`timestamp`] and [`wire`] decode the fields of a record.
//! - [`process_data`] validates a frame and decodes its payload as a whole.
//! - [`data_parser`] decodes record by record, and reads the text formats.
//! - [`server`] holds what a service decides about a message before decoding it.
//! - [`config`] and [`configuration`] hold the settings, [`error`] the decoding errors,
//!   [`text`] the handling of fields in text.

pub mod config;
pub mod configuration;
pub mod data_parser;
pub mod error;
pub mod fp2;
pub mod process_data;
pub mod server;
pub mod text;
pub mod timestamp;
pub mod wire;
