//! Decoder for BEAST-framed Mode-S / ADS-B receiver output.
//!
//! The crate is organised leaves first:
//! - `bits` serves big-endian bit fields out of a byte buffer;
//! - `fields` and `text` turn raw field values into their meaning (altitude,
//!   squawk, call-sign characters, hex addresses, status tables);
//! - `adsb` decodes the 56-bit ME field of an extended squitter;
//! - `parser` dispatches a Mode-S payload by downlink format;
//! - `framer` carves BEAST records out of a growing byte buffer, collapsing
//!   doubled sentinels, and decodes each one;
//! - `configuration` and `counters` hold the small computations of the
//!   exporter around the decoder: reading intervals and advancing counters.

pub mod adsb;
pub mod bits;
pub mod configuration;
pub mod counters;
pub mod error;
pub mod fields;
pub mod framer;
pub mod message;
pub mod parser;
pub mod text;

pub use crate::bits::BitReader;
pub use crate::error::DecodeError;
pub use crate::framer::{decode_frame, Codec, Frame, Parser};
pub use crate::message::{ADSBMessage, Data, Message};
