//! Decoder for the EVTC binary combat-log format.
//!
//! An EVTC stream consists of a 16-byte header, a count-prefixed table of
//! fixed-size agent records, a count-prefixed table of fixed-size skill
//! records, and a tail of fixed-size combat events.  All multi-byte integers
//! are little-endian.  The decoder turns such a stream into an [`evtc::Encounter`]
//! and is specified, down to the error returned for each malformed input, by
//! the spec function [`evtc::spec_decode`].

pub mod bossdata;
pub mod encode;
pub mod evtc;
pub mod names;
pub mod reader;
