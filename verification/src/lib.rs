//! Codec for the ADS/AMS industrial-automation wire protocol.
//!
//! Typed commands are turned into exact byte sequences and back. Every
//! encoder states the bytes it appends, every decoder states the value it
//! returns for each input, and the two are proved to be inverse.

pub mod ads_services;
pub mod error;
pub mod proto;
