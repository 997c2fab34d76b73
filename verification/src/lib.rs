//! Verified core of a reader for Solinteg hybrid inverters.
//!
//! The library holds everything the reader decides or computes: command-line
//! handling, the configuration and its redacted dump, the Modbus register plan
//! and the decoding of register words, the plausibility check of readings,
//! the human-readable report, the InfluxDB line protocol and write request,
//! and the timestamped console output.
pub mod cli;
pub mod clock;
pub mod config;
pub mod cycle;
pub mod decimal;
pub mod influx;
pub mod registers;
pub mod report;
pub mod text;
