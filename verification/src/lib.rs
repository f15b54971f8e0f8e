//! Verified core of a validator and automatic test suite for CLAP audio plugins.

pub mod buffer;
pub mod callbacks;
pub mod config;
pub mod duration;
pub mod events;
pub mod fuzz;
pub mod host;
pub mod index;
pub mod indexer;
pub mod keyed;
pub mod library;
pub mod listing;
pub mod panic;
pub mod params;
pub mod ports;
pub mod preset;
pub mod receiver;
pub mod registry;
pub mod runner;
pub mod settings;
pub mod status;
pub mod stream;
pub mod text;
pub mod tracing;
pub mod transport;
