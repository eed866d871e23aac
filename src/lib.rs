//! Control logic of a harness that exercises a data-availability network
//! client: run configuration, the test payload, verification of retrieved
//! bytes and the run controller's state machine. The network client, the
//! metrics exporter and the async runtime live around this library.
pub mod config;
pub mod controller;
pub mod payload;
pub mod round;
