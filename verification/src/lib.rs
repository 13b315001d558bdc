//! Verified core of an FTP-to-FTP file transfer pipeline.
//!
//! The library holds the selection logic of the pipeline — the regex filter
//! over a directory listing, the modification-time filter, target-name
//! derivation — and the state machine that sequences connecting, listing,
//! filtering and transferring. Network I/O itself is performed by a driver
//! outside the library, which feeds the state machine with events and
//! carries out the actions it requests.

pub mod errors;
pub mod paths;
pub mod pattern;
pub mod pipeline;
pub mod time_window;
