//! Bridges streams from a third-party relay network into a home relay network.
//!
//! The library holds the decisions of the bridge: which registry entries are
//! eligible, which streams are being bridged, and what each connection
//! supervisor and each bridge task does next. The program around it performs
//! the network work and feeds the outcomes back in.
pub mod config;
pub mod registry;
pub mod bridges;
pub mod task;
pub mod supervisor;
