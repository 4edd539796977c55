//! Inventory reporting over a container-image registry.
//!
//! The library holds everything the report computes: deciding which images
//! are reported, extracting row fields with their documented defaults,
//! rendering rows and the header as semicolon-delimited lines, and choosing
//! the run mode from command-line arguments. Fetching the data from the
//! registry is left to the surrounding binary, which hands the records in
//! as plain values.

pub mod cli;
pub mod datetime;
pub mod extract;
pub mod model;
pub mod report;
