//! The decision core of a bridge between a managed host runtime and a native,
//! long-lived data service.
//!
//! Everything in this crate is a function from plain values to plain values:
//! the host-facing glue reads bytes from the boundary, calls in here, performs
//! the action it is told to perform (open the storage engine, run a backend
//! operation, launch the embedded service) and reports the outcome back.

pub mod entry;
pub mod envelope;
pub mod greeting;
pub mod handle;
pub mod init;
pub mod records;
pub mod service;
pub mod text;
