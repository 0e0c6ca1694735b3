//! Memory-safe binding patterns for a C-callable interface: primitives,
//! vectors, transparent records, opaque handles, nullable references and
//! output slots, each with a machine-checked contract.

pub mod anything;
pub mod api;
pub mod ffi;
pub mod repr;
