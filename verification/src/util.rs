//! The error taxonomy of the simulator.
//!
//! Three conditions matter to the physics core: a degenerate numeric
//! input (rejected at the operation boundary rather than letting garbage
//! propagate), a tick that overran its time budget, and a wall clock that
//! could not be read. The driver around the library owns all user-visible
//! reporting; it carries richer payloads (source errors, formatted
//! messages) in its own mirror of this type.

use vstd::prelude::*;

verus! {

/// The result channel of the simulator.
#[derive(Debug, PartialEq, Eq)]
pub enum EleaError {
    /// An input/output failure in the surrounding driver.
    Io(String),
    /// A degenerate numeric input, such as normalizing a zero-magnitude
    /// vector.
    InvalidData(String),
    /// A tick's compute time exceeded its budget by the given number of
    /// nanoseconds.
    Timeout(u64),
    /// The wall clock could not be read.
    Time(String),
    /// An unclassified failure.
    Unknown,
}

} // verus!
