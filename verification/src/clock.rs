//! Pacing a fixed-cadence simulation loop against wall-clock time.
//!
//! Each tick the driver records the wall time, runs the force model
//! and the integrator, measures how long that took, and asks this
//! module what to do next. A tick that finished under budget sleeps
//! for exactly the remainder; a tick that met or exceeded its budget
//! is reported as an overrun, by how much, and the loop proceeds to
//! the next tick immediately. An overrun is deliberate, non-fatal
//! information for the driver, never an error: the chosen policy is to
//! report and continue, accumulating no time debt and skipping
//! nothing. Only a failure to read the wall clock at all ends the
//! loop, and that decision belongs to the driver.

use vstd::prelude::*;

verus! {

/// What the loop should do after one tick, measured against the
/// budget.
#[derive(Clone, Copy, Debug, PartialEq, Eq, Structural)]
pub enum TickPacing {
    /// The tick finished early: sleep this many nanoseconds to hold
    /// the cadence.
    Sleep(u64),
    /// The tick met or exceeded its budget by this many nanoseconds:
    /// report it and continue at once.
    Overrun(u64),
}

/// Decide the pacing of one tick: sleep for exactly the unused part of
/// the budget, or name the overrun.
pub fn pace(budget_ns: u64, elapsed_ns: u64) -> (r: TickPacing)
    ensures
        elapsed_ns < budget_ns ==> r == TickPacing::Sleep((budget_ns - elapsed_ns) as u64),
        elapsed_ns >= budget_ns ==> r == TickPacing::Overrun((elapsed_ns - budget_ns) as u64),
{
    if elapsed_ns < budget_ns {
        TickPacing::Sleep(budget_ns - elapsed_ns)
    } else {
        TickPacing::Overrun(elapsed_ns - budget_ns)
    }
}

} // verus!
