//! The parts of the game server specification.

use vstd::prelude::*;

verus! {

/// The health checking configuration.
#[derive(Clone, Debug, PartialEq, Default)]
pub struct Health {
    pub disabled: bool,
    pub period_seconds: i32,
    pub failure_threshold: i32,
    pub initial_delay_seconds: i32,
}

} // verus!
