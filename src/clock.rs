use vstd::prelude::*;

verus! {

/// Operations a clock gate offers.
pub trait ClockInterface {
    fn is_enabled(&self) -> bool;

    fn enable(&self);

    fn disable(&self);
}

/// A clock gate for peripherals that have no clock control: always on.
pub struct NoClockControl {}

impl ClockInterface for NoClockControl {
    fn is_enabled(&self) -> (r: bool)
        ensures
            r,
    {
        true
    }

    fn enable(&self) {
    }

    fn disable(&self) {
    }
}

} // verus!
