//! The slot that holds the latest sample.

use crate::sample::TimeSample;
use vstd::prelude::*;

verus! {

/// The latest sample, or none while no exchange has succeeded yet.
///
/// Seen through `@`, the state is an `Option<TimeSample>`. A sample enters
/// whole and is replaced whole: writing takes the slot exclusively, so no
/// reader ever sees parts of two samples.
#[derive(Debug)]
pub struct SharedTimeState {
    current: Option<TimeSample>,
}

impl View for SharedTimeState {
    type V = Option<TimeSample>;

    closed spec fn view(&self) -> Option<TimeSample> {
        self.current
    }
}

impl SharedTimeState {
    /// An empty slot.
    pub fn new() -> (r: SharedTimeState)
        ensures
            r@ is None,
    {
        SharedTimeState { current: None }
    }

    /// Puts `sample` in the slot, in place of whatever was there.
    pub fn publish(&mut self, sample: TimeSample)
        ensures
            final(self)@ == Some(sample),
    {
        self.current = Some(sample);
    }

    /// The sample in the slot, if there is one.
    pub fn snapshot(&self) -> (r: Option<TimeSample>)
        ensures
            r == self@,
    {
        self.current
    }
}

} // verus!
