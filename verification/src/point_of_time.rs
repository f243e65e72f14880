//! A solar transition, ordered in time.

use vstd::prelude::*;
use vstd::std_specs::cmp::PartialEqSpecImpl;
use vstd::std_specs::cmp::PartialOrdSpecImpl;

use std::cmp::Ordering;

use crate::types::TimeType;

verus! {

/// One sunrise or sunset. Two points compare by their epochs alone: a
/// sunrise and a sunset on the same millisecond are equal.
#[derive(Clone, Copy, Debug)]
pub struct PointOfTime {
    pub time_type: TimeType,
    pub epoch: i64,
}

impl PointOfTime {
    /// How `self` stands to `other` in time.
    pub open spec fn order(self, other: PointOfTime) -> Ordering {
        if self.epoch < other.epoch {
            Ordering::Less
        } else if self.epoch == other.epoch {
            Ordering::Equal
        } else {
            Ordering::Greater
        }
    }

    /// Compares two points by epoch.
    pub fn cmp(&self, other: &PointOfTime) -> (r: Ordering)
        ensures
            r == self.order(*other),
    {
        if self.epoch < other.epoch {
            Ordering::Less
        } else if self.epoch == other.epoch {
            Ordering::Equal
        } else {
            Ordering::Greater
        }
    }
}

impl PartialEq for PointOfTime {
    fn eq(&self, other: &PointOfTime) -> (r: bool) {
        self.epoch == other.epoch
    }
}

impl PartialEqSpecImpl for PointOfTime {
    open spec fn obeys_eq_spec() -> bool {
        true
    }

    open spec fn eq_spec(&self, other: &PointOfTime) -> bool {
        self.epoch == other.epoch
    }
}

impl Eq for PointOfTime {

}

impl PartialOrd for PointOfTime {
    fn partial_cmp(&self, other: &PointOfTime) -> (r: Option<Ordering>) {
        Some(self.cmp(other))
    }
}

impl PartialOrdSpecImpl for PointOfTime {
    open spec fn obeys_partial_cmp_spec() -> bool {
        true
    }

    open spec fn partial_cmp_spec(&self, other: &PointOfTime) -> Option<Ordering> {
        Some(self.order(*other))
    }
}

} // verus!
