//! The motion sensor capability.

use vstd::prelude::*;

verus! {

/// A sensor that says whether motion is seen right now.
pub trait MotionSensor {
    fn motion_detected(&self) -> bool;
}

} // verus!
