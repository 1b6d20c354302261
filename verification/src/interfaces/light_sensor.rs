//! The ambient-light sensor capability.

use vstd::prelude::*;

verus! {

/// A sensor that says whether the ambient light is low enough to want the
/// light on.
pub trait AmbientLightSensor {
    fn is_low(&self) -> bool;
}

} // verus!
