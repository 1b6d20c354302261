//! The light actuator capability.

use vstd::prelude::*;

verus! {

/// Something that switches the light.
pub trait LightActuator {
    /// Whether the actuator holds the light to be on. An actuator that does
    /// not say has some fixed answer of which nothing is known.
    open spec fn lit(&self) -> bool {
        arbitrary()
    }

    /// Switches the light on.
    fn turn_on(&mut self)
        ensures
            final(self).lit(),
    ;

    /// Switches the light off.
    fn turn_off(&mut self)
        ensures
            !final(self).lit(),
    ;
}

} // verus!
