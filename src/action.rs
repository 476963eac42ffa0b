use vstd::prelude::*;

verus! {

/// One discrete remote command for the turret.
#[derive(Debug, Clone, Copy, PartialEq, Eq, Structural)]
pub enum Action {
    /// Step the azimuth motor to the left.
    Left,
    /// Step the azimuth motor to the right.
    Right,
    /// Pull the trigger.
    Shoot,
}

} // verus!
