//! Frame relay and command actuation for a camera turret.
//!
//! Captured frames go through a bounded queue that drops on overflow to the
//! single most recently connected viewer; remote commands go through an
//! ordered queue to an actuator that carries out one whole pulse sequence at a
//! time.
use vstd::prelude::*;

pub mod action;
pub mod actuator;
pub mod capture;
pub mod command_channel;
pub mod frame_channel;
pub mod ingress;
pub mod jpeg;
pub mod relay;

verus! {

} // verus!
