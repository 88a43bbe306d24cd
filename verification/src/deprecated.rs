//! The first actuator design, kept for the types later code still names.

use vstd::prelude::*;
use crate::hal::Config;

verus! {

/// The configuration of an actuator node.
pub trait ActuatorConfig: Config {}

/// An actuator configuration with nothing in it yet.
pub struct ActuatorConf {}

impl Config for ActuatorConf {}

impl ActuatorConfig for ActuatorConf {}

/// The homing command.
pub struct HomeCommand;

} // verus!
