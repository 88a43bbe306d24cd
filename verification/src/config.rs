//! Static configuration of an actuator, of the step/dir hardware and of a
//! control node.

use vstd::prelude::*;

verus! {

/// The mechanics and limits of one actuator.
#[derive(Clone, Copy, Debug, PartialEq, Eq)]
pub struct ActuatorConfig {
    pub id: u8,
    pub name: &'static str,
    pub steps_per_motor_rev: u32,
    pub microsteps: u16,
    pub gear_ratio_num: u32,
    pub gear_ratio_den: u32,
    pub min_pos_steps: i32,
    pub max_pos_steps: i32,
    pub max_vel_steps_s: u32,
    pub max_accel_steps_s2: u32,
}

impl crate::hal::Config for ActuatorConfig {}

impl Default for ActuatorConfig {
    /// Actuator 0, named `actuator`: a 200-step motor at 16 microsteps,
    /// direct drive, with no travel, speed or acceleration allowed yet.
    fn default() -> (c: Self)
        ensures
            c.id == 0,
            c.name@ == "actuator"@,
            c.steps_per_motor_rev == 200,
            c.microsteps == 16,
            c.gear_ratio_num == 1,
            c.gear_ratio_den == 1,
            c.min_pos_steps == 0,
            c.max_pos_steps == 0,
            c.max_vel_steps_s == 0,
            c.max_accel_steps_s2 == 0,
    {
        ActuatorConfig {
            id: 0,
            name: "actuator",
            steps_per_motor_rev: 200,
            microsteps: 16,
            gear_ratio_num: 1,
            gear_ratio_den: 1,
            min_pos_steps: 0,
            max_pos_steps: 0,
            max_vel_steps_s: 0,
            max_accel_steps_s2: 0,
        }
    }
}

/// How the step/dir/enable pins are wired.
#[derive(Clone, Copy, Debug, PartialEq, Eq, Structural)]
pub struct HardwareConfig {
    pub enable_active_low: bool,
    pub dir_inverted: bool,
    pub pulse_width_ticks: u16,
}

impl Default for HardwareConfig {
    /// Enable active low, direction not inverted, one-tick step pulses.
    fn default() -> (c: Self)
        ensures
            c == (HardwareConfig {
                enable_active_low: true,
                dir_inverted: false,
                pulse_width_ticks: 1,
            }),
    {
        HardwareConfig { enable_active_low: true, dir_inverted: false, pulse_width_ticks: 1 }
    }
}

/// Identity and control rate of a node.
#[derive(Clone, Copy, Debug, PartialEq, Eq)]
pub struct NodeConfig {
    pub node_id: u8,
    pub name: &'static str,
    pub control_hz: u32,
}

impl Default for NodeConfig {
    /// Node 0, named `mcn-node`, controlled at 10 kHz.
    fn default() -> (c: Self)
        ensures
            c.node_id == 0,
            c.name@ == "mcn-node"@,
            c.control_hz == 10_000,
    {
        NodeConfig { node_id: 0, name: "mcn-node", control_hz: 10_000 }
    }
}

} // verus!
