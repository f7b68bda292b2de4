//! The pattern driver's tick logic: an independent periodic task reads the
//! active signal and commands the actuator, pulsing between two intensities
//! while the signal holds and stopping outright while it does not.
//!
//! The caller runs the timer loop and sends the returned commands to the
//! device; a transiently unreachable actuator is discarded for that tick and
//! the loop goes on. The loop ends only on global shutdown.

use vstd::prelude::*;

verus! {

/// The tick period, in milliseconds.
pub const TICK_MILLIS: u64 = 230;

/// The softer pulse intensity, in thousandths of full scale.
pub const LOW_PERMILLE: u16 = 300;

/// The stronger pulse intensity, in thousandths of full scale.
pub const HIGH_PERMILLE: u16 = 800;

/// One command for the actuator.
#[derive(Clone, Copy, Debug, PartialEq, Eq, Structural)]
pub enum PatternCommand {
    /// Vibrate at this intensity, in thousandths of full scale.
    Vibrate(u16),
    /// Stop outright.
    Stop,
}

/// The driver's own state: which phase of the pulse the last active tick
/// commanded.
#[derive(Clone, Copy, Debug, PartialEq, Eq, Structural)]
pub struct Pattern {
    pub on: bool,
}

impl Pattern {
    /// A fresh driver, starting on the stronger phase.
    pub fn new() -> (r: Pattern)
        ensures
            !r.on,
    {
        Pattern { on: false }
    }

    /// One tick. While the signal is active, successive ticks alternate the
    /// commanded intensity between the two fixed levels; while it is not,
    /// the actuator is set to zero and stopped, and the phase is kept.
    pub fn tick(&mut self, active: bool) -> (cmds: Vec<PatternCommand>)
        ensures
            active && old(self).on ==> cmds@ == seq![PatternCommand::Vibrate(LOW_PERMILLE)]
                && !final(self).on,
            active && !old(self).on ==> cmds@ == seq![PatternCommand::Vibrate(HIGH_PERMILLE)]
                && final(self).on,
            !active ==> cmds@ == seq![PatternCommand::Vibrate(0u16), PatternCommand::Stop]
                && *final(self) == *old(self),
    {
        let mut cmds: Vec<PatternCommand> = Vec::new();
        if active {
            if self.on {
                cmds.push(PatternCommand::Vibrate(LOW_PERMILLE));
                self.on = false;
            } else {
                cmds.push(PatternCommand::Vibrate(HIGH_PERMILLE));
                self.on = true;
            }
        } else {
            cmds.push(PatternCommand::Vibrate(0));
            cmds.push(PatternCommand::Stop);
        }
        cmds
    }
}

} // verus!
