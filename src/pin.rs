//! GPIO lines, their pull configuration and the transitions that trigger them.
use vstd::prelude::*;
use crate::error::{BridgeError, ConfigFault};

verus! {

/// Number of GPIO lines; pins are numbered from 0 below this.
pub const GPIO_COUNT: u8 = 40;

/// Lines from this number up are input-only and have no pull resistors.
pub const FIRST_INPUT_ONLY_PIN: u8 = 34;

/// Which pin transition, or which held level, raises the interrupt.
#[derive(Clone, Copy, Debug, PartialEq, Eq, Structural)]
pub enum TriggerEdge {
    RisingEdge,
    FallingEdge,
    AnyEdge,
    LevelHigh,
    LevelLow,
}

/// The internal pull resistor selected for an input line.
#[derive(Clone, Copy, Debug, PartialEq, Eq, Structural)]
pub enum Pull {
    Floating,
    Up,
    Down,
}

impl TriggerEdge {
    /// Whether a line that went from level `before` to level `after`
    /// raises an interrupt armed with this trigger.
    pub open spec fn spec_fires(self, before: bool, after: bool) -> bool {
        match self {
            TriggerEdge::RisingEdge => !before && after,
            TriggerEdge::FallingEdge => before && !after,
            TriggerEdge::AnyEdge => before != after,
            TriggerEdge::LevelHigh => after,
            TriggerEdge::LevelLow => !after,
        }
    }

    pub fn fires(&self, before: bool, after: bool) -> (r: bool)
        ensures
            r == self.spec_fires(before, after),
    {
        match self {
            TriggerEdge::RisingEdge => !before && after,
            TriggerEdge::FallingEdge => before && !after,
            TriggerEdge::AnyEdge => before != after,
            TriggerEdge::LevelHigh => after,
            TriggerEdge::LevelLow => !after,
        }
    }
}

/// What is wrong, if anything, with configuring `pin` as an input with `pull`.
pub open spec fn config_fault(pin: u8, pull: Pull) -> Option<ConfigFault> {
    if pin >= GPIO_COUNT {
        Some(ConfigFault::InvalidPin)
    } else if pin >= FIRST_INPUT_ONLY_PIN && pull != Pull::Floating {
        Some(ConfigFault::PullUnsupported)
    } else {
        None
    }
}

/// Checks that `pin` can be configured as an interrupt input with `pull`.
pub fn check_config(pin: u8, pull: Pull) -> (r: Result<(), BridgeError>)
    ensures
        match config_fault(pin, pull) {
            Some(f) => r == Err::<(), BridgeError>(BridgeError::Configuration(f)),
            None => r is Ok,
        },
{
    if pin >= GPIO_COUNT {
        Err(BridgeError::Configuration(ConfigFault::InvalidPin))
    } else if pin >= FIRST_INPUT_ONLY_PIN && !matches!(pull, Pull::Floating) {
        Err(BridgeError::Configuration(ConfigFault::PullUnsupported))
    } else {
        Ok(())
    }
}

} // verus!
