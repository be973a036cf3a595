//! The failures that the bridge reports.
use vstd::prelude::*;

verus! {

/// Why a pin could not be configured for interrupts.
#[derive(Clone, Copy, Debug, PartialEq, Eq, Structural)]
pub enum ConfigFault {
    /// The pin number names no GPIO line.
    InvalidPin,
    /// The line is input-only and has no internal pull resistor.
    PullUnsupported,
}

/// Why a callback could not be registered with the interrupt service.
#[derive(Clone, Copy, Debug, PartialEq, Eq, Structural)]
pub enum RegistrationFault {
    /// The interrupt service has not been installed.
    ServiceNotInstalled,
    /// The pin already has an armed subscription.
    AlreadyArmed,
}

#[derive(Clone, Copy, Debug, PartialEq, Eq, Structural)]
pub enum BridgeError {
    /// Configuring the pin failed; nothing was armed.
    Configuration(ConfigFault),
    /// Registering the callback failed; nothing was armed.
    Registration(RegistrationFault),
    /// Detach was asked for a pin with no active registration.
    Teardown,
    /// The mailbox was full (or has no room at all); the message was not queued.
    Post,
}

} // verus!
