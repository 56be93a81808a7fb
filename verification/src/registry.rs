//! Ownership of the hardware blocks.
//!
//! The motor hardware and the sensor hardware can each be set up once. The
//! registry records what was handed out; asking for a block a second time is
//! a configuration error that the caller is expected to treat as fatal.

use vstd::prelude::*;

verus! {

/// A hardware block that is set up as a whole.
#[derive(Clone, Copy, Debug, PartialEq, Eq, Structural)]
pub enum Resource {
    /// The PWM unit and the direction lines of both motors.
    Motors,
    /// The trigger and echo lines of both ultrasonic sensors.
    Sensors,
}

/// Why a hardware block could not be handed out.
#[derive(Clone, Copy, Debug, PartialEq, Eq, Structural)]
pub enum ConfigError {
    /// The block was handed out before.
    AlreadyRegistered(Resource),
}

/// Which hardware blocks were handed out, as a value.
pub struct RegistryView {
    pub motors: bool,
    pub sensors: bool,
}

impl RegistryView {
    /// Whether `resource` was handed out.
    pub open spec fn holds(self, resource: Resource) -> bool {
        match resource {
            Resource::Motors => self.motors,
            Resource::Sensors => self.sensors,
        }
    }

    /// The registry after `resource` was handed out.
    pub open spec fn with(self, resource: Resource) -> RegistryView {
        match resource {
            Resource::Motors => RegistryView { motors: true, ..self },
            Resource::Sensors => RegistryView { sensors: true, ..self },
        }
    }

    /// What a request for `resource` returns.
    pub open spec fn request(self, resource: Resource) -> Result<(), ConfigError> {
        if self.holds(resource) {
            Err(ConfigError::AlreadyRegistered(resource))
        } else {
            Ok(())
        }
    }

    /// The registry after a request for `resource`: a refused request changes
    /// nothing.
    pub open spec fn requested(self, resource: Resource) -> RegistryView {
        if self.holds(resource) {
            self
        } else {
            self.with(resource)
        }
    }
}

/// Records which hardware blocks were handed out.
pub struct Registry {
    motors: bool,
    sensors: bool,
}

impl View for Registry {
    type V = RegistryView;

    closed spec fn view(&self) -> RegistryView {
        RegistryView { motors: self.motors, sensors: self.sensors }
    }
}

impl Registry {
    /// Nothing handed out yet.
    pub fn new() -> (registry: Self)
        ensures
            registry@ == (RegistryView { motors: false, sensors: false }),
        no_unwind
    {
        Registry { motors: false, sensors: false }
    }

    /// Whether `resource` was handed out.
    pub fn holds(&self, resource: Resource) -> (held: bool)
        ensures
            held == self@.holds(resource),
        no_unwind
    {
        match resource {
            Resource::Motors => self.motors,
            Resource::Sensors => self.sensors,
        }
    }

    /// Hands out `resource` if it was not handed out before, and fails with
    /// [`ConfigError::AlreadyRegistered`] if it was.
    pub fn register(&mut self, resource: Resource) -> (granted: Result<(), ConfigError>)
        ensures
            granted == old(self)@.request(resource),
            final(self)@ == old(self)@.requested(resource),
            granted is Ok <==> !old(self)@.holds(resource),
            final(self)@.holds(resource),
        no_unwind
    {
        if self.holds(resource) {
            return Err(ConfigError::AlreadyRegistered(resource));
        }
        match resource {
            Resource::Motors => {
                self.motors = true;
            },
            Resource::Sensors => {
                self.sensors = true;
            },
        }
        Ok(())
    }
}

/// A hardware block is handed out at most once: whatever the registry held,
/// a second request for the same block fails and changes nothing, and a
/// request for one block never affects the other.
pub proof fn lemma_registered_once(registry: RegistryView, resource: Resource, other: Resource)
    ensures
        registry.requested(resource).request(resource) == Err::<(), ConfigError>(
            ConfigError::AlreadyRegistered(resource),
        ),
        registry.requested(resource).requested(resource) == registry.requested(resource),
        other != resource ==> registry.requested(resource).holds(other) == registry.holds(other),
{
}

} // verus!
