//! Per-device state: the immutable resources claimed at attach time, the
//! mutable registration bookkeeping, and the shared context that every host
//! callback recovers them from.

use vstd::prelude::*;

use crate::regs::RegisterWindow;

verus! {

/// The line-controller registration handle. Built inactive, activated as the
/// final step of probe, and torn down before the register window is unmapped.
#[derive(Debug)]
pub struct RegistrationState {
    active: bool,
}

impl RegistrationState {
    /// Whether the line controller is currently registered with the host
    /// GPIO subsystem.
    pub closed spec fn is_active(self) -> bool {
        self.active
    }

    /// A fresh, not-yet-activated registration handle.
    pub fn new() -> (r: RegistrationState)
        ensures
            !r.is_active(),
    {
        RegistrationState { active: false }
    }
}

/// Immutable per-device data: the mapped register window. Created once
/// during probe and shared for the device's whole attached lifetime.
#[derive(Debug)]
pub struct DeviceResources {
    pub base: RegisterWindow,
}

impl DeviceResources {
    pub open spec fn wf(self) -> bool {
        self.base.wf()
    }
}

/// The shared device context: the aggregate handed to every callback the
/// host invokes, so that a callback can recover the right device's state
/// without a global lookup table. The host shares it between the bus layer
/// (as the durable per-device handle) and the GPIO layer (captured at
/// registration time); the context itself is read-mostly after construction.
#[derive(Debug)]
pub struct DeviceData {
    registration: RegistrationState,
    resources: Option<DeviceResources>,
}

impl DeviceData {
    pub closed spec fn spec_resources(self) -> Option<DeviceResources> {
        self.resources
    }

    pub closed spec fn spec_registration(self) -> RegistrationState {
        self.registration
    }

    pub open spec fn wf(self) -> bool {
        self.spec_resources() matches Some(res) ==> res.wf()
    }

    pub open spec fn registration_active(self) -> bool {
        self.spec_registration().is_active()
    }

    pub fn new(registration: RegistrationState, resources: Option<DeviceResources>) -> (d:
        DeviceData)
        ensures
            d.spec_resources() == resources,
            d.spec_registration() == registration,
    {
        DeviceData { registration, resources }
    }

    /// Defensive accessor: returns nothing if the context was constructed
    /// without resources or has been torn down, guarding callbacks against
    /// use after unbind.
    pub fn resources(&self) -> (r: Option<&DeviceResources>)
        ensures
            match r {
                Some(res) => self.spec_resources() == Some(*res),
                None => self.spec_resources() is None,
            },
    {
        self.resources.as_ref()
    }

    /// Marks the line-controller registration active: the final step of
    /// probe, after which the host may deliver GPIO callbacks.
    pub fn activate_registration(&mut self)
        ensures
            final(self).registration_active(),
            final(self).spec_resources() == old(self).spec_resources(),
    {
        self.registration.active = true;
    }
}

} // verus!
