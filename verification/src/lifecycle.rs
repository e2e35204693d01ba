//! Module lifecycle: one process-wide registration of the bus-driver
//! adapter with the host driver framework, from load to unload.

use vstd::prelude::*;

use crate::errors::Error;

verus! {

/// The host driver framework as module load and unload see it.
#[derive(Debug)]
pub struct SimDriverFramework {
    /// Whether the framework accepts a driver registration.
    pub register_ok: bool,
    /// Whether this driver is currently registered.
    pub driver_registered: bool,
}

impl SimDriverFramework {
    /// A framework with no driver registered that answers a registration as
    /// given.
    pub fn new(register_ok: bool) -> (f: SimDriverFramework)
        ensures
            f.register_ok == register_ok,
            !f.driver_registered,
    {
        SimDriverFramework { register_ok, driver_registered: false }
    }
}

/// The owned handle for the bus-driver registration. Its destruction at
/// unload time is what deregisters the driver.
#[derive(Debug)]
pub struct DriverRegistration {
    active: bool,
}

impl DriverRegistration {
    pub closed spec fn is_active(self) -> bool {
        self.active
    }
}

/// The loaded module: it owns the bus-driver registration for its whole
/// lifetime.
#[derive(Debug)]
pub struct MeetupModule {
    registration: DriverRegistration,
}

impl MeetupModule {
    /// Whether the module holds an active bus-driver registration.
    pub closed spec fn registered(self) -> bool {
        self.registration.is_active()
    }

    /// Loads the module: registers the bus-driver adapter with the host
    /// driver framework. A framework refusal is fatal to module load and is
    /// reported as a resource-unavailable error.
    pub fn init(framework: &mut SimDriverFramework) -> (r: Result<MeetupModule, Error>)
        requires
            !old(framework).driver_registered,
        ensures
            final(framework).register_ok == old(framework).register_ok,
            old(framework).register_ok ==> {
                &&& r matches Ok(m)
                &&& m.registered()
                &&& final(framework).driver_registered
            },
            !old(framework).register_ok ==> r == Err::<MeetupModule, Error>(
                Error::ResourceUnavailable,
            ) && !final(framework).driver_registered,
    {
        if !framework.register_ok {
            return Err(Error::ResourceUnavailable);
        }
        framework.driver_registered = true;
        Ok(MeetupModule { registration: DriverRegistration { active: true } })
    }

    /// Unloads the module: destroying the owned registration handle
    /// deregisters the bus-driver adapter. The host framework invokes
    /// remove for every still-attached device before deregistration
    /// returns.
    pub fn exit(self, framework: &mut SimDriverFramework)
        requires
            old(framework).driver_registered,
        ensures
            final(framework).register_ok == old(framework).register_ok,
            !final(framework).driver_registered,
    {
        let _ = self;
        framework.driver_registered = false;
    }
}

} // verus!
