//! The bus-driver adapter: device identification, attach (probe) and detach
//! (remove), driven by the host PCI subsystem.

use vstd::prelude::*;

use crate::chip::N_GPIOS;
use crate::context::{DeviceData, DeviceResources, RegistrationState};
use crate::errors::Error;
use crate::regs::{RegisterWindow, GPIO_SIZE};

verus! {

/// The vendor identifier the driver matches on.
pub const VENDOR_ID: u16 = 0x494F;

/// The device identifier the driver matches on.
pub const DEVICE_ID: u16 = 0x0DC8;

/// The bar behind which the register window lives.
pub const GPIO_PCI_BAR: usize = 2;

/// A PCI vendor/device identifier pair.
#[derive(Clone, Copy, Debug, PartialEq, Eq, Structural)]
pub struct DeviceId {
    pub vendor: u16,
    pub device: u16,
}

/// Whether the driver's identification table matches `id`. The table holds
/// one entry, the fixed vendor/device pair; no secondary match data is
/// consulted.
pub fn id_matches(id: DeviceId) -> (r: bool)
    ensures
        r == (id.vendor == VENDOR_ID && id.device == DEVICE_ID),
{
    id.vendor == VENDOR_ID && id.device == DEVICE_ID
}

/// One call made into a host subsystem during probe or remove.
#[derive(Clone, Copy, Debug, PartialEq, Eq, Structural)]
pub enum BusEvent {
    /// Enable the device's memory decoding.
    EnableDevice,
    /// Enable bus mastering.
    SetMaster,
    /// Claim the selected register regions.
    ClaimRegion,
    /// Release the claimed register regions.
    ReleaseRegion,
    /// Map the claimed bar into a register window.
    MapWindow,
    /// Register the line controller with the GPIO subsystem.
    RegisterChip,
    /// Unregister the line controller.
    UnregisterChip,
    /// Disable the device.
    DisableDevice,
}

/// A PCI device as probe and remove see it, together with the host-side
/// state the driver's calls change. The `*_ok` and `bar_*` fields say how
/// the host answers each call; the remaining fields record what the driver
/// has acquired, and `events` every call it has made, oldest first.
#[derive(Debug)]
pub struct SimPciDevice {
    /// Whether enabling memory decoding and bus mastering succeeds.
    pub enable_ok: bool,
    /// Whether claiming the selected register regions succeeds.
    pub claim_ok: bool,
    /// Whether the register bar (`GPIO_PCI_BAR`) is present.
    pub bar_present: bool,
    /// The device memory behind the register bar.
    pub bar_mem: Vec<u8>,
    /// Whether the GPIO subsystem accepts the line-controller registration.
    pub register_ok: bool,
    /// Memory decoding is enabled.
    pub enabled: bool,
    /// Bus mastering is enabled.
    pub master: bool,
    /// The register region is claimed by this driver.
    pub region_claimed: bool,
    /// A line controller is registered for this device.
    pub chip_registered: bool,
    /// The line count declared at registration; zero while unregistered.
    pub chip_line_count: u16,
    /// Every call made into the host so far, oldest first.
    pub events: Vec<BusEvent>,
}

impl SimPciDevice {
    /// A device this driver holds nothing of: nothing enabled, claimed or
    /// registered. Probe starts here, and a failed probe, like remove,
    /// leaves the device here again.
    pub open spec fn unbound(self) -> bool {
        &&& !self.enabled
        &&& !self.master
        &&& !self.region_claimed
        &&& !self.chip_registered
        &&& self.chip_line_count == 0
    }

    /// The host's answers and the device memory are the device's own; the
    /// driver never changes them.
    pub open spec fn same_host_answers(self, other: SimPciDevice) -> bool {
        &&& self.enable_ok == other.enable_ok
        &&& self.claim_ok == other.claim_ok
        &&& self.bar_present == other.bar_present
        &&& self.bar_mem@ == other.bar_mem@
        &&& self.register_ok == other.register_ok
    }

    /// An unbound device whose host answers each call as given.
    pub fn new(
        enable_ok: bool,
        claim_ok: bool,
        bar_present: bool,
        bar_mem: Vec<u8>,
        register_ok: bool,
    ) -> (d: SimPciDevice)
        ensures
            d.unbound(),
            d.enable_ok == enable_ok,
            d.claim_ok == claim_ok,
            d.bar_present == bar_present,
            d.bar_mem@ == bar_mem@,
            d.register_ok == register_ok,
            d.events@ == Seq::<BusEvent>::empty(),
    {
        SimPciDevice {
            enable_ok,
            claim_ok,
            bar_present,
            bar_mem,
            register_ok,
            enabled: false,
            master: false,
            region_claimed: false,
            chip_registered: false,
            chip_line_count: 0,
            events: Vec::new(),
        }
    }
}

/// Whether a probe of `d` runs through: enabling, claiming, mapping and
/// registration must all succeed.
pub open spec fn probe_succeeds(d: SimPciDevice) -> bool {
    d.enable_ok && d.claim_ok && d.bar_present && d.bar_mem@.len() == GPIO_SIZE && d.register_ok
}

/// The error a failing probe of `d` reports: the first failing step decides.
pub open spec fn probe_error(d: SimPciDevice) -> Error {
    if !d.enable_ok {
        Error::ResourceUnavailable
    } else if !d.claim_ok {
        Error::ResourceUnavailable
    } else if !d.bar_present {
        Error::ResourceUnavailable
    } else if d.bar_mem@.len() != GPIO_SIZE {
        Error::MappingFailure
    } else {
        Error::NoSuchDevice
    }
}

/// The calls a probe of `d` makes into the host, in order. Each step runs
/// only once every earlier one has succeeded, and a claimed region is
/// released again on every failure path.
pub open spec fn probe_events(d: SimPciDevice) -> Seq<BusEvent> {
    if !d.enable_ok {
        seq![BusEvent::EnableDevice]
    } else if !d.claim_ok {
        seq![BusEvent::EnableDevice, BusEvent::SetMaster, BusEvent::ClaimRegion]
    } else if !d.bar_present {
        seq![
            BusEvent::EnableDevice,
            BusEvent::SetMaster,
            BusEvent::ClaimRegion,
            BusEvent::ReleaseRegion,
        ]
    } else if d.bar_mem@.len() != GPIO_SIZE {
        seq![
            BusEvent::EnableDevice,
            BusEvent::SetMaster,
            BusEvent::ClaimRegion,
            BusEvent::MapWindow,
            BusEvent::ReleaseRegion,
        ]
    } else if !d.register_ok {
        seq![
            BusEvent::EnableDevice,
            BusEvent::SetMaster,
            BusEvent::ClaimRegion,
            BusEvent::MapWindow,
            BusEvent::RegisterChip,
            BusEvent::ReleaseRegion,
        ]
    } else {
        seq![
            BusEvent::EnableDevice,
            BusEvent::SetMaster,
            BusEvent::ClaimRegion,
            BusEvent::MapWindow,
            BusEvent::RegisterChip,
        ]
    }
}

/// Copies the bytes of a claimed region so the register window can take
/// them over: mapping hands the window the device memory as it stands at
/// map time.
fn clone_bytes(src: &Vec<u8>) -> (r: Vec<u8>)
    ensures
        r@ == src@,
{
    let mut out: Vec<u8> = Vec::new();
    let mut i: usize = 0;
    while i < src.len()
        invariant
            i <= src@.len(),
            out@ == src@.subrange(0, i as int),
        decreases src@.len() - i,
    {
        let b = src[i];
        out.push(b);
        proof {
            assert(out@ =~= src@.subrange(0, i + 1 as int));
        }
        i = i + 1;
    }
    proof {
        assert(out@ =~= src@);
    }
    out
}

/// Attaches a device: enables its memory decoding and bus mastering, claims
/// and maps the register bar, builds the shared context, and registers the
/// line controller bound to it, in that order. Any failure aborts the whole
/// probe with that step's error, releasing a claimed region again: no line
/// controller becomes visible to consumers, and no per-device state
/// survives, unless every step succeeded. On success the returned context
/// is the device's durable handle; its window holds the device memory as
/// mapped.
pub fn probe(dev: &mut SimPciDevice) -> (r: Result<DeviceData, Error>)
    requires
        old(dev).unbound(),
    ensures
        old(dev).same_host_answers(*final(dev)),
        final(dev).enabled == old(dev).enable_ok,
        final(dev).master == old(dev).enable_ok,
        final(dev).region_claimed == probe_succeeds(*old(dev)),
        final(dev).chip_registered == probe_succeeds(*old(dev)),
        final(dev).chip_line_count == (if probe_succeeds(*old(dev)) {
            N_GPIOS
        } else {
            0u16
        }),
        final(dev).events@ == old(dev).events@ + probe_events(*old(dev)),
        probe_succeeds(*old(dev)) ==> {
            &&& r matches Ok(data)
            &&& data.wf()
            &&& data.spec_resources() matches Some(res)
            &&& res.base.mem() == old(dev).bar_mem@
            &&& data.registration_active()
        },
        !probe_succeeds(*old(dev)) ==> r == Err::<DeviceData, Error>(probe_error(*old(dev))),
{
    dev.events.push(BusEvent::EnableDevice);
    if !dev.enable_ok {
        proof {
            assert(dev.events@ =~= old(dev).events@ + probe_events(*old(dev)));
        }
        return Err(Error::ResourceUnavailable);
    }
    dev.enabled = true;
    dev.master = true;
    dev.events.push(BusEvent::SetMaster);
    dev.events.push(BusEvent::ClaimRegion);
    if !dev.claim_ok {
        proof {
            assert(dev.events@ =~= old(dev).events@ + probe_events(*old(dev)));
        }
        return Err(Error::ResourceUnavailable);
    }
    dev.region_claimed = true;
    if !dev.bar_present {
        dev.region_claimed = false;
        dev.events.push(BusEvent::ReleaseRegion);
        proof {
            assert(dev.events@ =~= old(dev).events@ + probe_events(*old(dev)));
        }
        return Err(Error::ResourceUnavailable);
    }
    let region = clone_bytes(&dev.bar_mem);
    dev.events.push(BusEvent::MapWindow);
    let window = match RegisterWindow::try_new(region) {
        Ok(w) => w,
        Err(e) => {
            dev.region_claimed = false;
            dev.events.push(BusEvent::ReleaseRegion);
            proof {
                assert(dev.events@ =~= old(dev).events@ + probe_events(*old(dev)));
            }
            return Err(e);
        },
    };
    let resources = DeviceResources { base: window };
    let registration = RegistrationState::new();
    let mut data = DeviceData::new(registration, Some(resources));
    dev.events.push(BusEvent::RegisterChip);
    if !dev.register_ok {
        dev.region_claimed = false;
        dev.events.push(BusEvent::ReleaseRegion);
        proof {
            assert(dev.events@ =~= old(dev).events@ + probe_events(*old(dev)));
        }
        return Err(Error::NoSuchDevice);
    }
    dev.chip_registered = true;
    dev.chip_line_count = N_GPIOS;
    data.activate_registration();
    proof {
        assert(dev.events@ =~= old(dev).events@ + probe_events(*old(dev)));
    }
    Ok(data)
}

/// Detaches a device, releasing what probe acquired in the reverse order of
/// acquisition: the line controller is unregistered first — after which the
/// host delivers no further GPIO callback — and only then is the register
/// region released and the device disabled. Consumes the durable device
/// handle and returns the device to its pre-probe condition.
pub fn remove(dev: &mut SimPciDevice, data: DeviceData)
    requires
        old(dev).chip_registered,
        old(dev).region_claimed,
        data.registration_active(),
    ensures
        old(dev).same_host_answers(*final(dev)),
        final(dev).unbound(),
        final(dev).events@ == old(dev).events@ + seq![
            BusEvent::UnregisterChip,
            BusEvent::ReleaseRegion,
            BusEvent::DisableDevice,
        ],
{
    let _ = data;
    dev.chip_registered = false;
    dev.chip_line_count = 0;
    dev.events.push(BusEvent::UnregisterChip);
    dev.region_claimed = false;
    dev.events.push(BusEvent::ReleaseRegion);
    dev.enabled = false;
    dev.master = false;
    dev.events.push(BusEvent::DisableDevice);
    proof {
        assert(dev.events@ =~= old(dev).events@ + seq![
            BusEvent::UnregisterChip,
            BusEvent::ReleaseRegion,
            BusEvent::DisableDevice,
        ]);
    }
}

/// Law: a probe attempts line-controller registration only once enabling,
/// claiming and mapping have all succeeded. In particular, when the region
/// claim fails, the GPIO subsystem sees no registration attempt at all.
pub proof fn lemma_registration_needs_claim(d: SimPciDevice)
    ensures
        probe_events(d).contains(BusEvent::RegisterChip) <==> (d.enable_ok && d.claim_ok
            && d.bar_present && d.bar_mem@.len() == GPIO_SIZE),
{
    let s = probe_events(d);
    if d.enable_ok && d.claim_ok && d.bar_present && d.bar_mem@.len() == GPIO_SIZE {
        assert(s[4] == BusEvent::RegisterChip);
        assert(s.contains(BusEvent::RegisterChip));
    } else {
        assert(forall|i: int| 0 <= i < s.len() ==> s[i] != BusEvent::RegisterChip);
        assert(!s.contains(BusEvent::RegisterChip));
    }
}

} // verus!
