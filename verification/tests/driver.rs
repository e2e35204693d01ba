use gpio_pci_meetup::bus::{
    id_matches, probe, remove, BusEvent, DeviceId, SimPciDevice, DEVICE_ID, VENDOR_ID,
};
use gpio_pci_meetup::chip::{
    direction_input, direction_output, get, get_direction, LineDirection, N_GPIOS,
};
use gpio_pci_meetup::context::{DeviceData, RegistrationState};
use gpio_pci_meetup::errors::Error;
use gpio_pci_meetup::lifecycle::{MeetupModule, SimDriverFramework};
use gpio_pci_meetup::regs::{RegisterWindow, GPIO_SIZE};

/// A register region of the declared window size whose direction register
/// (the first eight bytes, little-endian) reads `dir`.
fn region_with_direction(dir: u64) -> Vec<u8> {
    let mut region = vec![0u8; GPIO_SIZE];
    let bytes = dir.to_le_bytes();
    region[..8].copy_from_slice(&bytes);
    region
}

fn probed_device(dir: u64) -> (SimPciDevice, DeviceData) {
    let mut dev = SimPciDevice::new(true, true, true, region_with_direction(dir), true);
    let data = probe(&mut dev).unwrap();
    (dev, data)
}

#[test]
fn direction_register_0x3() {
    let (_dev, data) = probed_device(0x0000_0003);
    assert_eq!(get_direction(&data, 0), Ok(LineDirection::Out));
    assert_eq!(get_direction(&data, 1), Ok(LineDirection::Out));
    assert_eq!(get_direction(&data, 2), Ok(LineDirection::In));
}

#[test]
fn direction_bit_exact_for_every_line() {
    let dir: u64 = 0xDEAD_BEEF;
    let (_dev, data) = probed_device(dir);
    for n in 0..u32::from(N_GPIOS) {
        let expected = if (dir >> n) & 1 == 1 {
            LineDirection::Out
        } else {
            LineDirection::In
        };
        assert_eq!(get_direction(&data, n), Ok(expected));
    }
}

#[test]
fn probe_enable_failure() {
    let mut dev = SimPciDevice::new(false, true, true, region_with_direction(0), true);
    let r = probe(&mut dev);
    assert_eq!(r.unwrap_err(), Error::ResourceUnavailable);
    assert_eq!(dev.events, vec![BusEvent::EnableDevice]);
    assert!(!dev.enabled);
    assert!(!dev.region_claimed);
    assert!(!dev.chip_registered);
}

#[test]
fn probe_claim_failure_attempts_no_registration() {
    let mut dev = SimPciDevice::new(true, false, true, region_with_direction(0), true);
    let r = probe(&mut dev);
    assert_eq!(r.unwrap_err(), Error::ResourceUnavailable);
    assert_eq!(
        dev.events,
        vec![BusEvent::EnableDevice, BusEvent::SetMaster, BusEvent::ClaimRegion]
    );
    assert!(!dev.events.contains(&BusEvent::RegisterChip));
    assert!(!dev.region_claimed);
    assert!(!dev.chip_registered);
}

#[test]
fn probe_missing_bar() {
    let mut dev = SimPciDevice::new(true, true, false, region_with_direction(0), true);
    let r = probe(&mut dev);
    assert_eq!(r.unwrap_err(), Error::ResourceUnavailable);
    assert_eq!(
        dev.events,
        vec![
            BusEvent::EnableDevice,
            BusEvent::SetMaster,
            BusEvent::ClaimRegion,
            BusEvent::ReleaseRegion,
        ]
    );
    assert!(!dev.region_claimed);
    assert!(!dev.chip_registered);
}

#[test]
fn probe_mapping_failure() {
    let mut dev = SimPciDevice::new(true, true, true, vec![0u8; 0x80], true);
    let r = probe(&mut dev);
    assert_eq!(r.unwrap_err(), Error::MappingFailure);
    assert_eq!(
        dev.events,
        vec![
            BusEvent::EnableDevice,
            BusEvent::SetMaster,
            BusEvent::ClaimRegion,
            BusEvent::MapWindow,
            BusEvent::ReleaseRegion,
        ]
    );
    assert!(!dev.region_claimed);
    assert!(!dev.chip_registered);
}

#[test]
fn probe_registration_failure() {
    let mut dev = SimPciDevice::new(true, true, true, region_with_direction(0), false);
    let r = probe(&mut dev);
    assert_eq!(r.unwrap_err(), Error::NoSuchDevice);
    assert_eq!(
        dev.events,
        vec![
            BusEvent::EnableDevice,
            BusEvent::SetMaster,
            BusEvent::ClaimRegion,
            BusEvent::MapWindow,
            BusEvent::RegisterChip,
            BusEvent::ReleaseRegion,
        ]
    );
    assert!(!dev.region_claimed);
    assert!(!dev.chip_registered);
}

#[test]
fn probe_success_acquires_in_order() {
    let (dev, data) = probed_device(0);
    assert_eq!(
        dev.events,
        vec![
            BusEvent::EnableDevice,
            BusEvent::SetMaster,
            BusEvent::ClaimRegion,
            BusEvent::MapWindow,
            BusEvent::RegisterChip,
        ]
    );
    assert!(dev.enabled);
    assert!(dev.master);
    assert!(dev.region_claimed);
    assert!(dev.chip_registered);
    assert_eq!(dev.chip_line_count, N_GPIOS);
    assert!(data.resources().is_some());
}

#[test]
fn remove_unregisters_before_releasing() {
    let (mut dev, data) = probed_device(0);
    let before = dev.events.len();
    remove(&mut dev, data);
    assert_eq!(
        dev.events[before..],
        [
            BusEvent::UnregisterChip,
            BusEvent::ReleaseRegion,
            BusEvent::DisableDevice,
        ]
    );
    let unregister = dev
        .events
        .iter()
        .position(|e| *e == BusEvent::UnregisterChip)
        .unwrap();
    let release = dev
        .events
        .iter()
        .rposition(|e| *e == BusEvent::ReleaseRegion)
        .unwrap();
    assert!(unregister < release);
    assert!(!dev.chip_registered);
    assert!(!dev.region_claimed);
    assert!(!dev.enabled);
    assert_eq!(dev.chip_line_count, 0);
}

#[test]
fn register_read_out_of_range() {
    let window = RegisterWindow::try_new(region_with_direction(0x55)).unwrap();
    assert_eq!(window.read64(GPIO_SIZE), Err(Error::OutOfRange));
    assert_eq!(window.read64(GPIO_SIZE - 7), Err(Error::OutOfRange));
    assert_eq!(window.read64(GPIO_SIZE - 8), Ok(0));
    assert_eq!(window.read64(0), Ok(0x55));
}

#[test]
fn register_write_out_of_range_changes_nothing() {
    let mut window = RegisterWindow::try_new(region_with_direction(0x55)).unwrap();
    assert_eq!(window.write64(GPIO_SIZE, 0xFF), Err(Error::OutOfRange));
    assert_eq!(window.write64(GPIO_SIZE - 1, 0xFF), Err(Error::OutOfRange));
    assert_eq!(window.read64(0), Ok(0x55));
}

#[test]
fn register_write_read_round_trip() {
    let mut window = RegisterWindow::try_new(region_with_direction(0)).unwrap();
    assert_eq!(window.write64(0x10, 0x0123_4567_89AB_CDEF), Ok(()));
    assert_eq!(window.read64(0x10), Ok(0x0123_4567_89AB_CDEF));
    assert_eq!(window.read64(0), Ok(0));
    assert_eq!(window.write64(0, 0x8000_0000_0000_0001), Ok(()));
    assert_eq!(window.read64(0), Ok(0x8000_0000_0000_0001));
}

#[test]
fn mapping_rejects_wrong_region_size() {
    assert_eq!(
        RegisterWindow::try_new(vec![0u8; GPIO_SIZE - 1]).unwrap_err(),
        Error::MappingFailure
    );
    assert_eq!(
        RegisterWindow::try_new(vec![0u8; GPIO_SIZE + 1]).unwrap_err(),
        Error::MappingFailure
    );
    assert_eq!(
        RegisterWindow::try_new(Vec::new()).unwrap_err(),
        Error::MappingFailure
    );
    assert!(RegisterWindow::try_new(vec![0u8; GPIO_SIZE]).is_ok());
}

#[test]
fn direction_of_the_last_line() {
    let (_dev, data) = probed_device(0x8000_0000);
    assert_eq!(get_direction(&data, 31), Ok(LineDirection::Out));
    assert_eq!(get_direction(&data, 30), Ok(LineDirection::In));
    assert_eq!(get_direction(&data, 0), Ok(LineDirection::In));
}

#[test]
fn context_without_resources_reports_no_device() {
    let data = DeviceData::new(RegistrationState::new(), None);
    assert_eq!(get_direction(&data, 0), Err(Error::NoSuchDevice));
    assert!(data.resources().is_none());
}

#[test]
fn stubbed_line_operations() {
    let (_dev, data) = probed_device(0);
    assert_eq!(direction_input(&data, 5), Ok(()));
    assert_eq!(direction_output(&data, 5, true), Ok(()));
    assert_eq!(get(&data, 5), Ok(true));
    gpio_pci_meetup::chip::set(&data, 5, false);
}

#[test]
fn id_table_matches_only_the_fixed_pair() {
    assert!(id_matches(DeviceId { vendor: VENDOR_ID, device: DEVICE_ID }));
    assert!(!id_matches(DeviceId { vendor: VENDOR_ID, device: 0x0DC9 }));
    assert!(!id_matches(DeviceId { vendor: 0x494E, device: DEVICE_ID }));
    assert!(!id_matches(DeviceId { vendor: 0, device: 0 }));
}

#[test]
fn module_load_and_unload() {
    let mut framework = SimDriverFramework::new(true);
    let module = MeetupModule::init(&mut framework).unwrap();
    assert!(framework.driver_registered);
    module.exit(&mut framework);
    assert!(!framework.driver_registered);
}

#[test]
fn module_load_refused_is_fatal() {
    let mut framework = SimDriverFramework::new(false);
    let r = MeetupModule::init(&mut framework);
    assert_eq!(r.unwrap_err(), Error::ResourceUnavailable);
    assert!(!framework.driver_registered);
}
