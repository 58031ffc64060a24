use polychromatic_effects::proc_bus_input_devices::{BusInputDevice, BusInputDeviceId};
use polychromatic_effects::{Device, Keyboard, PolychromaticError};

fn record(vendor: u16, product: u16, name: &str) -> BusInputDevice {
    BusInputDevice {
        id: BusInputDeviceId {
            bus_type: 3,
            vendor,
            product,
            version: 0x111,
        },
        name: name.to_owned(),
        unparsed_fields: Vec::new(),
    }
}

#[test]
fn matrix_geometry_per_variant() {
    assert_eq!(
        Device::Keyboard(Keyboard::RazerBlackWidowChroma).matrix(),
        Some((22, 6))
    );
    assert_eq!(
        Device::Keyboard(Keyboard::RazerHuntsmanElite).matrix(),
        Some((22, 9))
    );
    assert_eq!(
        Device::Keyboard(Keyboard::RazerDeathStalkerChroma).matrix(),
        Some((6, 1))
    );
    assert_eq!(Device::Keyboard(Keyboard::RazerAnansi).matrix(), None);
    assert_eq!(Device::Keyboard(Keyboard::RazerBlackWidowLite).matrix(), None);
}

#[test]
fn display_name_and_icon() {
    let d = Device::Keyboard(Keyboard::RazerAnansi);
    assert_eq!(d.display_name(), "Razer Anansi");
    assert_eq!(d.icon(), "keyboard");
    assert_eq!(
        Device::Keyboard(Keyboard::RazerBlackWidowV3ProWireless).display_name(),
        "Razer BlackWidow V3 Pro (Wireless)"
    );
}

#[test]
fn device_id_lists() {
    assert_eq!(
        Keyboard::RazerHuntsman.device_id(),
        vec![(0x1532, 0x0227)]
    );
    assert_eq!(
        Keyboard::RazerOrnataV3X.device_id(),
        vec![(0x1532, 0x02A2), (0x1532, 0x0294)]
    );
}

#[test]
fn detect_single_matching_record() {
    let records = vec![record(0x1532, 0x0227, "Razer Razer Huntsman")];
    assert_eq!(Keyboard::detect(&records), vec![Keyboard::RazerHuntsman]);
}

#[test]
fn detect_requires_vendor_marker_in_name() {
    let records = vec![record(0x1532, 0x0227, "Generic Keyboard")];
    assert_eq!(Keyboard::detect(&records), Vec::<Keyboard>::new());
}

#[test]
fn detect_ignores_unknown_identifiers() {
    let records = vec![record(0x1532, 0xFFFF, "Razer Mystery Device")];
    assert_eq!(Keyboard::detect(&records), Vec::<Keyboard>::new());
    let records = vec![record(0x046D, 0x0227, "Razer-labelled but wrong vendor")];
    assert_eq!(Keyboard::detect(&records), Vec::<Keyboard>::new());
}

#[test]
fn detect_keeps_enumeration_order() {
    let records = vec![
        record(0x1532, 0x0226, "Razer Razer Huntsman Elite"),
        record(0x046D, 0xC31C, "Some Other Keyboard"),
        record(0x1532, 0x022A, "Razer Razer Cynosa Chroma"),
    ];
    assert_eq!(
        Keyboard::detect(&records),
        vec![Keyboard::RazerHuntsmanElite, Keyboard::RazerCynosaChroma]
    );
}

#[test]
fn detect_second_identifier_pair() {
    let records = vec![record(0x1532, 0x0294, "Razer Ornata V3 X")];
    assert_eq!(Keyboard::detect(&records), vec![Keyboard::RazerOrnataV3X]);
}

#[test]
fn detect_one_returns_first_match() {
    let records = vec![
        record(0x1532, 0x0226, "Razer Razer Huntsman Elite"),
        record(0x1532, 0x022A, "Razer Razer Cynosa Chroma"),
    ];
    assert_eq!(
        Keyboard::detect_one(&records).unwrap(),
        Keyboard::RazerHuntsmanElite
    );
}

#[test]
fn detect_one_fails_without_matches() {
    let records: Vec<BusInputDevice> = Vec::new();
    match Keyboard::detect_one(&records) {
        Err(PolychromaticError::NoRazerDevice) => {}
        other => panic!("expected the device-not-found error, got {:?}", other),
    }
}
