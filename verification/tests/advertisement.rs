use esp_xbox_controller::advertisement::{
    ad_fields_identify_xbox, advertisement_is_xbox, report_selects_controller, selector_matches,
    Discovery,
    AdField,
};
use esp_xbox_controller::ControllerSelector;

fn name_structure(ty: u8, name: &[u8]) -> Vec<u8> {
    let mut v = vec![(name.len() + 1) as u8, ty];
    v.extend_from_slice(name);
    v
}

#[test]
fn complete_local_name_identifies_xbox() {
    let mut data = vec![0x02, 0x01, 0x06];
    data.extend(name_structure(0x09, b"Xbox Wireless Controller"));
    assert!(advertisement_is_xbox(&data));
}

#[test]
fn shortened_local_name_identifies_xbox() {
    let data = name_structure(0x08, b"Xbox Wireless Controller");
    assert!(advertisement_is_xbox(&data));
}

#[test]
fn other_names_do_not_identify_xbox() {
    assert!(!advertisement_is_xbox(&name_structure(0x09, b"Xbox Wireless Controlle")));
    assert!(!advertisement_is_xbox(&name_structure(0x09, b"xbox wireless controller")));
    assert!(!advertisement_is_xbox(&name_structure(0x09, b"Keyboard")));
    assert!(!advertisement_is_xbox(&[]));
}

#[test]
fn hid_service_uuid_identifies_xbox() {
    assert!(advertisement_is_xbox(&[0x03, 0x02, 0x12, 0x18]));
    assert!(advertisement_is_xbox(&[0x05, 0x03, 0x0f, 0x18, 0x12, 0x18]));
    assert!(!advertisement_is_xbox(&[0x03, 0x03, 0x18, 0x12]));
    // Service data is not a service UUID list.
    assert!(!advertisement_is_xbox(&[0x03, 0x16, 0x12, 0x18]));
}

#[test]
fn malformed_structures_are_skipped() {
    let mut data = vec![0x01];
    data.extend([0x03, 0x02, 0x12, 0x18]);
    assert!(advertisement_is_xbox(&data));
}

#[test]
fn decoded_fields_are_searched() {
    let fields = vec![
        AdField::Other,
        AdField::Malformed,
        AdField::ShortenedLocalName(b"Xbox Wireless Controller".to_vec()),
    ];
    assert!(ad_fields_identify_xbox(&fields));
    let fields = vec![AdField::CompleteServiceUuids16(vec![[0x0f, 0x18], [0x12, 0x18]])];
    assert!(ad_fields_identify_xbox(&fields));
    let fields = vec![AdField::IncompleteServiceUuids16(vec![[0x18, 0x12]])];
    assert!(!ad_fields_identify_xbox(&fields));
    assert!(!ad_fields_identify_xbox(&Vec::new()));
}

#[test]
fn address_selector_compares_displayed_order() {
    let raw = [0x85, 0xbe, 0xea, 0xd5, 0xd6, 0xc0];
    assert!(selector_matches(ControllerSelector::AnyXbox, raw));
    assert!(selector_matches(
        ControllerSelector::Address([0xc0, 0xd6, 0xd5, 0xea, 0xbe, 0x85]),
        raw
    ));
    assert!(!selector_matches(ControllerSelector::Address(raw), raw));
}

#[test]
fn selection_needs_both_xbox_and_address() {
    let data = [0x03, 0x02, 0x12, 0x18];
    let raw = [1, 2, 3, 4, 5, 6];
    let wanted = ControllerSelector::Address([6, 5, 4, 3, 2, 1]);
    assert!(report_selects_controller(wanted, &data, raw));
    assert!(!report_selects_controller(wanted, &[0x02, 0x01, 0x06], raw));
    assert!(!report_selects_controller(
        ControllerSelector::Address([1, 2, 3, 4, 5, 6]),
        &data,
        raw
    ));
}

#[test]
fn discovery_takes_only_selected_advertisements() {
    let xbox = name_structure(0x09, b"Xbox Wireless Controller");
    let keyboard = name_structure(0x09, b"Keyboard");
    let raw = [0x66, 0x55, 0x44, 0x33, 0x22, 0x11];
    let mut d = Discovery::new(ControllerSelector::Address([0x11, 0x22, 0x33, 0x44, 0x55, 0x66]));
    // The right address alone is not enough.
    assert!(!d.on_advertisement(1u8, &keyboard, raw));
    assert_eq!(d.take(), None);
    // An Xbox advertisement from another address is not admitted.
    assert!(!d.on_advertisement(1u8, &xbox, [0; 6]));
    assert_eq!(d.take(), None);
    assert!(d.on_advertisement(2u8, &xbox, raw));
    assert_eq!(d.take(), Some((2u8, raw)));
    // Taking empties it.
    assert_eq!(d.take(), None);
}

#[test]
fn discovery_reset_forgets_a_late_advertisement() {
    let xbox = name_structure(0x09, b"Xbox Wireless Controller");
    let mut d = Discovery::new(ControllerSelector::AnyXbox);
    assert!(d.on_advertisement(0u8, &xbox, [1; 6]));
    d.reset();
    assert_eq!(d.take(), None);
    assert!(d.on_advertisement(0u8, &xbox, [2; 6]));
    assert!(d.on_advertisement(1u8, &xbox, [3; 6]));
    assert_eq!(d.take(), Some((1u8, [3; 6])));
}
