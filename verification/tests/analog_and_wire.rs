use pubsubinator::analog::Analog;
use pubsubinator::ble_consts::HidReportMapType;
use pubsubinator::ble_consts::HidReportType;
use pubsubinator::ble_consts::PnPID;
use pubsubinator::ble_consts::VidSource;
use pubsubinator::gpio::Drive;
use pubsubinator::gpio::Level;
use pubsubinator::gpio::Pull;
use pubsubinator::joystick_6dof_mid::calculate_triangular_6dof;
use pubsubinator::joystick_6dof_mid::Joystick6DOFMid;
use pubsubinator::keycode::KeyCode;
use pubsubinator::reactor_event::KeyModifiers;
use pubsubinator::reactor_event::ReactorEvent;
use pubsubinator::report::boot_report;
use pubsubinator::report::KeyboardReport;
use pubsubinator::report::Report;

#[test]
fn analog_emits_only_on_change() {
    let mut a = Analog::new(2);
    assert_eq!(a.process_sample(&vec![0, 0]), None);
    assert_eq!(
        a.process_sample(&vec![5, -3]),
        Some(ReactorEvent::Joystick { x: 5, y: -3 })
    );
    assert_eq!(a.process_sample(&vec![5, -3]), None);
    assert_eq!(
        a.process_sample(&vec![0, 0]),
        Some(ReactorEvent::Joystick { x: 0, y: 0 })
    );
}

#[test]
fn analog_classifies_by_channel_count() {
    let mut one = Analog::new(1);
    assert_eq!(one.process_sample(&vec![7]), Some(ReactorEvent::Potentiometer { v: 7 }));
    let mut three = Analog::new(3);
    assert_eq!(
        three.process_sample(&vec![1, 2, 3]),
        Some(ReactorEvent::FullJoystick { x: 1, y: 2, z: 3 })
    );
    let mut six = Analog::new(6);
    assert_eq!(
        six.process_sample(&vec![1, 2, 3, 4, 5, 6]),
        Some(ReactorEvent::Joystick6DoF { x: 1, y: 2, z: 3, rx: 4, ry: 5, rz: 6 })
    );
    let mut four = Analog::new(4);
    assert_eq!(four.process_sample(&vec![1, 2, 3, 4]), None);
}

#[test]
fn triangular_mixdown_exact_values() {
    let r = calculate_triangular_6dof(3, 6, 3, 6, 3, 6);
    assert_eq!(
        r,
        ReactorEvent::Joystick6DoF { x: 3, y: 6, z: 0, rx: 0, ry: 0, rz: 0 }
    );
    let r = calculate_triangular_6dof(10, 4, -2, 2, 1, -1);
    // x = 9/3, y = 5/3 (truncated), z = 12/2, rx = 2/2, ry = (8-2)/3, rz = (6+2)/3.
    assert_eq!(
        r,
        ReactorEvent::Joystick6DoF { x: 3, y: 1, z: 6, rx: 1, ry: 2, rz: 2 }
    );
    // Truncation goes toward zero for negative sums, as the hardware did.
    let r = calculate_triangular_6dof(-5, -5, 0, 0, 0, 0);
    assert_eq!(
        r,
        ReactorEvent::Joystick6DoF { x: -1, y: -1, z: -2, rx: -2, ry: -1, rz: -1 }
    );
}

#[test]
fn joystick_middleware_translates_six_axis_events() {
    let mut mid = Joystick6DOFMid::default();
    assert_eq!(
        mid.process(ReactorEvent::Analog6Axis(3, 6, 3, 6, 3, 6)),
        Some(ReactorEvent::Joystick6DoF { x: 3, y: 6, z: 0, rx: 0, ry: 0, rz: 0 })
    );
    assert_eq!(mid.process(ReactorEvent::Battery(1)), None);
}

#[test]
fn hid_map_items_encode_to_their_wire_bytes() {
    assert_eq!(HidReportMapType::HidInput(1).to_bytes(), ([0x81, 1, 0], 2));
    assert_eq!(HidReportMapType::UsagePage(0x01).to_bytes(), ([0x05, 0x01, 0], 2));
    assert_eq!(HidReportMapType::Usage(0x06).to_bytes(), ([0x09, 0x06, 0], 2));
    assert_eq!(HidReportMapType::UsageW(0x01, 0x02).to_bytes(), ([0x0A, 0x01, 0x02], 3));
    assert_eq!(HidReportMapType::EndCollection.to_bytes(), ([0xC0, 0, 0], 2));
    assert_eq!(HidReportMapType::Collection(0x01).to_bytes(), ([0xA1, 0x01, 0], 2));
    assert_eq!(HidReportMapType::ReportCount(6).to_bytes(), ([0x95, 6, 0], 2));
}

#[test]
fn hid_tags_match_their_item_kinds() {
    assert_eq!(HidReportType::HidInput.tag(), 0x80);
    assert_eq!(HidReportType::Collection.tag(), 0xA0);
    assert_eq!(HidReportType::EndCollection.tag(), 0xC0);
    assert_eq!(HidReportType::UsagePage.tag(), 0x04);
    assert_eq!(HidReportType::Usage.tag(), 0x08);
    assert_eq!(HidReportType::Delimiter.tag(), 0xA8);
}

#[test]
fn wire_report_layout() {
    let mut mods = KeyModifiers::default();
    mods.lctrl = true;
    let keys = [KeyCode::A, KeyCode::B, KeyCode::NoKey, KeyCode::NoKey, KeyCode::NoKey, KeyCode::NoKey];
    let report = boot_report(mods, &keys);
    assert_eq!(report.modifier, 0x01);
    assert_eq!(report.reserved, 0);
    assert_eq!(report.leds, 0);
    assert_eq!(report.keycodes, [0x04, 0x05, 0, 0, 0, 0]);
    assert_eq!(report.wire_bytes(), [0x01, 0, 0x04, 0x05, 0, 0, 0, 0]);
}

#[test]
fn report_forms_convert_both_ways() {
    let plain = Report { modifier: 2, reserved: 0, leds: 1, keycodes: [4, 5, 6, 0, 0, 0] };
    let wire: KeyboardReport = plain.into();
    assert_eq!(wire.modifier, 2);
    assert_eq!(wire.leds, 1);
    assert_eq!(wire.keycodes, [4, 5, 6, 0, 0, 0]);
    let back: Report = wire.into();
    assert_eq!(back.modifier, 2);
    assert_eq!(back.keycodes, [4, 5, 6, 0, 0, 0]);
}

#[test]
fn gpio_descriptions_convert() {
    assert_eq!(Pull::default(), Pull::Floating);
    assert_eq!(Level::default(), Level::Low);
    assert_eq!(Drive::default(), Drive::Standard);
    assert_eq!(Level::from(true), Level::High);
    assert_eq!(Level::from(false), Level::Low);
    assert!(bool::from(Level::High));
    assert!(!bool::from(Level::Low));
}

#[test]
fn pnp_id_round_trips_through_its_gatt_bytes() {
    let id = PnPID {
        vid_source: VidSource::UsbIF,
        vendor_id: 0xC0DE,
        product_id: 0xCAFE,
        product_version: 0x0102,
    };
    let bytes = id.to_gatt();
    assert_eq!(bytes, [2, 0xDE, 0xC0, 0xFE, 0xCA, 0x02, 0x01]);
    let back = PnPID::from_gatt(&bytes);
    assert_eq!(back, id);
    let sig = PnPID::from_gatt(&[1, 0, 0, 1, 0, 0, 0]);
    assert_eq!(sig.vid_source, VidSource::BluetoothSIG);
    assert_eq!(sig.product_id, 1);
}
