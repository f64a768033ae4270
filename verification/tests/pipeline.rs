use pubsubinator::bus::Bus;
use pubsubinator::bus::BusPoll;
use pubsubinator::dispatch::sinks_for;
use pubsubinator::dispatch::route;
use pubsubinator::dispatch::SinkKind;
use pubsubinator::keycode::KeyCode;
use pubsubinator::keyboard_report_mid::KeyboardReportMid;
use pubsubinator::keymap_mid::Keymap;
use pubsubinator::matrix::Matrix;
use pubsubinator::matrix::MatrixDirection;
use pubsubinator::reactor_event::KeyCodeInt;
use pubsubinator::reactor_event::KeyEvent;
use pubsubinator::reactor_event::KeyModifiers;
use pubsubinator::report::boot_report;
use pubsubinator::reactor_event::ReactorEvent;

/// One layer over a 2x3 matrix with `A` at coordinate (1, 2).
fn keymap_with_a() -> Keymap {
    let mut rows = Vec::new();
    for r in 0..2 {
        let mut row = Vec::new();
        for c in 0..3 {
            row.push(if r == 1 && c == 2 {
                KeyCodeInt::Key(KeyCode::A)
            } else {
                KeyCodeInt::Unmapped
            });
        }
        rows.push(row);
    }
    Keymap::new(vec![rows], 2)
}

#[test]
fn round_trip_from_raw_signal_to_report() {
    let threshold = 3u16;
    // Two driven rows of three read columns.
    let mut matrix = Matrix::new(3, 2, MatrixDirection::Row2Col, threshold);
    let mut keymap = keymap_with_a();
    let mut agg = KeyboardReportMid::default();

    let high = vec![vec![false, false, false], vec![false, false, true]];
    let low = vec![vec![false, false, false], vec![false, false, false]];

    // The raw signal must hold for `threshold` sweeps before anything happens.
    for _ in 0..threshold - 1 {
        assert!(matrix.scan(&high).is_empty());
    }
    let events = matrix.scan(&high);
    assert_eq!(events, vec![ReactorEvent::HardwareMappedBool(true, 1, 2)]);

    let key_events = keymap.process(events[0]);
    assert_eq!(key_events, vec![ReactorEvent::Key(KeyEvent::Pressed(KeyCode::A))]);

    let report = agg.process(key_events[0]).expect("a key event always yields a report");
    match report {
        ReactorEvent::KeyboardReport { modifier, keycodes } => {
            assert_eq!(modifier.to_byte(), 0);
            let wire = boot_report(modifier, &keycodes);
            assert_eq!(wire.modifier, 0);
            assert_eq!(wire.keycodes, [0x04, 0, 0, 0, 0, 0]);
            assert_eq!(wire.wire_bytes(), [0, 0, 0x04, 0, 0, 0, 0, 0]);
        }
        other => panic!("expected a report, got {:?}", other),
    }

    // And back down again.
    for _ in 0..threshold - 1 {
        assert!(matrix.scan(&low).is_empty());
    }
    let events = matrix.scan(&low);
    assert_eq!(events, vec![ReactorEvent::HardwareMappedBool(false, 1, 2)]);
    let key_events = keymap.process(events[0]);
    assert_eq!(key_events, vec![ReactorEvent::Key(KeyEvent::Released(KeyCode::A))]);
    let report = agg.process(key_events[0]).unwrap();
    match report {
        ReactorEvent::KeyboardReport { modifier, keycodes } => {
            let wire = boot_report(modifier, &keycodes);
            assert_eq!(wire.wire_bytes(), [0, 0, 0, 0, 0, 0, 0, 0]);
        }
        other => panic!("expected a report, got {:?}", other),
    }
}

#[test]
fn whole_pipeline_over_the_bus() {
    let mut bus = Bus::new(16, 4);
    let keymap_sub = bus.subscribe().unwrap();
    let report_sub = bus.subscribe().unwrap();
    let dispatch_sub = bus.subscribe().unwrap();
    let mut matrix = Matrix::new(3, 2, MatrixDirection::Row2Col, 1);
    let mut keymap = keymap_with_a();
    let mut agg = KeyboardReportMid::default();
    let sinks = vec![SinkKind::UsbHid, SinkKind::BleHid];

    let high = vec![vec![false, false, false], vec![false, false, true]];
    for event in matrix.scan(&high) {
        assert!(bus.try_publish(event));
    }
    // The keymap stage consumes raw matrix events and republishes key events.
    let (_, raw) = bus.collect_pending(keymap_sub);
    for event in raw {
        for out in keymap.process(event) {
            assert!(bus.try_publish(out));
        }
    }
    // The aggregator stage consumes key events and republishes reports.
    let (_, derived) = bus.collect_pending(report_sub);
    let mut reports = 0;
    for event in derived {
        if let Some(report) = agg.process(event) {
            assert!(bus.try_publish(report));
            reports += 1;
        }
    }
    assert_eq!(reports, 1);
    // The dispatcher delivers the report to both transports, in array order.
    let mut deliveries = Vec::new();
    loop {
        let poll = bus.try_next(dispatch_sub);
        if poll == BusPoll::Empty {
            break;
        }
        for sink in sinks_for(&poll, &sinks) {
            if let BusPoll::Message(m) = poll {
                deliveries.push((sink, m));
            }
        }
    }
    assert_eq!(deliveries.len(), 2);
    assert_eq!(deliveries[0].0, 0);
    assert_eq!(deliveries[1].0, 1);
    assert!(matches!(deliveries[0].1, ReactorEvent::KeyboardReport { .. }));
}

#[test]
fn sinks_accept_reports_but_not_raw_or_key_events() {
    let report = ReactorEvent::KeyboardReport {
        modifier: KeyModifiers::default(),
        keycodes: [KeyCode::NoKey; 6],
    };
    let space_mouse = ReactorEvent::Joystick6DoF { x: 0, y: 0, z: 0, rx: 0, ry: 0, rz: 0 };
    let key = ReactorEvent::Key(KeyEvent::Pressed(KeyCode::A));
    let raw = ReactorEvent::HardwareMappedBool(true, 0, 0);

    assert!(SinkKind::UsbHid.is_supported(&report));
    assert!(SinkKind::BleHid.is_supported(&report));
    assert!(SinkKind::UsbHid.is_supported(&space_mouse));
    assert!(!SinkKind::BleHid.is_supported(&space_mouse));
    assert!(!SinkKind::UsbHid.is_supported(&key));
    assert!(!SinkKind::BleHid.is_supported(&key));
    assert!(!SinkKind::UsbHid.is_supported(&raw));

    let sinks = vec![SinkKind::BleHid, SinkKind::UsbHid];
    assert_eq!(route(&report, &sinks), vec![0, 1]);
    assert_eq!(route(&space_mouse, &sinks), vec![1]);
    assert_eq!(route(&key, &sinks), Vec::<usize>::new());
}

#[test]
fn lag_markers_are_delivered_to_nobody() {
    let sinks = vec![SinkKind::UsbHid, SinkKind::BleHid];
    assert_eq!(sinks_for(&BusPoll::Lagged(3), &sinks), Vec::<usize>::new());
    assert_eq!(sinks_for(&BusPoll::Empty, &sinks), Vec::<usize>::new());
}
