use pubsubinator::keycode::KeyCode;
use pubsubinator::keyboard_report_mid::KeyboardReportMid;
use pubsubinator::reactor_event::KeyEvent;
use pubsubinator::reactor_event::ReactorEvent;

fn pressed(k: KeyCode) -> ReactorEvent {
    ReactorEvent::Key(KeyEvent::Pressed(k))
}

fn released(k: KeyCode) -> ReactorEvent {
    ReactorEvent::Key(KeyEvent::Released(k))
}

fn report_of(out: Option<ReactorEvent>) -> (u8, Vec<KeyCode>) {
    match out {
        Some(ReactorEvent::KeyboardReport { modifier, keycodes }) => {
            (modifier.to_byte(), keycodes.to_vec())
        }
        other => panic!("expected a report event, got {:?}", other),
    }
}

#[test]
fn press_occupies_first_free_slot_and_release_clears_it() {
    let mut agg = KeyboardReportMid::default();
    let (m, keys) = report_of(agg.process(pressed(KeyCode::A)));
    assert_eq!(m, 0);
    assert_eq!(keys[0], KeyCode::A);
    let (_, keys) = report_of(agg.process(pressed(KeyCode::B)));
    assert_eq!(keys[..2], [KeyCode::A, KeyCode::B]);
    let (_, keys) = report_of(agg.process(released(KeyCode::A)));
    assert_eq!(keys[..2], [KeyCode::NoKey, KeyCode::B]);
    // The freed slot is reused first-fit.
    let (_, keys) = report_of(agg.process(pressed(KeyCode::C)));
    assert_eq!(keys[..2], [KeyCode::C, KeyCode::B]);
}

#[test]
fn modifiers_set_and_clear_their_bit() {
    let mut agg = KeyboardReportMid::default();
    let (m, keys) = report_of(agg.process(pressed(KeyCode::LShift)));
    assert_eq!(m, 0x02);
    assert!(keys.iter().all(|k| *k == KeyCode::NoKey));
    let (m, _) = report_of(agg.process(pressed(KeyCode::RCtrl)));
    assert_eq!(m, 0x12);
    let (m, _) = report_of(agg.process(released(KeyCode::LShift)));
    assert_eq!(m, 0x10);
    let (m, _) = report_of(agg.process(released(KeyCode::RCtrl)));
    assert_eq!(m, 0x00);
}

#[test]
fn a_report_is_republished_even_without_a_change() {
    let mut agg = KeyboardReportMid::default();
    let first = agg.process(pressed(KeyCode::A));
    assert!(first.is_some());
    // Pressing the key again changes nothing but still yields a report.
    let second = agg.process(pressed(KeyCode::A));
    assert_eq!(first, second);
    // Releasing a key that is not held also yields a report.
    let third = agg.process(released(KeyCode::B));
    assert_eq!(first, third);
}

#[test]
fn non_key_events_are_ignored() {
    let mut agg = KeyboardReportMid::default();
    assert_eq!(agg.process(ReactorEvent::Battery(9)), None);
    assert_eq!(agg.process(ReactorEvent::LED(true)), None);
}

#[test]
fn seventh_simultaneous_key_is_ghosted() {
    let keys = [
        KeyCode::A,
        KeyCode::B,
        KeyCode::C,
        KeyCode::D,
        KeyCode::E,
        KeyCode::F,
        KeyCode::G,
    ];
    let mut agg = KeyboardReportMid::default();
    let mut last = None;
    for k in keys {
        last = agg.process(pressed(k));
    }
    let (m, slots) = report_of(last);
    assert_eq!(m, 0);
    assert_eq!(
        slots,
        vec![KeyCode::A, KeyCode::B, KeyCode::C, KeyCode::D, KeyCode::E, KeyCode::F]
    );
    assert!(!slots.contains(&KeyCode::G));
    // Releasing one held key frees a slot for the dropped one.
    agg.process(released(KeyCode::C));
    let (_, slots) = report_of(agg.process(pressed(KeyCode::G)));
    assert_eq!(
        slots,
        vec![KeyCode::A, KeyCode::B, KeyCode::G, KeyCode::D, KeyCode::E, KeyCode::F]
    );
}

#[test]
fn the_final_report_is_a_function_of_the_event_sequence() {
    let sequence = vec![
        KeyEvent::Pressed(KeyCode::LCtrl),
        KeyEvent::Pressed(KeyCode::A),
        KeyEvent::Pressed(KeyCode::B),
        KeyEvent::Released(KeyCode::A),
        KeyEvent::Pressed(KeyCode::C),
        KeyEvent::Released(KeyCode::LCtrl),
    ];
    let mut agg1 = KeyboardReportMid::default();
    let mut agg2 = KeyboardReportMid::default();
    let out1 = agg1.process_all(&sequence);
    let out2 = agg2.process_all(&sequence);
    assert_eq!(out1, out2);
    assert_eq!(out1.len(), sequence.len());
    let (m, slots) = report_of(out1.last().copied());
    assert_eq!(m, 0);
    assert_eq!(
        slots,
        vec![KeyCode::C, KeyCode::B, KeyCode::NoKey, KeyCode::NoKey, KeyCode::NoKey, KeyCode::NoKey]
    );
}

#[test]
fn the_free_slot_marker_cannot_be_held() {
    // `NoKey` marks a free slot, so "pressing" it must never occupy one.
    let mut agg = KeyboardReportMid::default();
    let (m, slots) = report_of(agg.process(pressed(KeyCode::NoKey)));
    assert_eq!(m, 0);
    assert!(slots.iter().all(|k| *k == KeyCode::NoKey));
    let (_, slots) = report_of(agg.process(pressed(KeyCode::A)));
    assert_eq!(slots[0], KeyCode::A);
}

#[test]
fn releasing_a_key_that_was_never_pressed_changes_nothing() {
    let mut agg = KeyboardReportMid::default();
    agg.process(pressed(KeyCode::A));
    let before = agg.process(released(KeyCode::B));
    let after = agg.process(released(KeyCode::RGui));
    assert_eq!(before, after);
}
