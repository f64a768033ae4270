use pubsubinator::keycode::KeyCode;
use pubsubinator::reactor_event::InternalEvent;
use pubsubinator::reactor_event::KeyCodeInt;
use pubsubinator::reactor_event::KeyEvent;
use pubsubinator::reactor_event::KeyModifiers;

#[test]
fn keycode_wire_codes() {
    assert_eq!(KeyCode::NoKey.code(), 0x00);
    assert_eq!(KeyCode::A.code(), 0x04);
    assert_eq!(KeyCode::Z.code(), 0x1D);
    assert_eq!(KeyCode::Kb1.code(), 0x1E);
    assert_eq!(KeyCode::F7.code(), 0x40);
    assert_eq!(KeyCode::ExSel.code(), 0xA4);
    assert_eq!(KeyCode::LCtrl.code(), 0xE0);
    assert_eq!(KeyCode::RGui.code(), 0xE7);
    assert_eq!(KeyCode::MediaPlayPause.code(), 0xE8);
    assert_eq!(KeyCode::MediaCalc.code(), 0xFB);
}

#[test]
fn keycode_from_code_round_trips() {
    for v in 0u16..=0xFF {
        let v = v as u8;
        let k = KeyCode::from_code(v);
        if v <= 0xFB && !(0xA5..=0xDF).contains(&v) {
            assert_eq!(k.code(), v);
        } else {
            assert_eq!(k, KeyCode::NoKey);
        }
    }
}

#[test]
fn keycode_modifier_range() {
    assert!(KeyCode::LCtrl.is_modifier());
    assert!(KeyCode::LShift.is_modifier());
    assert!(KeyCode::RAlt.is_modifier());
    assert!(KeyCode::RGui.is_modifier());
    assert!(!KeyCode::A.is_modifier());
    assert!(!KeyCode::NoKey.is_modifier());
    assert!(!KeyCode::MediaPlayPause.is_modifier());
    assert!(!KeyCode::ExSel.is_modifier());
}

#[test]
fn modifier_byte_packing() {
    let mut m = KeyModifiers::default();
    assert_eq!(m.to_byte(), 0);
    m.lctrl = true;
    assert_eq!(m.to_byte(), 0x01);
    m.rgui = true;
    assert_eq!(m.to_byte(), 0x81);
    m.lshift = true;
    assert_eq!(m.to_byte(), 0x83);
}

#[test]
fn modifier_byte_round_trips() {
    for v in 0u16..=0xFF {
        let v = v as u8;
        assert_eq!(KeyModifiers::from_byte(v).to_byte(), v);
    }
    let m = KeyModifiers::from_byte(0x24);
    assert!(m.lalt);
    assert!(m.rshift);
    assert!(!m.lctrl && !m.lshift && !m.lgui && !m.rctrl && !m.ralt && !m.rgui);
}

#[test]
fn event_defaults() {
    assert_eq!(KeyEvent::default(), KeyEvent::Released(KeyCode::NoKey));
    assert_eq!(InternalEvent::default(), InternalEvent::NoAction);
    assert_eq!(KeyCode::default(), KeyCode::NoKey);
    assert_eq!(KeyModifiers::default().to_byte(), 0);
    assert_eq!(KeyCodeInt::Key(KeyCode::A), KeyCodeInt::Key(KeyCode::A));
    assert_ne!(KeyCodeInt::Key(KeyCode::A), KeyCodeInt::Unmapped);
}
