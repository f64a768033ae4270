use pubsubinator::keycode::KeyCode;
use pubsubinator::keymap_mid::Keymap;
use pubsubinator::reactor_event::InternalEvent;
use pubsubinator::reactor_event::KeyCodeInt;
use pubsubinator::reactor_event::KeyEvent;
use pubsubinator::reactor_event::ReactorEvent;

fn key(k: KeyCode) -> KeyCodeInt {
    KeyCodeInt::Key(k)
}

fn hw(v: bool, r: usize, c: usize) -> ReactorEvent {
    ReactorEvent::HardwareMappedBool(v, r, c)
}

/// Two layers over a 1x3 matrix: layer 0 maps A, B and a layer-next cell;
/// layer 1 maps X, Y and the same layer-next cell.
fn two_layer_keymap() -> Keymap {
    let layer0 = vec![vec![key(KeyCode::A), key(KeyCode::B), KeyCodeInt::Internal(InternalEvent::LayerNext)]];
    let layer1 = vec![vec![key(KeyCode::X), key(KeyCode::Y), KeyCodeInt::Internal(InternalEvent::LayerNext)]];
    Keymap::new(vec![layer0, layer1], 5)
}

#[test]
fn edge_logic_presses_and_releases_once() {
    let mut km = two_layer_keymap();
    assert_eq!(km.process(hw(true, 0, 0)), vec![ReactorEvent::Key(KeyEvent::Pressed(KeyCode::A))]);
    // Held high: no repeat.
    assert_eq!(km.process(hw(true, 0, 0)), Vec::new());
    assert_eq!(km.process(hw(false, 0, 0)), vec![ReactorEvent::Key(KeyEvent::Released(KeyCode::A))]);
    assert_eq!(km.process(hw(false, 0, 0)), Vec::new());
}

#[test]
fn non_matrix_events_pass_without_effect() {
    let mut km = two_layer_keymap();
    assert_eq!(km.process(ReactorEvent::Battery(50)), Vec::new());
    assert_eq!(km.current_layer, 0);
}

#[test]
fn layer_next_wraps_around() {
    let mut km = two_layer_keymap();
    assert_eq!(km.process(hw(true, 0, 2)), Vec::new());
    assert_eq!(km.current_layer, 1);
    assert_eq!(km.process(hw(true, 0, 2)), Vec::new());
    assert_eq!(km.current_layer, 0);
}

#[test]
fn layer_prev_wraps_and_change_clamps() {
    let table = vec![
        vec![vec![KeyCodeInt::Internal(InternalEvent::LayerPrev), KeyCodeInt::Internal(InternalEvent::LayerChange(7))]],
        vec![vec![key(KeyCode::A), key(KeyCode::B)]],
        vec![vec![key(KeyCode::C), key(KeyCode::D)]],
    ];
    let mut km = Keymap::new(table, 0);
    assert_eq!(km.process(hw(true, 0, 0)), Vec::new());
    assert_eq!(km.current_layer, 2);
    let mut km = Keymap::new(
        vec![
            vec![vec![KeyCodeInt::Internal(InternalEvent::LayerChange(7))]],
            vec![vec![key(KeyCode::A)]],
        ],
        0,
    );
    // An out-of-range target falls back to layer 0: no change from layer 0.
    assert_eq!(km.process(hw(true, 0, 0)), Vec::new());
    assert_eq!(km.current_layer, 0);
}

#[test]
fn layer_change_releases_every_held_key() {
    let mut km = two_layer_keymap();
    assert_eq!(km.process(hw(true, 0, 0)), vec![ReactorEvent::Key(KeyEvent::Pressed(KeyCode::A))]);
    assert_eq!(km.process(hw(true, 0, 1)), vec![ReactorEvent::Key(KeyEvent::Pressed(KeyCode::B))]);
    let out = km.process(hw(true, 0, 2));
    assert_eq!(
        out,
        vec![
            ReactorEvent::Key(KeyEvent::Released(KeyCode::A)),
            ReactorEvent::Key(KeyEvent::Released(KeyCode::B)),
        ]
    );
    assert_eq!(km.current_layer, 1);
}

#[test]
fn no_new_press_until_a_fresh_transition_on_the_new_layer() {
    let mut km = two_layer_keymap();
    // A held on layer 0, then the layer switches.
    assert_eq!(km.process(hw(true, 0, 0)), vec![ReactorEvent::Key(KeyEvent::Pressed(KeyCode::A))]);
    let out = km.process(hw(true, 0, 2));
    assert_eq!(out, vec![ReactorEvent::Key(KeyEvent::Released(KeyCode::A))]);
    assert_eq!(km.current_layer, 1);
    // The line over the held coordinate going low changes nothing audible.
    assert_eq!(km.process(hw(false, 0, 0)), Vec::new());
    // Only a fresh raw press maps through the new layer.
    assert_eq!(km.process(hw(true, 0, 0)), vec![ReactorEvent::Key(KeyEvent::Pressed(KeyCode::X))]);
}

#[test]
fn internal_non_layer_actions_do_nothing() {
    let table = vec![vec![vec![
        KeyCodeInt::Internal(InternalEvent::NoAction),
        KeyCodeInt::Internal(InternalEvent::BLENext),
        KeyCodeInt::Unmapped,
    ]]];
    let mut km = Keymap::new(table, 0);
    assert_eq!(km.process(hw(true, 0, 0)), Vec::new());
    assert_eq!(km.process(hw(true, 0, 1)), Vec::new());
    assert_eq!(km.process(hw(true, 0, 2)), Vec::new());
    assert_eq!(km.current_layer, 0);
}

#[test]
fn default_keymap_is_a_placeholder() {
    let km = Keymap::default();
    assert_eq!(km.layers.len(), 1);
    assert_eq!(km.layers[0].len(), 1);
    assert!(km.layers[0][0].is_empty());
    assert_eq!(km.hold_cycles, 0);
    assert_eq!(km.current_layer, 0);
}
