use agon_libretro_core::keyboard::{keymap_entry, KeyEvent, Keyboard, KEYBOARD_MAP_LEN};

fn index_of(keycode: u32) -> usize {
    (0..KEYBOARD_MAP_LEN).find(|&i| keymap_entry(i).0 == keycode).unwrap()
}

fn states_with(down: &[u32]) -> Vec<bool> {
    (0..KEYBOARD_MAP_LEN).map(|i| down.contains(&keymap_entry(i).0)).collect()
}

#[test]
fn keyboard_map_has_81_entries_in_key_code_order() {
    assert_eq!(KEYBOARD_MAP_LEN, 81);
    assert_eq!(keymap_entry(0), (8, 0x66));
    assert_eq!(keymap_entry(2), (13, 0x5a));
    assert_eq!(keymap_entry(KEYBOARD_MAP_LEN - 1), (308, 0x11));
    for i in 1..KEYBOARD_MAP_LEN {
        assert!(keymap_entry(i - 1).0 < keymap_entry(i).0);
    }
}

#[test]
fn keyboard_map_extended_keys() {
    assert_eq!(keymap_entry(index_of(127)).1, 0xe071);
    assert_eq!(keymap_entry(index_of(273)).1, 0xe075);
    assert_eq!(keymap_entry(index_of(305)).1, 0xe014);
    assert_eq!(keymap_entry(index_of(32)).1, 0x29);
    assert_eq!(keymap_entry(index_of(97)).1, 0x1c);
}

#[test]
fn press_then_release_sends_two_events() {
    let mut keyboard = Keyboard::new();
    let events = keyboard.update(&states_with(&[97]));
    assert_eq!(events, vec![KeyEvent { scancode: 0x1c, pressed: true }]);
    assert!(keyboard.is_pressed(97));
    let events = keyboard.update(&states_with(&[]));
    assert_eq!(events, vec![KeyEvent { scancode: 0x1c, pressed: false }]);
    assert!(!keyboard.is_pressed(97));
}

#[test]
fn events_come_in_key_code_order() {
    let mut keyboard = Keyboard::new();
    let events = keyboard.update(&states_with(&[308, 13, 97]));
    assert_eq!(
        events,
        vec![
            KeyEvent { scancode: 0x5a, pressed: true },
            KeyEvent { scancode: 0x1c, pressed: true },
            KeyEvent { scancode: 0x11, pressed: true },
        ]
    );
    let events = keyboard.update(&states_with(&[308, 32]));
    assert_eq!(
        events,
        vec![
            KeyEvent { scancode: 0x5a, pressed: false },
            KeyEvent { scancode: 0x29, pressed: true },
            KeyEvent { scancode: 0x1c, pressed: false },
        ]
    );
}

#[test]
fn rescan_with_same_states_sends_nothing() {
    let mut keyboard = Keyboard::new();
    let states = states_with(&[8, 99, 276]);
    assert_eq!(keyboard.update(&states).len(), 3);
    assert!(keyboard.update(&states).is_empty());
    assert!(keyboard.is_pressed(8) && keyboard.is_pressed(99) && keyboard.is_pressed(276));
}

#[test]
fn no_key_down_on_fresh_keyboard_sends_nothing() {
    let mut keyboard = Keyboard::new();
    assert!(keyboard.update(&states_with(&[])).is_empty());
    assert!(!keyboard.is_pressed(8));
}

#[test]
fn unmapped_key_codes_are_never_held() {
    let mut keyboard = Keyboard::new();
    keyboard.update(&vec![true; KEYBOARD_MAP_LEN]);
    assert!(keyboard.is_pressed(308));
    assert!(!keyboard.is_pressed(10));
    assert!(!keyboard.is_pressed(1000));
}
