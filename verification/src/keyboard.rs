use std::collections::HashSet;
use vstd::prelude::*;

verus! {

broadcast use vstd::std_specs::hash::group_hash_axioms;

/// Number of libretro keys that reach the emulated PS/2 keyboard.
pub const KEYBOARD_MAP_LEN: usize = 81;

/// Entry `i` of the keyboard map: a libretro key code and the PS/2 set 2 scan
/// code that the VDP receives for it (extended keys carry the `0xe0` prefix in
/// their high byte). The map is ordered by key code. Any index outside the
/// map gives the last entry.
pub open spec fn spec_keymap_entry(i: int) -> (u32, u16) {
    if i == 0 {
        (8, 0x66)
    } else if i == 1 {
        (9, 0x0d)
    } else if i == 2 {
        (13, 0x5a)
    } else if i == 3 {
        (27, 0x76)
    } else if i == 4 {
        (32, 0x29)
    } else if i == 5 {
        (39, 0x52)
    } else if i == 6 {
        (44, 0x41)
    } else if i == 7 {
        (45, 0x4e)
    } else if i == 8 {
        (46, 0x49)
    } else if i == 9 {
        (47, 0x4a)
    } else if i == 10 {
        (48, 0x45)
    } else if i == 11 {
        (49, 0x16)
    } else if i == 12 {
        (50, 0x1e)
    } else if i == 13 {
        (51, 0x26)
    } else if i == 14 {
        (52, 0x25)
    } else if i == 15 {
        (53, 0x2e)
    } else if i == 16 {
        (54, 0x36)
    } else if i == 17 {
        (55, 0x3d)
    } else if i == 18 {
        (56, 0x3e)
    } else if i == 19 {
        (57, 0x46)
    } else if i == 20 {
        (59, 0x4c)
    } else if i == 21 {
        (61, 0x55)
    } else if i == 22 {
        (91, 0x54)
    } else if i == 23 {
        (92, 0x5d)
    } else if i == 24 {
        (93, 0x5b)
    } else if i == 25 {
        (96, 0x0e)
    } else if i == 26 {
        (97, 0x1c)
    } else if i == 27 {
        (98, 0x32)
    } else if i == 28 {
        (99, 0x21)
    } else if i == 29 {
        (100, 0x23)
    } else if i == 30 {
        (101, 0x24)
    } else if i == 31 {
        (102, 0x2b)
    } else if i == 32 {
        (103, 0x34)
    } else if i == 33 {
        (104, 0x33)
    } else if i == 34 {
        (105, 0x43)
    } else if i == 35 {
        (106, 0x3b)
    } else if i == 36 {
        (107, 0x42)
    } else if i == 37 {
        (108, 0x4b)
    } else if i == 38 {
        (109, 0x3a)
    } else if i == 39 {
        (110, 0x31)
    } else if i == 40 {
        (111, 0x44)
    } else if i == 41 {
        (112, 0x4d)
    } else if i == 42 {
        (113, 0x15)
    } else if i == 43 {
        (114, 0x2d)
    } else if i == 44 {
        (115, 0x1b)
    } else if i == 45 {
        (116, 0x2c)
    } else if i == 46 {
        (117, 0x3c)
    } else if i == 47 {
        (118, 0x2a)
    } else if i == 48 {
        (119, 0x1d)
    } else if i == 49 {
        (120, 0x22)
    } else if i == 50 {
        (121, 0x35)
    } else if i == 51 {
        (122, 0x1a)
    } else if i == 52 {
        (127, 0xe071)
    } else if i == 53 {
        (273, 0xe075)
    } else if i == 54 {
        (274, 0xe072)
    } else if i == 55 {
        (275, 0xe074)
    } else if i == 56 {
        (276, 0xe06b)
    } else if i == 57 {
        (277, 0xe070)
    } else if i == 58 {
        (278, 0xe06c)
    } else if i == 59 {
        (279, 0xe069)
    } else if i == 60 {
        (280, 0xe07d)
    } else if i == 61 {
        (281, 0xe07a)
    } else if i == 62 {
        (282, 0x05)
    } else if i == 63 {
        (283, 0x06)
    } else if i == 64 {
        (284, 0x04)
    } else if i == 65 {
        (285, 0x0c)
    } else if i == 66 {
        (286, 0x03)
    } else if i == 67 {
        (287, 0x0b)
    } else if i == 68 {
        (288, 0x83)
    } else if i == 69 {
        (289, 0x0a)
    } else if i == 70 {
        (290, 0x01)
    } else if i == 71 {
        (291, 0x09)
    } else if i == 72 {
        (292, 0x78)
    } else if i == 73 {
        (293, 0x07)
    } else if i == 74 {
        (301, 0x58)
    } else if i == 75 {
        (303, 0x59)
    } else if i == 76 {
        (304, 0x12)
    } else if i == 77 {
        (305, 0xe014)
    } else if i == 78 {
        (306, 0x14)
    } else if i == 79 {
        (307, 0xe011)
    } else {
        (308, 0x11)
    }
}

/// The keyboard map as a sequence, in the order in which keys are scanned.
pub open spec fn keyboard_map() -> Seq<(u32, u16)> {
    Seq::new(KEYBOARD_MAP_LEN as nat, |i: int| spec_keymap_entry(i))
}

/// Law: the keyboard map is the Agon's table of libretro key codes and their
/// PS/2 set 2 scan codes, entry by entry in key code order: backspace, tab,
/// return, escape and space; punctuation and digits; the letters `a` to `z`
/// (libretro codes 97 to 122) with their PS/2 make codes; delete; the cursor,
/// editing and function keys (extended codes carry `0xe0` in their high
/// byte); and the lock, shift, control and alt keys.
pub proof fn law_keyboard_map_table()
    ensures
        keyboard_map().len() == 81,
        keyboard_map()[0] == (8u32, 0x66u16),
        keyboard_map()[1] == (9u32, 0x0du16),
        keyboard_map()[2] == (13u32, 0x5au16),
        keyboard_map()[3] == (27u32, 0x76u16),
        keyboard_map()[4] == (32u32, 0x29u16),
        keyboard_map()[5] == (39u32, 0x52u16),
        keyboard_map()[6] == (44u32, 0x41u16),
        keyboard_map()[7] == (45u32, 0x4eu16),
        keyboard_map()[8] == (46u32, 0x49u16),
        keyboard_map()[9] == (47u32, 0x4au16),
        keyboard_map()[10] == (48u32, 0x45u16),
        keyboard_map()[11] == (49u32, 0x16u16),
        keyboard_map()[12] == (50u32, 0x1eu16),
        keyboard_map()[13] == (51u32, 0x26u16),
        keyboard_map()[14] == (52u32, 0x25u16),
        keyboard_map()[15] == (53u32, 0x2eu16),
        keyboard_map()[16] == (54u32, 0x36u16),
        keyboard_map()[17] == (55u32, 0x3du16),
        keyboard_map()[18] == (56u32, 0x3eu16),
        keyboard_map()[19] == (57u32, 0x46u16),
        keyboard_map()[20] == (59u32, 0x4cu16),
        keyboard_map()[21] == (61u32, 0x55u16),
        keyboard_map()[22] == (91u32, 0x54u16),
        keyboard_map()[23] == (92u32, 0x5du16),
        keyboard_map()[24] == (93u32, 0x5bu16),
        keyboard_map()[25] == (96u32, 0x0eu16),
        keyboard_map()[26] == (97u32, 0x1cu16),
        keyboard_map()[27] == (98u32, 0x32u16),
        keyboard_map()[28] == (99u32, 0x21u16),
        keyboard_map()[29] == (100u32, 0x23u16),
        keyboard_map()[30] == (101u32, 0x24u16),
        keyboard_map()[31] == (102u32, 0x2bu16),
        keyboard_map()[32] == (103u32, 0x34u16),
        keyboard_map()[33] == (104u32, 0x33u16),
        keyboard_map()[34] == (105u32, 0x43u16),
        keyboard_map()[35] == (106u32, 0x3bu16),
        keyboard_map()[36] == (107u32, 0x42u16),
        keyboard_map()[37] == (108u32, 0x4bu16),
        keyboard_map()[38] == (109u32, 0x3au16),
        keyboard_map()[39] == (110u32, 0x31u16),
        keyboard_map()[40] == (111u32, 0x44u16),
        keyboard_map()[41] == (112u32, 0x4du16),
        keyboard_map()[42] == (113u32, 0x15u16),
        keyboard_map()[43] == (114u32, 0x2du16),
        keyboard_map()[44] == (115u32, 0x1bu16),
        keyboard_map()[45] == (116u32, 0x2cu16),
        keyboard_map()[46] == (117u32, 0x3cu16),
        keyboard_map()[47] == (118u32, 0x2au16),
        keyboard_map()[48] == (119u32, 0x1du16),
        keyboard_map()[49] == (120u32, 0x22u16),
        keyboard_map()[50] == (121u32, 0x35u16),
        keyboard_map()[51] == (122u32, 0x1au16),
        keyboard_map()[52] == (127u32, 0xe071u16),
        keyboard_map()[53] == (273u32, 0xe075u16),
        keyboard_map()[54] == (274u32, 0xe072u16),
        keyboard_map()[55] == (275u32, 0xe074u16),
        keyboard_map()[56] == (276u32, 0xe06bu16),
        keyboard_map()[57] == (277u32, 0xe070u16),
        keyboard_map()[58] == (278u32, 0xe06cu16),
        keyboard_map()[59] == (279u32, 0xe069u16),
        keyboard_map()[60] == (280u32, 0xe07du16),
        keyboard_map()[61] == (281u32, 0xe07au16),
        keyboard_map()[62] == (282u32, 0x05u16),
        keyboard_map()[63] == (283u32, 0x06u16),
        keyboard_map()[64] == (284u32, 0x04u16),
        keyboard_map()[65] == (285u32, 0x0cu16),
        keyboard_map()[66] == (286u32, 0x03u16),
        keyboard_map()[67] == (287u32, 0x0bu16),
        keyboard_map()[68] == (288u32, 0x83u16),
        keyboard_map()[69] == (289u32, 0x0au16),
        keyboard_map()[70] == (290u32, 0x01u16),
        keyboard_map()[71] == (291u32, 0x09u16),
        keyboard_map()[72] == (292u32, 0x78u16),
        keyboard_map()[73] == (293u32, 0x07u16),
        keyboard_map()[74] == (301u32, 0x58u16),
        keyboard_map()[75] == (303u32, 0x59u16),
        keyboard_map()[76] == (304u32, 0x12u16),
        keyboard_map()[77] == (305u32, 0xe014u16),
        keyboard_map()[78] == (306u32, 0x14u16),
        keyboard_map()[79] == (307u32, 0xe011u16),
        keyboard_map()[80] == (308u32, 0x11u16),
{
}

/// Entry `i` of the keyboard map.
pub fn keymap_entry(i: usize) -> (r: (u32, u16))
    requires
        i < KEYBOARD_MAP_LEN,
    ensures
        r == keyboard_map()[i as int],
{
    match i {
        0 => (8, 0x66),
        1 => (9, 0x0d),
        2 => (13, 0x5a),
        3 => (27, 0x76),
        4 => (32, 0x29),
        5 => (39, 0x52),
        6 => (44, 0x41),
        7 => (45, 0x4e),
        8 => (46, 0x49),
        9 => (47, 0x4a),
        10 => (48, 0x45),
        11 => (49, 0x16),
        12 => (50, 0x1e),
        13 => (51, 0x26),
        14 => (52, 0x25),
        15 => (53, 0x2e),
        16 => (54, 0x36),
        17 => (55, 0x3d),
        18 => (56, 0x3e),
        19 => (57, 0x46),
        20 => (59, 0x4c),
        21 => (61, 0x55),
        22 => (91, 0x54),
        23 => (92, 0x5d),
        24 => (93, 0x5b),
        25 => (96, 0x0e),
        26 => (97, 0x1c),
        27 => (98, 0x32),
        28 => (99, 0x21),
        29 => (100, 0x23),
        30 => (101, 0x24),
        31 => (102, 0x2b),
        32 => (103, 0x34),
        33 => (104, 0x33),
        34 => (105, 0x43),
        35 => (106, 0x3b),
        36 => (107, 0x42),
        37 => (108, 0x4b),
        38 => (109, 0x3a),
        39 => (110, 0x31),
        40 => (111, 0x44),
        41 => (112, 0x4d),
        42 => (113, 0x15),
        43 => (114, 0x2d),
        44 => (115, 0x1b),
        45 => (116, 0x2c),
        46 => (117, 0x3c),
        47 => (118, 0x2a),
        48 => (119, 0x1d),
        49 => (120, 0x22),
        50 => (121, 0x35),
        51 => (122, 0x1a),
        52 => (127, 0xe071),
        53 => (273, 0xe075),
        54 => (274, 0xe072),
        55 => (275, 0xe074),
        56 => (276, 0xe06b),
        57 => (277, 0xe070),
        58 => (278, 0xe06c),
        59 => (279, 0xe069),
        60 => (280, 0xe07d),
        61 => (281, 0xe07a),
        62 => (282, 0x05),
        63 => (283, 0x06),
        64 => (284, 0x04),
        65 => (285, 0x0c),
        66 => (286, 0x03),
        67 => (287, 0x0b),
        68 => (288, 0x83),
        69 => (289, 0x0a),
        70 => (290, 0x01),
        71 => (291, 0x09),
        72 => (292, 0x78),
        73 => (293, 0x07),
        74 => (301, 0x58),
        75 => (303, 0x59),
        76 => (304, 0x12),
        77 => (305, 0xe014),
        78 => (306, 0x14),
        79 => (307, 0xe011),
        _ => (308, 0x11),
    }
}

/// Key codes of the keyboard map increase strictly from one entry to the next.
pub proof fn lemma_keymap_increasing()
    ensures
        forall|i: int|
            0 <= i < KEYBOARD_MAP_LEN - 1 ==> (#[trigger] spec_keymap_entry(i)).0
                < spec_keymap_entry(i + 1).0,
{
}

/// Key codes of the keyboard map are pairwise distinct: a key code that
/// appears at entry `j` appears nowhere else.
pub proof fn lemma_keymap_distinct()
    ensures
        forall|i: int, j: int|
            0 <= i < KEYBOARD_MAP_LEN && 0 <= j < KEYBOARD_MAP_LEN && i != j ==> (
            #[trigger] keyboard_map()[i]).0 != (#[trigger] keyboard_map()[j]).0,
{
    assert forall|i: int, j: int|
        0 <= i < j < KEYBOARD_MAP_LEN implies spec_keymap_entry(i).0 < spec_keymap_entry(j).0 by {
        lemma_keymap_increasing_between(i, j);
    }
}

proof fn lemma_keymap_increasing_between(i: int, j: int)
    requires
        0 <= i < j < KEYBOARD_MAP_LEN,
    ensures
        spec_keymap_entry(i).0 < spec_keymap_entry(j).0,
    decreases j - i,
{
    lemma_keymap_increasing();
    if j > i + 1 {
        lemma_keymap_increasing_between(i, j - 1);
        assert(spec_keymap_entry(j - 1).0 < spec_keymap_entry(j).0);
    }
}

/// A key transition sent to the emulated PS/2 keyboard.
#[derive(Clone, Copy, Debug, PartialEq, Eq, Structural)]
pub struct KeyEvent {
    /// PS/2 set 2 scan code of the key.
    pub scancode: u16,
    /// True for a key press, false for a key release.
    pub pressed: bool,
}

/// Keys held down after the first `n` entries of `map` have been scanned with
/// the libretro key states `states`, starting from the set `pressed`: each
/// scanned key is added when down and taken out when up.
pub open spec fn pressed_after(
    map: Seq<(u32, u16)>,
    states: Seq<bool>,
    pressed: Set<u32>,
    n: nat,
) -> Set<u32>
    decreases n,
{
    if n == 0 {
        pressed
    } else {
        let before = pressed_after(map, states, pressed, (n - 1) as nat);
        if states[n - 1] {
            before.insert(map[n - 1].0)
        } else {
            before.remove(map[n - 1].0)
        }
    }
}

/// Key events sent while the first `n` entries of `map` are scanned: one for
/// each scanned key whose state differs from the set of keys held down at that
/// point, in scanning order.
pub open spec fn key_events(
    map: Seq<(u32, u16)>,
    states: Seq<bool>,
    pressed: Set<u32>,
    n: nat,
) -> Seq<KeyEvent>
    decreases n,
{
    if n == 0 {
        Seq::empty()
    } else {
        let before = pressed_after(map, states, pressed, (n - 1) as nat);
        let earlier = key_events(map, states, pressed, (n - 1) as nat);
        if states[n - 1] != before.contains(map[n - 1].0) {
            earlier.push(KeyEvent { scancode: map[n - 1].1, pressed: states[n - 1] })
        } else {
            earlier
        }
    }
}

/// Keys that the emulated keyboard currently holds down, by libretro key code.
pub struct Keyboard {
    pressed: HashSet<u32>,
}

impl View for Keyboard {
    type V = Set<u32>;

    closed spec fn view(&self) -> Set<u32> {
        self.pressed@
    }
}

impl Keyboard {
    /// A keyboard with no key held down.
    pub fn new() -> (r: Keyboard)
        ensures
            r@ == Set::<u32>::empty(),
    {
        Keyboard { pressed: HashSet::new() }
    }

    /// Whether the key with libretro key code `keycode` is held down.
    pub fn is_pressed(&self, keycode: u32) -> (r: bool)
        ensures
            r == self@.contains(keycode),
    {
        self.pressed.contains(&keycode)
    }

    /// Scans the keyboard map with the libretro key states `key_states`
    /// (entry `i` tells whether the key of map entry `i` is down) and returns
    /// the PS/2 events to send, in map order: one for each key whose state
    /// changed. Held keys are updated to match.
    pub fn update(&mut self, key_states: &[bool]) -> (events: Vec<KeyEvent>)
        requires
            key_states@.len() == KEYBOARD_MAP_LEN,
        ensures
            final(self)@ == pressed_after(
                keyboard_map(),
                key_states@,
                old(self)@,
                KEYBOARD_MAP_LEN as nat,
            ),
            events@ == key_events(keyboard_map(), key_states@, old(self)@, KEYBOARD_MAP_LEN as nat),
            forall|i: int|
                0 <= i < KEYBOARD_MAP_LEN ==> final(self)@.contains(
                    (#[trigger] keyboard_map()[i]).0,
                ) == key_states@[i],
            forall|k: u32|
                (forall|i: int| 0 <= i < KEYBOARD_MAP_LEN ==> (#[trigger] keyboard_map()[i]).0 != k)
                    ==> (final(self)@.contains(k) == old(self)@.contains(k)),
    {
        let mut events: Vec<KeyEvent> = Vec::new();
        let mut i: usize = 0;
        while i < KEYBOARD_MAP_LEN
            invariant
                i <= KEYBOARD_MAP_LEN,
                key_states@.len() == KEYBOARD_MAP_LEN,
                self@ == pressed_after(keyboard_map(), key_states@, old(self)@, i as nat),
                events@ == key_events(keyboard_map(), key_states@, old(self)@, i as nat),
            decreases KEYBOARD_MAP_LEN - i,
        {
            let (keycode, scancode) = keymap_entry(i);
            let is_down = key_states[i];
            let was_down = self.pressed.contains(&keycode);
            proof {
                let before = pressed_after(keyboard_map(), key_states@, old(self)@, i as nat);
                if is_down {
                    assert(was_down ==> before.insert(keycode) =~= before);
                } else {
                    assert(!was_down ==> before.remove(keycode) =~= before);
                }
            }
            if is_down != was_down {
                events.push(KeyEvent { scancode, pressed: is_down });
                if is_down {
                    self.pressed.insert(keycode);
                } else {
                    self.pressed.remove(&keycode);
                }
            }
            i = i + 1;
        }
        proof {
            lemma_keymap_distinct();
            lemma_pressed_after(key_states@, old(self)@, KEYBOARD_MAP_LEN as nat);
        }
        events
    }
}

/// What the scan leaves held: after `n` entries, a scanned key is held exactly
/// when its state says so, and a key not among them is held exactly when it
/// was held before.
proof fn lemma_pressed_after(states: Seq<bool>, pressed: Set<u32>, n: nat)
    requires
        states.len() == KEYBOARD_MAP_LEN,
        n <= KEYBOARD_MAP_LEN,
        forall|i: int, j: int|
            0 <= i < KEYBOARD_MAP_LEN && 0 <= j < KEYBOARD_MAP_LEN && i != j ==> (
            #[trigger] keyboard_map()[i]).0 != (#[trigger] keyboard_map()[j]).0,
    ensures
        forall|i: int|
            0 <= i < n ==> pressed_after(keyboard_map(), states, pressed, n).contains(
                (#[trigger] keyboard_map()[i]).0,
            ) == states[i],
        forall|k: u32|
            (forall|i: int| 0 <= i < n ==> (#[trigger] keyboard_map()[i]).0 != k) ==> (
            pressed_after(keyboard_map(), states, pressed, n).contains(k) == pressed.contains(k)),
    decreases n,
{
    if n > 0 {
        lemma_pressed_after(states, pressed, (n - 1) as nat);
        let last = keyboard_map()[n - 1];
        assert forall|k: u32|
            (forall|i: int| 0 <= i < n ==> (#[trigger] keyboard_map()[i]).0 != k) implies (
            pressed_after(keyboard_map(), states, pressed, n).contains(k) == pressed.contains(k)) by {
            assert(keyboard_map()[n - 1].0 != k);
            assert forall|i: int| 0 <= i < n - 1 implies (#[trigger] keyboard_map()[i]).0 != k by {}
        }
        assert forall|i: int| 0 <= i < n implies pressed_after(
            keyboard_map(),
            states,
            pressed,
            n,
        ).contains((#[trigger] keyboard_map()[i]).0) == states[i] by {
            if i < n - 1 {
                assert(keyboard_map()[i].0 != last.0);
            }
        }
    }
}

/// A scan that finds every mapped key already in the state that `held`
/// records sends no event and leaves the held keys as they were.
proof fn lemma_scan_without_change(states: Seq<bool>, held: Set<u32>, n: nat)
    requires
        states.len() == KEYBOARD_MAP_LEN,
        n <= KEYBOARD_MAP_LEN,
        forall|i: int|
            0 <= i < KEYBOARD_MAP_LEN ==> held.contains((#[trigger] keyboard_map()[i]).0)
                == states[i],
    ensures
        key_events(keyboard_map(), states, held, n) == Seq::<KeyEvent>::empty(),
        pressed_after(keyboard_map(), states, held, n) == held,
    decreases n,
{
    if n > 0 {
        lemma_scan_without_change(states, held, (n - 1) as nat);
        let k = keyboard_map()[n - 1].0;
        assert(held.contains(k) == states[n - 1]);
        if states[n - 1] {
            assert(held.insert(k) =~= held);
        } else {
            assert(held.remove(k) =~= held);
        }
    }
}

/// Law: scanning the keyboard a second time with the same key states sends no
/// key event and leaves the held keys as the first scan left them.
pub proof fn law_rescan_sends_nothing(pressed: Set<u32>, states: Seq<bool>)
    requires
        states.len() == KEYBOARD_MAP_LEN,
    ensures
        ({
            let after = pressed_after(keyboard_map(), states, pressed, KEYBOARD_MAP_LEN as nat);
            &&& key_events(keyboard_map(), states, after, KEYBOARD_MAP_LEN as nat)
                == Seq::<KeyEvent>::empty()
            &&& pressed_after(keyboard_map(), states, after, KEYBOARD_MAP_LEN as nat) == after
        }),
{
    lemma_keymap_distinct();
    lemma_pressed_after(states, pressed, KEYBOARD_MAP_LEN as nat);
    let after = pressed_after(keyboard_map(), states, pressed, KEYBOARD_MAP_LEN as nat);
    lemma_scan_without_change(states, after, KEYBOARD_MAP_LEN as nat);
}

/// Law: a scan that finds every mapped key in the state the keyboard already
/// holds sends no key event and changes nothing.
pub proof fn law_unchanged_keys_send_nothing(pressed: Set<u32>, states: Seq<bool>)
    requires
        states.len() == KEYBOARD_MAP_LEN,
        forall|i: int|
            0 <= i < KEYBOARD_MAP_LEN ==> pressed.contains((#[trigger] keyboard_map()[i]).0)
                == states[i],
    ensures
        key_events(keyboard_map(), states, pressed, KEYBOARD_MAP_LEN as nat)
            == Seq::<KeyEvent>::empty(),
        pressed_after(keyboard_map(), states, pressed, KEYBOARD_MAP_LEN as nat) == pressed,
{
    lemma_scan_without_change(states, pressed, KEYBOARD_MAP_LEN as nat);
}

/// Events for the keys among the first `n` map entries whose state in
/// `states` differs from whether `pressed` holds them, in map order.
pub open spec fn changed_key_events(states: Seq<bool>, pressed: Set<u32>, n: nat) -> Seq<KeyEvent>
    decreases n,
{
    if n == 0 {
        Seq::empty()
    } else {
        let earlier = changed_key_events(states, pressed, (n - 1) as nat);
        let (keycode, scancode) = keyboard_map()[n - 1];
        if states[n - 1] != pressed.contains(keycode) {
            earlier.push(KeyEvent { scancode, pressed: states[n - 1] })
        } else {
            earlier
        }
    }
}

/// Law: one scan sends an event for a mapped key exactly when its new state
/// differs from whether it was held before the scan, in map order, carrying
/// its scan code and its new state.
pub proof fn law_events_are_key_changes(pressed: Set<u32>, states: Seq<bool>, n: nat)
    requires
        states.len() == KEYBOARD_MAP_LEN,
        n <= KEYBOARD_MAP_LEN,
    ensures
        key_events(keyboard_map(), states, pressed, n) == changed_key_events(states, pressed, n),
    decreases n,
{
    if n > 0 {
        law_events_are_key_changes(pressed, states, (n - 1) as nat);
        lemma_keymap_distinct();
        lemma_pressed_after(states, pressed, (n - 1) as nat);
        let k = keyboard_map()[n - 1].0;
        assert forall|i: int| 0 <= i < n - 1 implies (#[trigger] keyboard_map()[i]).0 != k by {
            assert(keyboard_map()[n - 1].0 != keyboard_map()[i].0);
        }
    }
}

/// Whether the key of map entry `i` changes: its new state differs from
/// whether `pressed` holds it.
spec fn entry_changes(states: Seq<bool>, pressed: Set<u32>, i: int) -> bool {
    states[i] != pressed.contains(spec_keymap_entry(i).0)
}

proof fn lemma_changed_indices(states: Seq<bool>, pressed: Set<u32>, n: nat) -> (idx: Seq<int>)
    requires
        states.len() == KEYBOARD_MAP_LEN,
        n <= KEYBOARD_MAP_LEN,
    ensures
        idx.len() == changed_key_events(states, pressed, n).len(),
        forall|j: int| 0 <= j < idx.len() ==> 0 <= #[trigger] idx[j] < n,
        forall|j: int, k: int| 0 <= j < k < idx.len() ==> idx[j] < idx[k],
        forall|j: int|
            0 <= j < idx.len() ==> #[trigger] changed_key_events(states, pressed, n)[j]
                == (KeyEvent { scancode: spec_keymap_entry(idx[j]).1, pressed: states[idx[j]] }),
        forall|i: int| 0 <= i < n ==> (entry_changes(states, pressed, i) <==> idx.contains(i)),
    decreases n,
{
    if n == 0 {
        Seq::empty()
    } else {
        let prev = lemma_changed_indices(states, pressed, (n - 1) as nat);
        let last = n - 1;
        assert(keyboard_map()[last] == spec_keymap_entry(last));
        if entry_changes(states, pressed, last) {
            let idx = prev.push(last);
            assert forall|i: int| 0 <= i < n implies (entry_changes(states, pressed, i)
                <==> idx.contains(i)) by {
                if i < last {
                    if prev.contains(i) {
                        let j = choose|j: int| 0 <= j < prev.len() && prev[j] == i;
                        assert(idx[j] == i);
                    }
                    if idx.contains(i) {
                        let j = choose|j: int| 0 <= j < idx.len() && idx[j] == i;
                        assert(j < prev.len());
                        assert(prev[j] == i);
                    }
                } else {
                    assert(idx[prev.len() as int] == last);
                }
            }
            assert forall|j: int|
                0 <= j < idx.len() implies #[trigger] changed_key_events(states, pressed, n)[j]
                == (KeyEvent { scancode: spec_keymap_entry(idx[j]).1, pressed: states[idx[j]] }) by {
                if j < prev.len() {
                    assert(changed_key_events(states, pressed, (n - 1) as nat)[j] == (KeyEvent {
                        scancode: spec_keymap_entry(prev[j]).1,
                        pressed: states[prev[j]],
                    }));
                }
            }
            idx
        } else {
            assert forall|i: int| 0 <= i < n implies (entry_changes(states, pressed, i)
                <==> prev.contains(i)) by {
                if i == last && prev.contains(i) {
                    let j = choose|j: int| 0 <= j < prev.len() && prev[j] == i;
                    assert(prev[j] < last);
                }
            }
            prev
        }
    }
}

/// Law: one scan of the key map sends, in map order, exactly one event for
/// each mapped key whose new state differs from whether it was held,
/// carrying that key's scan code and its new state (true for a press, false
/// for a release). The returned sequence gives, for each event, the map entry
/// it comes from.
pub proof fn law_scan_events(pressed: Set<u32>, states: Seq<bool>) -> (idx: Seq<int>)
    requires
        states.len() == KEYBOARD_MAP_LEN,
    ensures
        ({
            let events = key_events(keyboard_map(), states, pressed, KEYBOARD_MAP_LEN as nat);
            &&& idx.len() == events.len()
            &&& forall|j: int| 0 <= j < idx.len() ==> 0 <= #[trigger] idx[j] < 81
            &&& forall|j: int, k: int| 0 <= j < k < idx.len() ==> idx[j] < idx[k]
            &&& forall|j: int|
                0 <= j < idx.len() ==> #[trigger] events[j] == (KeyEvent {
                    scancode: spec_keymap_entry(idx[j]).1,
                    pressed: states[idx[j]],
                })
            &&& forall|i: int|
                0 <= i < 81 ==> ((states[i] != pressed.contains(
                    (#[trigger] spec_keymap_entry(i)).0,
                )) <==> idx.contains(i))
        }),
{
    law_events_are_key_changes(pressed, states, KEYBOARD_MAP_LEN as nat);
    let idx = lemma_changed_indices(states, pressed, KEYBOARD_MAP_LEN as nat);
    assert forall|i: int|
        0 <= i < 81 implies ((states[i] != pressed.contains(
        (#[trigger] spec_keymap_entry(i)).0,
    )) <==> idx.contains(i)) by {
        assert(entry_changes(states, pressed, i) <==> idx.contains(i));
    }
    idx
}

/// Law: after one scan of the key map, each mapped key is held exactly when
/// its new state is down, and every key code that is not in the map is held
/// exactly when it was held before.
pub proof fn law_scan_tracks_keys(pressed: Set<u32>, states: Seq<bool>)
    requires
        states.len() == KEYBOARD_MAP_LEN,
    ensures
        ({
            let after = pressed_after(keyboard_map(), states, pressed, KEYBOARD_MAP_LEN as nat);
            &&& forall|i: int|
                0 <= i < 81 ==> after.contains((#[trigger] spec_keymap_entry(i)).0) == states[i]
            &&& forall|k: u32|
                (forall|i: int| 0 <= i < 81 ==> (#[trigger] spec_keymap_entry(i)).0 != k) ==> (
                after.contains(k) == pressed.contains(k))
        }),
{
    lemma_keymap_distinct();
    lemma_pressed_after(states, pressed, KEYBOARD_MAP_LEN as nat);
    let after = pressed_after(keyboard_map(), states, pressed, KEYBOARD_MAP_LEN as nat);
    assert forall|i: int| 0 <= i < 81 implies after.contains(
        (#[trigger] spec_keymap_entry(i)).0,
    ) == states[i] by {
        assert(keyboard_map()[i] == spec_keymap_entry(i));
    }
    assert forall|k: u32|
        (forall|i: int| 0 <= i < 81 ==> (#[trigger] spec_keymap_entry(i)).0 != k) implies (
    after.contains(k) == pressed.contains(k)) by {
        assert forall|i: int| 0 <= i < KEYBOARD_MAP_LEN implies (
        #[trigger] keyboard_map()[i]).0 != k by {
            assert(keyboard_map()[i] == spec_keymap_entry(i));
        }
    }
}

} // verus!
